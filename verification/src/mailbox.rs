//! The inbox of the round manager and of the block-retrieval task: of the
//! messages that wait under one key only the latest is kept.

use crate::account_address::AccountAddress;
use crate::network_interface::EventKind;
use vstd::prelude::*;

verus! {

/// What messages are told apart by: the peer that sent them and, where the
/// inbox takes several kinds, their kind.
#[derive(Clone, Copy, Debug, PartialEq, Eq, Hash)]
pub struct MailboxKey {
    pub peer: AccountAddress,
    pub kind: Option<EventKind>,
}

impl MailboxKey {
    /// Whether this key and `other` are one key.
    pub fn same(&self, other: &MailboxKey) -> (b: bool)
        ensures
            b == (*self == *other),
    {
        let kinds = match (self.kind, other.kind) {
            (None, None) => true,
            (Some(a), Some(b)) => a == b,
            _ => false,
        };
        kinds && self.peer == other.peer
    }
}

/// Whether no key has two messages in `waiting`.
pub open spec fn one_per_key<T>(waiting: Seq<(MailboxKey, T)>) -> bool {
    forall|i: int, j: int| 0 <= i < j < waiting.len() ==> waiting[i].0 != waiting[j].0
}

/// The place of the message that waits under `key`, if there is one.
pub open spec fn place_of<T>(waiting: Seq<(MailboxKey, T)>, key: MailboxKey) -> Option<int> {
    if exists|i: int| 0 <= i < waiting.len() && waiting[i].0 == key {
        Some(choose|i: int| 0 <= i < waiting.len() && waiting[i].0 == key)
    } else {
        None
    }
}

/// Where no key has two messages, the message of a key is found at the one
/// place that holds the key.
pub proof fn lemma_place_of<T>(waiting: Seq<(MailboxKey, T)>, i: int)
    requires
        one_per_key(waiting),
        0 <= i < waiting.len(),
    ensures
        place_of(waiting, waiting[i].0) == Some(i),
{
    let k = choose|k: int| 0 <= k < waiting.len() && waiting[k].0 == waiting[i].0;
    assert(k == i);
}

struct Letter<T> {
    key: MailboxKey,
    message: T,
}

/// An inbox that keeps one message per key, the latest, and hands the
/// messages out in the order in which their keys first came to wait.
pub struct Mailbox<T> {
    letters: Vec<Letter<T>>,
}

impl<T> View for Mailbox<T> {
    type V = Seq<(MailboxKey, T)>;

    /// The messages that wait, each with its key, the next to go first.
    closed spec fn view(&self) -> Seq<(MailboxKey, T)> {
        self.letters@.map_values(|l: Letter<T>| (l.key, l.message))
    }
}

impl<T> Mailbox<T> {
    /// What holds of every mailbox: no key has two messages.
    pub closed spec fn wf(&self) -> bool {
        one_per_key(self@)
    }

    /// A mailbox holds at most one message for each key.
    pub proof fn lemma_one_per_key(&self)
        requires
            self.wf(),
        ensures
            one_per_key(self@),
    {
    }

    /// An empty mailbox.
    pub fn new() -> (m: Self)
        ensures
            m.wf(),
            m@.len() == 0,
    {
        Mailbox { letters: Vec::new() }
    }

    /// The number of messages that wait.
    pub fn len(&self) -> (n: usize)
        ensures
            n == self@.len(),
    {
        self.letters.len()
    }

    /// Puts a message under its key. A message that waited under the same
    /// key gives way to the new one, which takes its place in line, and comes
    /// back as dropped. Under a key that had no message the new one goes to
    /// the end of the line.
    pub fn push(&mut self, key: MailboxKey, message: T) -> (dropped: Option<T>)
        requires
            old(self).wf(),
        ensures
            final(self).wf(),
            match place_of(old(self)@, key) {
                Some(i) => dropped == Some(old(self)@[i].1) && final(self)@ == old(self)@.update(
                    i,
                    (key, message),
                ),
                None => dropped.is_none() && final(self)@ == old(self)@.push((key, message)),
            },
    {
        let mut i: usize = 0;
        while i < self.letters.len()
            invariant
                *self == *old(self),
                self.wf(),
                i <= self.letters.len(),
                forall|j: int| 0 <= j < i ==> self@[j].0 != key,
            decreases self.letters.len() - i,
        {
            if self.letters[i].key.same(&key) {
                proof {
                    assert(self@[i as int].0 == key);
                    lemma_place_of(self@, i as int);
                }
                let ghost before = self@;
                let old_letter = self.letters.remove(i);
                self.letters.insert(i, Letter { key, message });
                proof {
                    assert(self@ =~= before.update(i as int, (key, message)));
                    assert forall|a: int, b: int| 0 <= a < b < self@.len() implies self@[a].0
                        != self@[b].0 by {
                        assert(self@[a].0 == before[a].0 && self@[b].0 == before[b].0);
                    }
                }
                return Some(old_letter.message);
            }
            i += 1;
        }
        let ghost before = self@;
        self.letters.push(Letter { key, message });
        proof {
            assert(self@ =~= before.push((key, message)));
            assert forall|a: int, b: int| 0 <= a < b < self@.len() implies self@[a].0
                != self@[b].0 by {
                if b < before.len() {
                    assert(self@[a] == before[a] && self@[b] == before[b]);
                } else {
                    assert(self@[a] == before[a]);
                }
            }
        }
        None
    }

    /// Takes the message that is next in line, with its key; none if no
    /// message waits.
    pub fn pop(&mut self) -> (next: Option<(MailboxKey, T)>)
        requires
            old(self).wf(),
        ensures
            final(self).wf(),
            old(self)@.len() == 0 ==> next.is_none() && final(self)@ == old(self)@,
            old(self)@.len() > 0 ==> next == Some(old(self)@[0]) && final(self)@ == old(
                self,
            )@.subrange(1, old(self)@.len() as int),
    {
        if self.letters.len() == 0 {
            return None;
        }
        let ghost before = self@;
        let letter = self.letters.remove(0);
        proof {
            assert(self@ =~= before.subrange(1, before.len() as int));
            assert forall|a: int, b: int| 0 <= a < b < self@.len() implies self@[a].0
                != self@[b].0 by {
                assert(self@[a] == before[a + 1] && self@[b] == before[b + 1]);
            }
        }
        Some((letter.key, letter.message))
    }
}

} // verus!
