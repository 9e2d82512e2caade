//! Assembles the fragments of one batch at a time, in order, within a byte
//! budget.

use crate::quorum_store::types::{
    concat_bytes, lemma_concat_bytes_add, lemma_total_bytes_add, payload_view, total_bytes,
    BatchId, SerializedTransaction,
};
use vstd::prelude::*;

verus! {

/// Why a fragment was not taken. A rejected fragment leaves the aggregator as
/// it was.
#[derive(Clone, Copy, Debug, PartialEq, Eq, Structural)]
pub enum BatchAggregatorError {
    /// The batch would hold more bytes than a batch may.
    SizeLimitExceeded,
    /// The fragment's number is below the one that is due.
    OutdatedFragment,
    /// The fragment's number is above the one that is due: one was skipped.
    MissedFragment,
    /// The fragment belongs to another batch than the one in progress.
    BatchIdMismatch,
    /// The batch would end without a single transaction.
    EmptyBatch,
}

/// What an aggregator holds, as plain values.
pub struct BatchAggregatorView {
    /// The batch in progress, if any.
    pub batch_id: Option<BatchId>,
    /// The number of the fragment that is due: 0 where no batch is in
    /// progress, else one more than that of the last fragment taken.
    pub next_fragment_id: nat,
    /// The transactions taken so far, in order.
    pub payload: Seq<Seq<u8>>,
    /// The most bytes a batch may hold.
    pub max_batch_bytes: nat,
}

/// Why the aggregator `v` does not take the fragment `fragment_id` of batch
/// `batch_id` with the transactions `txns`, or `None` if it takes it.
pub open spec fn rejection(
    v: BatchAggregatorView,
    batch_id: BatchId,
    fragment_id: usize,
    txns: Seq<Seq<u8>>,
) -> Option<BatchAggregatorError> {
    if v.batch_id.is_some() && v.batch_id != Some(batch_id) {
        Some(BatchAggregatorError::BatchIdMismatch)
    } else if fragment_id < v.next_fragment_id {
        Some(BatchAggregatorError::OutdatedFragment)
    } else if fragment_id > v.next_fragment_id {
        Some(BatchAggregatorError::MissedFragment)
    } else if total_bytes(v.payload) + total_bytes(txns) > v.max_batch_bytes {
        Some(BatchAggregatorError::SizeLimitExceeded)
    } else {
        None
    }
}

/// Why the aggregator `v` does not end its batch with the fragment given, or
/// `None` if it does. A last fragment is held to what every fragment is held
/// to, and the batch it completes must not be empty.
pub open spec fn end_rejection(
    v: BatchAggregatorView,
    batch_id: BatchId,
    fragment_id: usize,
    txns: Seq<Seq<u8>>,
) -> Option<BatchAggregatorError> {
    match rejection(v, batch_id, fragment_id, txns) {
        Some(e) => Some(e),
        None => if v.payload.len() + txns.len() == 0 {
            Some(BatchAggregatorError::EmptyBatch)
        } else {
            None
        },
    }
}

/// The aggregator `v` after it took a fragment of batch `batch_id` that was
/// due, with the transactions `txns`.
pub open spec fn appended(
    v: BatchAggregatorView,
    batch_id: BatchId,
    txns: Seq<Seq<u8>>,
) -> BatchAggregatorView {
    BatchAggregatorView {
        batch_id: Some(batch_id),
        next_fragment_id: v.next_fragment_id + 1,
        payload: v.payload + txns,
        max_batch_bytes: v.max_batch_bytes,
    }
}

/// An aggregator with the given budget and no batch in progress.
pub open spec fn idle(max_batch_bytes: nat) -> BatchAggregatorView {
    BatchAggregatorView {
        batch_id: None,
        next_fragment_id: 0,
        payload: Seq::empty(),
        max_batch_bytes,
    }
}

/// Collects the fragments of a batch, one batch at a time.
#[derive(Debug)]
pub struct BatchAggregator {
    batch_id: Option<BatchId>,
    last_fragment_id: Option<usize>,
    txn_fragments: Vec<SerializedTransaction>,
    num_bytes: usize,
    max_batch_bytes: usize,
}

impl View for BatchAggregator {
    type V = BatchAggregatorView;

    closed spec fn view(&self) -> BatchAggregatorView {
        BatchAggregatorView {
            batch_id: self.batch_id,
            next_fragment_id: match self.last_fragment_id {
                Some(last) => (last + 1) as nat,
                None => 0,
            },
            payload: payload_view(self.txn_fragments@),
            max_batch_bytes: self.max_batch_bytes as nat,
        }
    }
}

/// The number of bytes in `txns` if it is at most `limit`, else `None`.
fn bytes_within(txns: &Vec<SerializedTransaction>, limit: usize) -> (r: Option<usize>)
    ensures
        match r {
            Some(n) => n == total_bytes(payload_view(txns@)) && n <= limit,
            None => total_bytes(payload_view(txns@)) > limit,
        },
{
    let ghost all = payload_view(txns@);
    let mut sum: usize = 0;
    let mut i: usize = 0;
    while i < txns.len()
        invariant
            i <= txns.len(),
            all == payload_view(txns@),
            sum == total_bytes(all.subrange(0, i as int)),
            sum <= limit,
        decreases txns.len() - i,
    {
        let len = txns[i].len();
        proof {
            let next = all.subrange(0, i + 1);
            assert(next.drop_last() =~= all.subrange(0, i as int));
            assert(next.last() == txns@[i as int]@);
            assert(all =~= next + all.subrange(i + 1, all.len() as int));
            lemma_total_bytes_add(next, all.subrange(i + 1, all.len() as int));
        }
        if len > limit - sum {
            return None;
        }
        sum = sum + len;
        i += 1;
    }
    assert(all.subrange(0, txns.len() as int) =~= all);
    Some(sum)
}

impl BatchAggregator {
    /// What holds of every aggregator: the byte count is that of the
    /// transactions held, it is within the budget, and fragments are counted
    /// only while a batch is in progress.
    pub closed spec fn wf(&self) -> bool {
        &&& self.num_bytes == total_bytes(payload_view(self.txn_fragments@))
        &&& self.num_bytes <= self.max_batch_bytes
        &&& self.batch_id.is_some() == self.last_fragment_id.is_some()
        &&& self.batch_id.is_none() ==> self.txn_fragments@.len() == 0
    }

    /// An aggregator for batches of at most `max_batch_bytes` bytes.
    pub fn new(max_batch_bytes: usize) -> (a: Self)
        ensures
            a.wf(),
            a@ == idle(max_batch_bytes as nat),
    {
        let a = BatchAggregator {
            batch_id: None,
            last_fragment_id: None,
            txn_fragments: Vec::new(),
            num_bytes: 0,
            max_batch_bytes,
        };
        assert(payload_view(a.txn_fragments@) =~= Seq::empty());
        a
    }

    /// Tests the fragment against the batch in progress; the byte count of
    /// what the batch would hold comes back where the fragment is due and fits.
    fn check(&self, batch_id: BatchId, fragment_id: usize, txns: &Vec<SerializedTransaction>) -> (r:
        Result<usize, BatchAggregatorError>)
        requires
            self.wf(),
        ensures
            match rejection(self@, batch_id, fragment_id, payload_view(txns@)) {
                Some(e) => r == Err::<usize, BatchAggregatorError>(e),
                None => r matches Ok(n) && n == total_bytes(self@.payload) + total_bytes(
                    payload_view(txns@),
                ),
            },
    {
        match self.batch_id {
            Some(current) => {
                if current != batch_id {
                    return Err(BatchAggregatorError::BatchIdMismatch);
                }
            },
            None => {},
        }
        match self.last_fragment_id {
            Some(last) => {
                if fragment_id <= last {
                    return Err(BatchAggregatorError::OutdatedFragment);
                }
                if fragment_id - last > 1 {
                    return Err(BatchAggregatorError::MissedFragment);
                }
            },
            None => {
                if fragment_id > 0 {
                    return Err(BatchAggregatorError::MissedFragment);
                }
            },
        }
        match bytes_within(txns, self.max_batch_bytes - self.num_bytes) {
            Some(n) => Ok(self.num_bytes + n),
            None => Err(BatchAggregatorError::SizeLimitExceeded),
        }
    }

    /// Why `append_transactions` would reject the fragment, or `None` if it
    /// would take it. The aggregator stays as it is.
    pub fn check_fragment(
        &self,
        batch_id: BatchId,
        fragment_id: usize,
        transactions: &Vec<SerializedTransaction>,
    ) -> (r: Option<BatchAggregatorError>)
        requires
            self.wf(),
        ensures
            r == rejection(self@, batch_id, fragment_id, payload_view(transactions@)),
    {
        match self.check(batch_id, fragment_id, transactions) {
            Ok(_) => None,
            Err(e) => Some(e),
        }
    }

    /// Why `end_batch` would reject the fragment, or `None` if it would take
    /// it. The aggregator stays as it is.
    pub fn check_last_fragment(
        &self,
        batch_id: BatchId,
        fragment_id: usize,
        transactions: &Vec<SerializedTransaction>,
    ) -> (r: Option<BatchAggregatorError>)
        requires
            self.wf(),
        ensures
            r == end_rejection(self@, batch_id, fragment_id, payload_view(transactions@)),
    {
        match self.check(batch_id, fragment_id, transactions) {
            Ok(_) => if self.txn_fragments.len() == 0 && transactions.len() == 0 {
                Some(BatchAggregatorError::EmptyBatch)
            } else {
                None
            },
            Err(e) => Some(e),
        }
    }

    /// The number of bytes that the batch in progress would hold with
    /// `transactions`, where that is within the budget.
    pub fn bytes_with(&self, transactions: &Vec<SerializedTransaction>) -> (n: usize)
        requires
            self.wf(),
            total_bytes(self@.payload) + total_bytes(payload_view(transactions@))
                <= self@.max_batch_bytes,
        ensures
            n == total_bytes(self@.payload) + total_bytes(payload_view(transactions@)),
    {
        let more = bytes_within(transactions, self.max_batch_bytes - self.num_bytes).unwrap();
        self.num_bytes + more
    }

    /// Takes the next fragment of the batch in progress, or the first of a new
    /// batch. The fragment is rejected if it belongs to another batch than the
    /// one in progress, if its number is not the one that is due, or if the
    /// batch would exceed its byte budget.
    pub fn append_transactions(
        &mut self,
        batch_id: BatchId,
        fragment_id: usize,
        transactions: Vec<SerializedTransaction>,
    ) -> (r: Result<(), BatchAggregatorError>)
        requires
            old(self).wf(),
        ensures
            final(self).wf(),
            match rejection(old(self)@, batch_id, fragment_id, payload_view(transactions@)) {
                Some(e) => r == Err::<(), BatchAggregatorError>(e) && final(self)@ == old(self)@,
                None => r.is_ok() && final(self)@ == appended(
                    old(self)@,
                    batch_id,
                    payload_view(transactions@),
                ),
            },
    {
        let num_bytes = match self.check(batch_id, fragment_id, &transactions) {
            Ok(n) => n,
            Err(e) => { return Err(e); },
        };
        let mut transactions = transactions;
        proof {
            lemma_total_bytes_add(
                payload_view(self.txn_fragments@),
                payload_view(transactions@),
            );
            assert(payload_view(self.txn_fragments@ + transactions@) =~= payload_view(
                self.txn_fragments@,
            ) + payload_view(transactions@));
        }
        self.txn_fragments.append(&mut transactions);
        self.num_bytes = num_bytes;
        self.batch_id = Some(batch_id);
        self.last_fragment_id = Some(fragment_id);
        Ok(())
    }

    /// Takes the last fragment of the batch and hands the batch out: its
    /// number of bytes and its transactions, in the order in which they came.
    /// Afterwards no batch is in progress. The fragment is rejected as by
    /// `append_transactions`, and also if the batch would hold no transaction.
    pub fn end_batch(
        &mut self,
        batch_id: BatchId,
        fragment_id: usize,
        transactions: Vec<SerializedTransaction>,
    ) -> (r: Result<(usize, Vec<SerializedTransaction>), BatchAggregatorError>)
        requires
            old(self).wf(),
        ensures
            final(self).wf(),
            match end_rejection(old(self)@, batch_id, fragment_id, payload_view(transactions@)) {
                Some(e) => r == Err::<(usize, Vec<SerializedTransaction>), BatchAggregatorError>(e)
                    && final(self)@ == old(self)@,
                None => {
                    &&& r matches Ok((num_bytes, payload))
                    &&& payload_view(payload@) == old(self)@.payload + payload_view(transactions@)
                    &&& num_bytes == total_bytes(payload_view(payload@))
                    &&& final(self)@ == idle(old(self)@.max_batch_bytes)
                },
            },
    {
        let num_bytes = match self.check(batch_id, fragment_id, &transactions) {
            Ok(n) => n,
            Err(e) => { return Err(e); },
        };
        if self.txn_fragments.len() == 0 && transactions.len() == 0 {
            return Err(BatchAggregatorError::EmptyBatch);
        }
        let mut transactions = transactions;
        proof {
            lemma_total_bytes_add(
                payload_view(self.txn_fragments@),
                payload_view(transactions@),
            );
            assert(payload_view(self.txn_fragments@ + transactions@) =~= payload_view(
                self.txn_fragments@,
            ) + payload_view(transactions@));
        }
        let mut payload: Vec<SerializedTransaction> = Vec::new();
        payload.append(&mut self.txn_fragments);
        payload.append(&mut transactions);
        self.num_bytes = 0;
        self.batch_id = None;
        self.last_fragment_id = None;
        assert(payload_view(self.txn_fragments@) =~= Seq::empty());
        Ok((num_bytes, payload))
    }
}

/// The bytes over which the digest of a batch is taken: those of its
/// transactions, in order.
pub fn digest_input(payload: &Vec<SerializedTransaction>) -> (bytes: Vec<u8>)
    ensures
        bytes@ == concat_bytes(payload_view(payload@)),
{
    let ghost all = payload_view(payload@);
    let mut bytes: Vec<u8> = Vec::new();
    let mut i: usize = 0;
    while i < payload.len()
        invariant
            i <= payload.len(),
            all == payload_view(payload@),
            bytes@ == concat_bytes(all.subrange(0, i as int)),
        decreases payload.len() - i,
    {
        let txn = payload[i].bytes();
        let ghost before = bytes@;
        let mut j: usize = 0;
        while j < txn.len()
            invariant
                j <= txn.len(),
                bytes@ == before + txn@.subrange(0, j as int),
            decreases txn.len() - j,
        {
            bytes.push(txn[j]);
            assert(bytes@ =~= before + txn@.subrange(0, j + 1));
            j += 1;
        }
        proof {
            let next = all.subrange(0, i + 1);
            assert(next.drop_last() =~= all.subrange(0, i as int));
            assert(next.last() == txn@);
            assert(txn@.subrange(0, txn.len() as int) =~= txn@);
        }
        i += 1;
    }
    assert(all.subrange(0, payload.len() as int) =~= all);
    bytes
}

/// The transactions of a batch whose fragments, in the order of their
/// numbers, are `fragments`.
pub open spec fn batch_of(fragments: Seq<Seq<Seq<u8>>>) -> Seq<Seq<u8>>
    decreases fragments.len(),
{
    if fragments.len() == 0 {
        Seq::empty()
    } else {
        batch_of(fragments.drop_last()) + fragments.last()
    }
}

/// The bytes of `fragments`, one fragment after the other.
pub open spec fn fragments_bytes(fragments: Seq<Seq<Seq<u8>>>) -> Seq<u8>
    decreases fragments.len(),
{
    if fragments.len() == 0 {
        Seq::empty()
    } else {
        fragments_bytes(fragments.drop_last()) + concat_bytes(fragments.last())
    }
}

/// The digest of a batch is taken over the bytes of its fragments in the
/// order of their numbers: the aggregator that assembles a batch and whoever
/// checks the fragments one by one hash the same bytes.
pub proof fn lemma_digest_input_is_fragments_in_order(fragments: Seq<Seq<Seq<u8>>>)
    ensures
        concat_bytes(batch_of(fragments)) == fragments_bytes(fragments),
    decreases fragments.len(),
{
    if fragments.len() > 0 {
        lemma_digest_input_is_fragments_in_order(fragments.drop_last());
        lemma_concat_bytes_add(batch_of(fragments.drop_last()), fragments.last());
    }
}

/// A batch without a single transaction is never completed.
pub proof fn lemma_empty_batch_is_rejected(
    v: BatchAggregatorView,
    batch_id: BatchId,
    fragment_id: usize,
)
    requires
        v.payload.len() == 0,
    ensures
        end_rejection(v, batch_id, fragment_id, Seq::empty()).is_some(),
{
}

/// A fragment whose number is not the one that is due is never taken, be it
/// skipped ahead or repeated, and neither is a fragment of another batch than
/// the one in progress.
pub proof fn lemma_fragment_out_of_turn_is_rejected(
    v: BatchAggregatorView,
    batch_id: BatchId,
    fragment_id: usize,
    txns: Seq<Seq<u8>>,
)
    requires
        fragment_id != v.next_fragment_id || (v.batch_id.is_some() && v.batch_id != Some(
            batch_id,
        )),
    ensures
        rejection(v, batch_id, fragment_id, txns).is_some(),
        end_rejection(v, batch_id, fragment_id, txns).is_some(),
{
}

/// A fragment that would take its batch beyond the byte budget is never
/// taken; a fragment that is due and fills the budget exactly is.
pub proof fn lemma_byte_budget_is_kept(
    v: BatchAggregatorView,
    batch_id: BatchId,
    fragment_id: usize,
    txns: Seq<Seq<u8>>,
)
    ensures
        total_bytes(v.payload) + total_bytes(txns) > v.max_batch_bytes ==> rejection(
            v,
            batch_id,
            fragment_id,
            txns,
        ).is_some() && end_rejection(v, batch_id, fragment_id, txns).is_some(),
        total_bytes(v.payload) + total_bytes(txns) <= v.max_batch_bytes && fragment_id
            == v.next_fragment_id && (v.batch_id.is_none() || v.batch_id == Some(batch_id))
            ==> rejection(v, batch_id, fragment_id, txns).is_none(),
{
}

/// The aggregator `v` after it took `fragments` of batch `batch_id`, one
/// after the other.
pub open spec fn fed(
    v: BatchAggregatorView,
    batch_id: BatchId,
    fragments: Seq<Seq<Seq<u8>>>,
) -> BatchAggregatorView
    decreases fragments.len(),
{
    if fragments.len() == 0 {
        v
    } else {
        appended(fed(v, batch_id, fragments.drop_last()), batch_id, fragments.last())
    }
}

/// An aggregator that starts a batch and takes its fragments in the order of
/// their numbers holds the batch's transactions in that order, and waits for
/// the fragment with the next number.
pub proof fn lemma_fed_in_order(
    max_batch_bytes: nat,
    batch_id: BatchId,
    fragments: Seq<Seq<Seq<u8>>>,
)
    ensures
        fed(idle(max_batch_bytes), batch_id, fragments).payload == batch_of(fragments),
        fed(idle(max_batch_bytes), batch_id, fragments).next_fragment_id == fragments.len(),
        fed(idle(max_batch_bytes), batch_id, fragments).max_batch_bytes == max_batch_bytes,
    decreases fragments.len(),
{
    if fragments.len() > 0 {
        lemma_fed_in_order(max_batch_bytes, batch_id, fragments.drop_last());
    }
}

/// The bytes to hash depend on the transactions of a batch in their order
/// alone: two sequences of fragments that hold the same transactions in the
/// same order give the same bytes, wherever the fragments are cut.
pub proof fn lemma_digest_input_ignores_fragment_bounds(
    a: Seq<Seq<Seq<u8>>>,
    b: Seq<Seq<Seq<u8>>>,
)
    requires
        batch_of(a) == batch_of(b),
    ensures
        fragments_bytes(a) == fragments_bytes(b),
{
    lemma_digest_input_is_fragments_in_order(a);
    lemma_digest_input_is_fragments_in_order(b);
}

} // verus!
