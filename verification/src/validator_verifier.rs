//! The validator set of an epoch: who may vote, with what weight, and how much
//! weight makes a quorum.

use crate::account_address::AccountAddress;
use vstd::prelude::*;

verus! {

/// One validator of an epoch: its address and its voting power.
#[derive(Clone, Copy, Debug)]
pub struct ValidatorConsensusInfo {
    pub address: AccountAddress,
    pub voting_power: u64,
}

/// The sum of the voting powers of `validators`.
pub open spec fn total_power(validators: Seq<ValidatorConsensusInfo>) -> nat
    decreases validators.len(),
{
    if validators.len() == 0 {
        0
    } else {
        total_power(validators.drop_last()) + validators.last().voting_power as nat
    }
}

/// The voting power that makes a quorum among validators whose powers sum to
/// `total`: strictly more than two thirds of it. A set without validators has
/// quorum 0.
pub open spec fn quorum_power(validators: Seq<ValidatorConsensusInfo>) -> nat {
    if validators.len() == 0 {
        0
    } else {
        total_power(validators) * 2 / 3 + 1
    }
}

/// Whether no address occurs twice in `validators`.
pub open spec fn distinct_addresses(validators: Seq<ValidatorConsensusInfo>) -> bool {
    forall|i: int, j: int|
        0 <= i < j < validators.len() ==> validators[i].address != validators[j].address
}

/// Whether `address` belongs to one of `validators`.
pub open spec fn is_validator(
    validators: Seq<ValidatorConsensusInfo>,
    address: AccountAddress,
) -> bool {
    exists|i: int| 0 <= i < validators.len() && validators[i].address == address
}

/// The voting power of `address` among `validators`: that of the first entry
/// with this address, or `None` if there is none.
pub open spec fn power_of(
    validators: Seq<ValidatorConsensusInfo>,
    address: AccountAddress,
) -> Option<u64>
    decreases validators.len(),
{
    if validators.len() == 0 {
        None
    } else if validators.first().address == address {
        Some(validators.first().voting_power)
    } else {
        power_of(validators.drop_first(), address)
    }
}

/// The addresses of `validators`, in their order.
pub open spec fn addresses_of(validators: Seq<ValidatorConsensusInfo>) -> Seq<AccountAddress> {
    validators.map_values(|v: ValidatorConsensusInfo| v.address)
}

/// The frozen validator set of an epoch, in a fixed order, with the quorum
/// that its powers define.
#[derive(Debug)]
pub struct ValidatorVerifier {
    validators: Vec<ValidatorConsensusInfo>,
    total_voting_power: u128,
    quorum_voting_power: u128,
}

impl View for ValidatorVerifier {
    type V = Seq<ValidatorConsensusInfo>;

    closed spec fn view(&self) -> Seq<ValidatorConsensusInfo> {
        self.validators@
    }
}

impl ValidatorVerifier {
    /// The invariant of a validator set: addresses are distinct and the cached
    /// sums are those of the validators.
    #[verifier::type_invariant]
    spec fn wf(&self) -> bool {
        &&& distinct_addresses(self.validators@)
        &&& self.total_voting_power as nat == total_power(self.validators@)
        &&& self.quorum_voting_power as nat == quorum_power(self.validators@)
    }

    /// The validator set made of `validators`, in this order; `None` if an
    /// address occurs twice.
    pub fn new(validators: Vec<ValidatorConsensusInfo>) -> (r: Option<Self>)
        ensures
            r.is_some() <==> distinct_addresses(validators@),
            r matches Some(v) ==> v@ == validators@,
    {
        let n = validators.len();
        let mut total: u128 = 0;
        let mut i: usize = 0;
        while i < n
            invariant
                n == validators.len(),
                i <= n,
                total as nat == total_power(validators@.subrange(0, i as int)),
                total <= i * 0xffff_ffff_ffff_ffff,
                forall|a: int, b: int|
                    0 <= a < b < i ==> validators@[a].address != validators@[b].address,
            decreases n - i,
        {
            let mut j: usize = 0;
            while j < i
                invariant
                    n == validators.len(),
                    j <= i < n,
                    forall|a: int| 0 <= a < j ==> validators@[a].address != validators@[i as int].address,
                decreases i - j,
            {
                if validators[j].address == validators[i].address {
                    return None;
                }
                j += 1;
            }
            proof {
                let next = validators@.subrange(0, i + 1);
                assert(next.drop_last() =~= validators@.subrange(0, i as int));
                assert(i * 0xffff_ffff_ffff_ffff + 0xffff_ffff_ffff_ffff == (i + 1)
                    * 0xffff_ffff_ffff_ffff) by (nonlinear_arith);
                assert((i + 1) * 0xffff_ffff_ffff_ffff <= 0xffff_ffff_ffff_ffff
                    * 0xffff_ffff_ffff_ffff) by (nonlinear_arith)
                    requires
                        i + 1 <= 0xffff_ffff_ffff_ffff,
                ;
            }
            total = total + validators[i].voting_power as u128;
            i += 1;
        }
        assert(validators@.subrange(0, n as int) =~= validators@);
        let quorum: u128 = if n == 0 {
            0
        } else {
            // total - (total - 1) / 3 is total * 2 / 3 + 1, without the doubling
            if total == 0 {
                1
            } else {
                total - (total - 1) / 3
            }
        };
        Some(ValidatorVerifier { validators, total_voting_power: total, quorum_voting_power: quorum })
    }

    /// The number of validators.
    pub fn len(&self) -> (n: usize)
        ensures
            n == self@.len(),
            distinct_addresses(self@),
    {
        proof {
            use_type_invariant(self);
        }
        self.validators.len()
    }

    /// Whether the set has no validator.
    pub fn is_empty(&self) -> (b: bool)
        ensures
            b == (self@.len() == 0),
    {
        self.validators.len() == 0
    }

    /// The voting power of `author`, or `None` if it is no validator.
    pub fn get_voting_power(&self, author: &AccountAddress) -> (r: Option<u64>)
        ensures
            r == power_of(self@, *author),
            r.is_some() <==> is_validator(self@, *author),
    {
        let n = self.validators.len();
        let mut i: usize = 0;
        assert(self@.subrange(0, n as int) =~= self@);
        while i < n
            invariant
                n == self.validators.len(),
                i <= n,
                power_of(self@, *author) == power_of(self@.subrange(i as int, n as int), *author),
                forall|a: int| 0 <= a < i ==> self@[a].address != *author,
            decreases n - i,
        {
            let ghost rest = self@.subrange(i as int, n as int);
            assert(rest.first() == self@[i as int]);
            assert(rest.drop_first() =~= self@.subrange(i + 1, n as int));
            if self.validators[i].address == *author {
                return Some(self.validators[i].voting_power);
            }
            i += 1;
        }
        assert(self@.subrange(n as int, n as int).len() == 0);
        None
    }

    /// The sum of all validators' voting power.
    pub fn total_voting_power(&self) -> (p: u128)
        ensures
            p as nat == total_power(self@),
    {
        proof {
            use_type_invariant(self);
        }
        self.total_voting_power
    }

    /// The voting power that makes a quorum.
    pub fn quorum_voting_power(&self) -> (p: u128)
        ensures
            p as nat == quorum_power(self@),
    {
        proof {
            use_type_invariant(self);
        }
        self.quorum_voting_power
    }

    /// The validators' addresses, in the order of the set.
    pub fn get_ordered_account_addresses(&self) -> (r: Vec<AccountAddress>)
        ensures
            r@ == addresses_of(self@),
            distinct_addresses(self@),
    {
        proof {
            use_type_invariant(self);
        }
        let n = self.validators.len();
        let mut out: Vec<AccountAddress> = Vec::new();
        let mut i: usize = 0;
        while i < n
            invariant
                n == self.validators.len(),
                i <= n,
                out@ == addresses_of(self@.subrange(0, i as int)),
            decreases n - i,
        {
            out.push(self.validators[i].address);
            assert(addresses_of(self@.subrange(0, i + 1)) =~= addresses_of(
                self@.subrange(0, i as int),
            ).push(self@[i as int].address));
            i += 1;
        }
        assert(self@.subrange(0, n as int) =~= self@);
        out
    }

    /// The validators' voting powers, in the order of the set.
    pub fn get_ordered_voting_powers(&self) -> (r: Vec<u64>)
        ensures
            r@ == self@.map_values(|v: ValidatorConsensusInfo| v.voting_power),
    {
        let n = self.validators.len();
        let mut out: Vec<u64> = Vec::new();
        let mut i: usize = 0;
        while i < n
            invariant
                n == self.validators.len(),
                i <= n,
                out@ == self@.subrange(0, i as int).map_values(
                    |v: ValidatorConsensusInfo| v.voting_power,
                ),
            decreases n - i,
        {
            out.push(self.validators[i].voting_power);
            assert(self@.subrange(0, i + 1).map_values(|v: ValidatorConsensusInfo| v.voting_power)
                =~= self@.subrange(0, i as int).map_values(
                |v: ValidatorConsensusInfo| v.voting_power,
            ).push(self@[i as int].voting_power));
            i += 1;
        }
        assert(self@.subrange(0, n as int) =~= self@);
        out
    }
}

impl Clone for ValidatorVerifier {
    fn clone(&self) -> (r: Self)
        ensures
            r@ == self@,
    {
        proof {
            use_type_invariant(self);
        }
        let n = self.validators.len();
        let mut validators: Vec<ValidatorConsensusInfo> = Vec::new();
        let mut i: usize = 0;
        while i < n
            invariant
                n == self.validators.len(),
                i <= n,
                validators@ == self.validators@.subrange(0, i as int),
            decreases n - i,
        {
            validators.push(self.validators[i]);
            i += 1;
        }
        assert(validators@ =~= self.validators@);
        ValidatorVerifier {
            validators,
            total_voting_power: self.total_voting_power,
            quorum_voting_power: self.quorum_voting_power,
        }
    }
}

/// The state that an epoch fixes: its number and its validator set.
#[derive(Debug)]
pub struct EpochState {
    pub epoch: u64,
    pub verifier: ValidatorVerifier,
}

impl Clone for EpochState {
    fn clone(&self) -> (r: Self)
        ensures
            r.epoch == self.epoch,
            r.verifier@ == self.verifier@,
    {
        EpochState { epoch: self.epoch, verifier: self.verifier.clone() }
    }
}

/// Among validators with distinct addresses, the power of the validator at
/// position `i` is the one recorded there.
pub proof fn lemma_power_of_member(validators: Seq<ValidatorConsensusInfo>, i: int)
    requires
        distinct_addresses(validators),
        0 <= i < validators.len(),
    ensures
        power_of(validators, validators[i].address) == Some(validators[i].voting_power),
    decreases i,
{
    if i > 0 {
        let rest = validators.drop_first();
        assert(rest[i - 1] == validators[i]);
        lemma_power_of_member(rest, i - 1);
    }
}

/// The voting power that `signers` have together among `validators`; a
/// signer that is no validator counts for nothing.
pub open spec fn signers_power(
    validators: Seq<ValidatorConsensusInfo>,
    signers: Seq<AccountAddress>,
) -> nat
    decreases signers.len(),
{
    if signers.len() == 0 {
        0
    } else {
        signers_power(validators, signers.drop_last()) + (match power_of(
            validators,
            signers.last(),
        ) {
            Some(p) => p as nat,
            None => 0,
        })
    }
}

/// Whether no signer occurs twice in `signers`.
pub open spec fn distinct_signers(signers: Seq<AccountAddress>) -> bool {
    forall|i: int, j: int| 0 <= i < j < signers.len() ==> signers[i] != signers[j]
}

/// The voting power of those of `validators` whose address is in `members`.
pub open spec fn members_power(
    validators: Seq<ValidatorConsensusInfo>,
    members: Set<AccountAddress>,
) -> nat
    decreases validators.len(),
{
    if validators.len() == 0 {
        0
    } else {
        (if members.contains(validators.first().address) {
            validators.first().voting_power as nat
        } else {
            0
        }) + members_power(validators.drop_first(), members)
    }
}

proof fn lemma_total_power_from_first(validators: Seq<ValidatorConsensusInfo>)
    requires
        validators.len() > 0,
    ensures
        total_power(validators) == validators.first().voting_power + total_power(
            validators.drop_first(),
        ),
    decreases validators.len(),
{
    let front = validators.drop_last();
    let back = validators.drop_first();
    if validators.len() > 1 {
        lemma_total_power_from_first(front);
        assert(front.drop_first() =~= back.drop_last());
        assert(front.first() == validators.first());
        assert(back.last() == validators.last());
        assert(total_power(validators) == total_power(front) + validators.last().voting_power);
        assert(total_power(back) == total_power(back.drop_last()) + back.last().voting_power);
    } else {
        assert(total_power(front) == 0);
        assert(total_power(back) == 0);
        assert(validators.first() == validators.last());
    }
}

proof fn lemma_members_power_le_total(
    validators: Seq<ValidatorConsensusInfo>,
    members: Set<AccountAddress>,
)
    ensures
        members_power(validators, members) <= total_power(validators),
    decreases validators.len(),
{
    if validators.len() > 0 {
        lemma_total_power_from_first(validators);
        lemma_members_power_le_total(validators.drop_first(), members);
    }
}

proof fn lemma_members_power_without(
    validators: Seq<ValidatorConsensusInfo>,
    members: Set<AccountAddress>,
    a: AccountAddress,
)
    requires
        !is_validator(validators, a),
    ensures
        members_power(validators, members.insert(a)) == members_power(validators, members),
        power_of(validators, a).is_none(),
    decreases validators.len(),
{
    if validators.len() > 0 {
        let rest = validators.drop_first();
        assert(validators[0].address != a);
        assert forall|i: int| 0 <= i < rest.len() implies rest[i].address != a by {
            assert(rest[i] == validators[i + 1]);
        }
        lemma_members_power_without(rest, members, a);
    }
}

proof fn lemma_members_power_with(
    validators: Seq<ValidatorConsensusInfo>,
    members: Set<AccountAddress>,
    a: AccountAddress,
)
    requires
        distinct_addresses(validators),
        !members.contains(a),
    ensures
        members_power(validators, members.insert(a)) == members_power(validators, members) + (
        match power_of(validators, a) {
            Some(p) => p as nat,
            None => 0,
        }),
    decreases validators.len(),
{
    if validators.len() > 0 {
        let rest = validators.drop_first();
        assert forall|i: int, j: int| 0 <= i < j < rest.len() implies rest[i].address
            != rest[j].address by {
            assert(rest[i] == validators[i + 1] && rest[j] == validators[j + 1]);
        }
        if validators.first().address == a {
            assert forall|i: int| 0 <= i < rest.len() implies rest[i].address != a by {
                assert(rest[i] == validators[i + 1]);
            }
            lemma_members_power_without(rest, members, a);
        } else {
            lemma_members_power_with(rest, members, a);
        }
    }
}

proof fn lemma_signers_power_is_members_power(
    validators: Seq<ValidatorConsensusInfo>,
    signers: Seq<AccountAddress>,
)
    requires
        distinct_addresses(validators),
        distinct_signers(signers),
    ensures
        signers_power(validators, signers) == members_power(validators, signers.to_set()),
    decreases signers.len(),
{
    if signers.len() == 0 {
        assert(signers.to_set() =~= Set::<AccountAddress>::empty());
        lemma_members_power_of_none(validators);
    } else {
        let init = signers.drop_last();
        lemma_signers_power_is_members_power(validators, init);
        assert(!init.to_set().contains(signers.last())) by {
            if init.contains(signers.last()) {
                let k = choose|k: int| 0 <= k < init.len() && init[k] == signers.last();
                assert(signers[k] == signers[signers.len() - 1]);
            }
        }
        assert(signers.to_set() =~= init.to_set().insert(signers.last())) by {
            assert forall|a: AccountAddress| signers.to_set().contains(a) == init.to_set().insert(
                signers.last(),
            ).contains(a) by {
                if signers.contains(a) {
                    let k = choose|k: int| 0 <= k < signers.len() && signers[k] == a;
                    if k < init.len() {
                        assert(init[k] == a);
                    }
                }
                if init.contains(a) {
                    let k = choose|k: int| 0 <= k < init.len() && init[k] == a;
                    assert(signers[k] == a);
                }
                if a == signers.last() {
                    assert(signers[signers.len() - 1] == a);
                }
            }
        }
        lemma_members_power_with(validators, init.to_set(), signers.last());
    }
}

proof fn lemma_members_power_of_none(validators: Seq<ValidatorConsensusInfo>)
    ensures
        members_power(validators, Set::<AccountAddress>::empty()) == 0,
    decreases validators.len(),
{
    if validators.len() > 0 {
        lemma_members_power_of_none(validators.drop_first());
    }
}

proof fn lemma_members_power_of_union(
    validators: Seq<ValidatorConsensusInfo>,
    a: Set<AccountAddress>,
    b: Set<AccountAddress>,
)
    requires
        a.disjoint(b),
    ensures
        members_power(validators, a.union(b)) == members_power(validators, a) + members_power(
            validators,
            b,
        ),
    decreases validators.len(),
{
    if validators.len() > 0 {
        lemma_members_power_of_union(validators.drop_first(), a, b);
    }
}

/// Validators that are counted once each have at most the voting power of
/// all validators.
pub proof fn lemma_signers_power_le_total(
    validators: Seq<ValidatorConsensusInfo>,
    signers: Seq<AccountAddress>,
)
    requires
        distinct_addresses(validators),
        distinct_signers(signers),
    ensures
        signers_power(validators, signers) <= total_power(validators),
{
    lemma_signers_power_is_members_power(validators, signers);
    lemma_members_power_le_total(validators, signers.to_set());
}

/// Any two quorums share a validator: if the signers `a` and the signers `b`,
/// each counted once, both reach the quorum of `validators`, then some
/// address is among both.
pub proof fn lemma_quorums_intersect(
    validators: Seq<ValidatorConsensusInfo>,
    a: Seq<AccountAddress>,
    b: Seq<AccountAddress>,
)
    requires
        distinct_addresses(validators),
        validators.len() > 0,
        distinct_signers(a),
        distinct_signers(b),
        signers_power(validators, a) >= quorum_power(validators),
        signers_power(validators, b) >= quorum_power(validators),
    ensures
        exists|i: int, j: int| 0 <= i < a.len() && 0 <= j < b.len() && a[i] == b[j],
{
    if !(exists|i: int, j: int| 0 <= i < a.len() && 0 <= j < b.len() && a[i] == b[j]) {
        let sa = a.to_set();
        let sb = b.to_set();
        assert(sa.disjoint(sb)) by {
            assert forall|x: AccountAddress| !(sa.contains(x) && sb.contains(x)) by {
                if a.contains(x) && b.contains(x) {
                    let i = choose|i: int| 0 <= i < a.len() && a[i] == x;
                    let j = choose|j: int| 0 <= j < b.len() && b[j] == x;
                    assert(a[i] == b[j]);
                }
            }
        }
        lemma_signers_power_is_members_power(validators, a);
        lemma_signers_power_is_members_power(validators, b);
        lemma_members_power_of_union(validators, sa, sb);
        lemma_members_power_le_total(validators, sa.union(sb));
        let total = total_power(validators);
        assert(2 * (total * 2 / 3 + 1) > total);
    }
}

proof fn lemma_members_power_inclusion_exclusion(
    validators: Seq<ValidatorConsensusInfo>,
    a: Set<AccountAddress>,
    b: Set<AccountAddress>,
)
    ensures
        members_power(validators, a) + members_power(validators, b) == members_power(
            validators,
            a.union(b),
        ) + members_power(validators, a.intersect(b)),
    decreases validators.len(),
{
    if validators.len() > 0 {
        lemma_members_power_inclusion_exclusion(validators.drop_first(), a, b);
    }
}

proof fn lemma_members_power_of_subset(
    validators: Seq<ValidatorConsensusInfo>,
    a: Set<AccountAddress>,
    b: Set<AccountAddress>,
)
    requires
        forall|x: AccountAddress| is_validator(validators, x) && a.contains(x) ==> b.contains(x),
    ensures
        members_power(validators, a) <= members_power(validators, b),
    decreases validators.len(),
{
    if validators.len() > 0 {
        let rest = validators.drop_first();
        assert forall|x: AccountAddress| is_validator(rest, x) && a.contains(x) implies b.contains(
            x,
        ) by {
            let k = choose|k: int| 0 <= k < rest.len() && rest[k].address == x;
            assert(validators[k + 1].address == x);
        }
        lemma_members_power_of_subset(rest, a, b);
        assert(validators[0].address == validators.first().address);
    }
}

/// Any two quorums share validators with more than a third of all voting
/// power.
pub proof fn lemma_quorums_share_a_third(
    validators: Seq<ValidatorConsensusInfo>,
    a: Seq<AccountAddress>,
    b: Seq<AccountAddress>,
)
    requires
        distinct_addresses(validators),
        validators.len() > 0,
        distinct_signers(a),
        distinct_signers(b),
        signers_power(validators, a) >= quorum_power(validators),
        signers_power(validators, b) >= quorum_power(validators),
    ensures
        3 * members_power(validators, a.to_set().intersect(b.to_set())) > total_power(validators),
{
    let sa = a.to_set();
    let sb = b.to_set();
    lemma_signers_power_is_members_power(validators, a);
    lemma_signers_power_is_members_power(validators, b);
    lemma_members_power_inclusion_exclusion(validators, sa, sb);
    lemma_members_power_le_total(validators, sa.union(sb));
    let total = total_power(validators);
    assert(3 * (2 * (total * 2 / 3 + 1) - total) > total);
}

/// No two blocks are certified in one round. Let `votes` hold the block that
/// each validator voted for in the round, let the validators in `faulty`,
/// with at most a third of the voting power, sign what they like, and let
/// every other validator sign only the block that it voted for. If a quorum
/// signed `block_a` and a quorum signed `block_b`, the two are one block.
pub proof fn lemma_one_certified_block_per_round<B>(
    validators: Seq<ValidatorConsensusInfo>,
    faulty: Set<AccountAddress>,
    votes: Map<AccountAddress, B>,
    block_a: B,
    signers_a: Seq<AccountAddress>,
    block_b: B,
    signers_b: Seq<AccountAddress>,
)
    requires
        distinct_addresses(validators),
        validators.len() > 0,
        3 * members_power(validators, faulty) <= total_power(validators),
        distinct_signers(signers_a),
        distinct_signers(signers_b),
        signers_power(validators, signers_a) >= quorum_power(validators),
        signers_power(validators, signers_b) >= quorum_power(validators),
        forall|i: int|
            0 <= i < signers_a.len() && !faulty.contains(signers_a[i]) ==> votes.contains_key(
                signers_a[i],
            ) && votes[signers_a[i]] == block_a,
        forall|i: int|
            0 <= i < signers_b.len() && !faulty.contains(signers_b[i]) ==> votes.contains_key(
                signers_b[i],
            ) && votes[signers_b[i]] == block_b,
    ensures
        block_a == block_b,
{
    let both = signers_a.to_set().intersect(signers_b.to_set());
    lemma_quorums_share_a_third(validators, signers_a, signers_b);
    if forall|x: AccountAddress| is_validator(validators, x) && both.contains(x) ==> faulty.contains(x) {
        lemma_members_power_of_subset(validators, both, faulty);
    } else {
        let x = choose|x: AccountAddress|
            is_validator(validators, x) && both.contains(x) && !faulty.contains(x);
        let i = choose|i: int| 0 <= i < signers_a.len() && signers_a[i] == x;
        let j = choose|j: int| 0 <= j < signers_b.len() && signers_b[j] == x;
        assert(votes[signers_a[i]] == block_a);
        assert(votes[signers_b[j]] == block_b);
    }
}

} // verus!
