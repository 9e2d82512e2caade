//! Collects, for each batch of this validator, the signatures of the
//! validators that store it, until they make a quorum.

use crate::account_address::PeerId;
use crate::quorum_store::quorum_store::QuorumStoreError;
use crate::quorum_store::types::{BatchId, HashValue, SignedDigestInfo};
use crate::validator_verifier::{
    distinct_signers, is_validator, quorum_power, signers_power, ValidatorConsensusInfo,
    ValidatorVerifier,
};
use vstd::prelude::*;

verus! {

/// A validator's word that it stores a batch. The signature over `info` has
/// been checked by whoever hands this in.
#[derive(Clone, Copy, Debug)]
pub struct SignedDigest {
    pub epoch: u64,
    pub peer_id: PeerId,
    pub info: SignedDigestInfo,
}

/// A proof that a batch is stored: what was signed, and who signed it.
#[derive(Debug)]
pub struct ProofOfStore {
    pub info: SignedDigestInfo,
    pub signers: Vec<PeerId>,
}

/// What the proof builder is asked to do.
#[derive(Debug)]
pub enum ProofBuilderCommand {
    /// Start to collect signatures for this batch.
    InitProof(SignedDigestInfo, BatchId),
    /// Count this signature.
    AppendSignature(SignedDigest),
    /// Stop.
    Shutdown,
}

/// Why a signature was not counted.
#[derive(Clone, Copy, Debug, PartialEq, Eq, Structural)]
pub enum SignedDigestError {
    /// No collection is open for the digest.
    WrongDigest,
    /// The signer has signed this digest before.
    DuplicatedSignature,
    /// The signer is no validator of the epoch.
    UnknownAuthor,
}

/// Whether `signers` prove that a batch is stored: they are validators, no
/// one is counted twice, and their voting power makes a quorum.
pub open spec fn proves_storage(validators: Seq<ValidatorConsensusInfo>, signers: Seq<PeerId>) -> bool {
    &&& distinct_signers(signers)
    &&& forall|i: int| 0 <= i < signers.len() ==> is_validator(validators, #[trigger] signers[i])
    &&& signers_power(validators, signers) >= quorum_power(validators)
}

/// An open collection of signatures, as plain values.
pub struct OpenProof {
    pub info: SignedDigestInfo,
    pub batch_id: BatchId,
    pub signers: Seq<PeerId>,
}

/// The position of the open collection for `digest` in `open`, if there is one.
pub open spec fn position_of(open: Seq<OpenProof>, digest: HashValue) -> Option<int> {
    if exists|i: int| 0 <= i < open.len() && open[i].info.digest == digest {
        Some(choose|i: int| 0 <= i < open.len() && open[i].info.digest == digest)
    } else {
        None
    }
}

/// Whether no digest has two collections in `open`.
pub open spec fn distinct_digests(open: Seq<OpenProof>) -> bool {
    forall|i: int, j: int| 0 <= i < j < open.len() ==> open[i].info.digest != open[j].info.digest
}

/// Where no digest has two collections, the collection for a digest is found
/// at the one position that holds it.
pub proof fn lemma_position_of(open: Seq<OpenProof>, i: int)
    requires
        distinct_digests(open),
        0 <= i < open.len(),
    ensures
        position_of(open, open[i].info.digest) == Some(i),
{
    let k = choose|k: int| 0 <= k < open.len() && open[k].info.digest == open[i].info.digest;
    assert(k == i);
}

#[derive(Debug)]
struct IncrementalProofState {
    info: SignedDigestInfo,
    batch_id: BatchId,
    signers: Vec<PeerId>,
    power: u128,
}

impl View for IncrementalProofState {
    type V = OpenProof;

    closed spec fn view(&self) -> OpenProof {
        OpenProof { info: self.info, batch_id: self.batch_id, signers: self.signers@ }
    }
}

/// Builds proofs of storage for the batches of one validator in one epoch.
#[derive(Debug)]
pub struct ProofBuilder {
    peer_id: PeerId,
    proof_timeout_ms: usize,
    verifier: ValidatorVerifier,
    open: Vec<IncrementalProofState>,
}

impl View for ProofBuilder {
    type V = Seq<OpenProof>;

    /// The open collections, in the order in which they were started.
    closed spec fn view(&self) -> Seq<OpenProof> {
        self.open@.map_values(|s: IncrementalProofState| s@)
    }
}

/// What a counted signature led to.
#[derive(Debug)]
pub enum SignatureOutcome {
    /// The signature was counted; the quorum is not reached yet.
    Pending,
    /// The signature completed the proof for this batch.
    Proved(BatchId, ProofOfStore),
}

impl ProofBuilder {
    /// The validators whose signatures count.
    pub closed spec fn validators(&self) -> Seq<ValidatorConsensusInfo> {
        self.verifier@
    }

    /// The time after which a collection is given up, in milliseconds.
    pub closed spec fn proof_timeout_ms(&self) -> usize {
        self.proof_timeout_ms
    }

    /// What holds of every proof builder: no digest has two collections, and
    /// every collection holds distinct validators that do not make a quorum
    /// yet.
    pub closed spec fn wf(&self) -> bool {
        &&& forall|i: int, j: int|
            0 <= i < j < self.open@.len() ==> self.open@[i].info.digest
                != self.open@[j].info.digest
        &&& forall|i: int|
            0 <= i < self.open@.len() ==> {
                let state = #[trigger] self.open@[i];
                &&& distinct_signers(state.signers@)
                &&& forall|k: int|
                    0 <= k < state.signers@.len() ==> is_validator(
                        self.verifier@,
                        #[trigger] state.signers@[k],
                    )
                &&& state.power == signers_power(self.verifier@, state.signers@)
                &&& state.power <= state.signers@.len() * 0xffff_ffff_ffff_ffff
                &&& state.power < quorum_power(self.verifier@) || state.signers@.len() == 0
            }
    }

    /// A proof builder holds at most one collection for each digest.
    pub proof fn lemma_distinct_digests(&self)
        requires
            self.wf(),
        ensures
            distinct_digests(self@),
    {
        assert forall|i: int, j: int| 0 <= i < j < self@.len() implies self@[i].info.digest
            != self@[j].info.digest by {
            assert(self@[i] == self.open@[i]@);
            assert(self@[j] == self.open@[j]@);
        }
    }

    /// A proof builder for the batches of `peer_id` among the validators of
    /// `verifier`, with no collection open.
    pub fn new(proof_timeout_ms: usize, peer_id: PeerId, verifier: ValidatorVerifier) -> (b: Self)
        ensures
            b.wf(),
            b@ == Seq::<OpenProof>::empty(),
            b.validators() == verifier@,
            b.proof_timeout_ms() == proof_timeout_ms,
    {
        let b = ProofBuilder { peer_id, proof_timeout_ms, verifier, open: Vec::new() };
        assert(b@ =~= Seq::<OpenProof>::empty());
        b
    }

    fn find(&self, digest: &HashValue) -> (r: Option<usize>)
        requires
            self.wf(),
        ensures
            match r {
                Some(i) => i < self@.len() && self@[i as int].info.digest == *digest
                    && position_of(self@, *digest) == Some(i as int),
                None => position_of(self@, *digest).is_none(),
            },
    {
        let mut i: usize = 0;
        while i < self.open.len()
            invariant
                self.wf(),
                i <= self.open.len(),
                forall|j: int| 0 <= j < i ==> self.open@[j].info.digest != *digest,
            decreases self.open.len() - i,
        {
            if self.open[i].info.digest == *digest {
                proof {
                    assert(self@[i as int] == self.open@[i as int]@);
                    let k = choose|k: int| 0 <= k < self@.len() && self@[k].info.digest == *digest;
                    assert(self@[k] == self.open@[k]@);
                    assert(k == i);
                }
                return Some(i);
            }
            i += 1;
        }
        proof {
            assert forall|k: int| 0 <= k < self@.len() implies self@[k].info.digest != *digest by {
                assert(self.open@[k].info.digest != *digest);
            }
        }
        None
    }

    /// Starts to collect signatures for the batch `batch_id` with `info`. A
    /// collection that was open for the same digest is given up for it.
    pub fn init_proof(&mut self, info: SignedDigestInfo, batch_id: BatchId)
        requires
            old(self).wf(),
        ensures
            final(self).wf(),
            final(self).validators() == old(self).validators(),
            final(self).proof_timeout_ms() == old(self).proof_timeout_ms(),
            final(self)@ == (match position_of(old(self)@, info.digest) {
                Some(i) => old(self)@.remove(i),
                None => old(self)@,
            }).push(OpenProof { info, batch_id, signers: Seq::empty() }),
            position_of(final(self)@, info.digest) == Some(final(self)@.len() - 1),
    {
        match self.find(&info.digest) {
            Some(i) => {
                self.open.remove(i);
            },
            None => {},
        }
        let ghost kept = self.open@;
        self.open.push(IncrementalProofState { info, batch_id, signers: Vec::new(), power: 0 });
        proof {
            assert(self@ =~= (match position_of(old(self)@, info.digest) {
                Some(i) => old(self)@.remove(i),
                None => old(self)@,
            }).push(OpenProof { info, batch_id, signers: Seq::empty() }));
            assert forall|i: int, j: int| 0 <= i < j < self.open@.len() implies self.open@[i].info.digest
                != self.open@[j].info.digest by {
                if j == kept.len() {
                    match position_of(old(self)@, info.digest) {
                        Some(p) => {
                            let k = if i < p {
                                i
                            } else {
                                i + 1
                            };
                            assert(kept[i] == old(self).open@[k]);
                            assert(old(self)@[p].info.digest == info.digest);
                            assert(old(self).open@[p].info.digest == info.digest);
                        },
                        None => {
                            assert(old(self)@[i].info.digest != info.digest);
                        },
                    }
                }
            }
            assert forall|i: int, j: int| 0 <= i < j < self@.len() implies self@[i].info.digest
                != self@[j].info.digest by {
                assert(self@[i] == self.open@[i]@);
                assert(self@[j] == self.open@[j]@);
            }
            lemma_position_of(self@, self@.len() - 1);
        }
    }

    /// Counts the signature of a validator for a batch. The signature is
    /// rejected if no collection is open for its digest, if its signer has
    /// signed the digest before, or if its signer is no validator. Once the
    /// signers' voting power makes a quorum the proof comes back and the
    /// collection is closed.
    pub fn add_signature(&mut self, signed_digest: &SignedDigest) -> (r: Result<
        SignatureOutcome,
        SignedDigestError,
    >)
        requires
            old(self).wf(),
        ensures
            final(self).wf(),
            final(self).validators() == old(self).validators(),
            final(self).proof_timeout_ms() == old(self).proof_timeout_ms(),
            match position_of(old(self)@, signed_digest.info.digest) {
                None => r matches Err(SignedDigestError::WrongDigest) && final(self)@ == old(self)@,
                Some(i) => {
                    let before = old(self)@[i];
                    let signers = before.signers.push(signed_digest.peer_id);
                    if before.signers.contains(signed_digest.peer_id) {
                        r matches Err(SignedDigestError::DuplicatedSignature) && final(self)@
                            == old(self)@
                    } else if !is_validator(old(self).validators(), signed_digest.peer_id) {
                        r matches Err(SignedDigestError::UnknownAuthor) && final(self)@ == old(self)@
                    } else if signers_power(old(self).validators(), signers) >= quorum_power(
                        old(self).validators(),
                    ) {
                        &&& r matches Ok(SignatureOutcome::Proved(batch_id, proof))
                        &&& batch_id == before.batch_id
                        &&& proof.info == before.info
                        &&& proof.signers@ == signers
                        &&& proves_storage(old(self).validators(), proof.signers@)
                        &&& final(self)@ == old(self)@.remove(i)
                    } else {
                        &&& r matches Ok(SignatureOutcome::Pending)
                        &&& final(self)@ == old(self)@.update(
                            i,
                            OpenProof { info: before.info, batch_id: before.batch_id, signers },
                        )
                    }
                },
            },
    {
        let i = match self.find(&signed_digest.info.digest) {
            Some(i) => i,
            None => { return Err(SignedDigestError::WrongDigest); },
        };
        let mut k: usize = 0;
        while k < self.open[i].signers.len()
            invariant
                *self == *old(self),
                self.wf(),
                position_of(self@, signed_digest.info.digest) == Some(i as int),
                i < self.open.len(),
                k <= self.open@[i as int].signers@.len(),
                forall|j: int|
                    0 <= j < k ==> self.open@[i as int].signers@[j] != signed_digest.peer_id,
            decreases self.open@[i as int].signers@.len() - k,
        {
            if self.open[i].signers[k] == signed_digest.peer_id {
                proof {
                    assert(self@[i as int] == self.open@[i as int]@);
                    assert(self@[i as int].signers[k as int] == signed_digest.peer_id);
                }
                return Err(SignedDigestError::DuplicatedSignature);
            }
            k += 1;
        }
        proof {
            assert(self@[i as int] == self.open@[i as int]@);
        }
        let power = match self.verifier.get_voting_power(&signed_digest.peer_id) {
            Some(p) => p,
            None => { return Err(SignedDigestError::UnknownAuthor); },
        };
        let quorum = self.verifier.quorum_voting_power();
        let mut state = self.open.remove(i);
        let ghost rest = self.open@;
        let count = state.signers.len();
        proof {
            assert(state.signers@.push(signed_digest.peer_id).drop_last() =~= state.signers@);
            assert(state.power + power <= (state.signers@.len() + 1) * 0xffff_ffff_ffff_ffff)
                by (nonlinear_arith)
                requires
                    state.power <= state.signers@.len() * 0xffff_ffff_ffff_ffff,
                    power <= 0xffff_ffff_ffff_ffff,
            ;
            assert((count + 1) * 0xffff_ffff_ffff_ffff <= 0x1_0000_0000_0000_0000
                * 0xffff_ffff_ffff_ffff) by (nonlinear_arith)
                requires
                    count + 1 <= 0x1_0000_0000_0000_0000,
            ;
            assert forall|a: int, b: int| 0 <= a < b < rest.len() implies rest[a].info.digest
                != rest[b].info.digest by {
                let ka = if a < i { a } else { a + 1 };
                let kb = if b < i { b } else { b + 1 };
                assert(rest[a] == old(self).open@[ka]);
                assert(rest[b] == old(self).open@[kb]);
            }
            assert forall|a: int| 0 <= a < rest.len() implies rest[a] == old(self).open@[if a < i {
                a
            } else {
                a + 1
            }] by {}
        }
        state.signers.push(signed_digest.peer_id);
        state.power = state.power + power as u128;
        if state.power >= quorum {
            proof {
                assert(self@ =~= old(self)@.remove(i as int));
            }
            Ok(
                SignatureOutcome::Proved(
                    state.batch_id,
                    ProofOfStore { info: state.info, signers: state.signers },
                ),
            )
        } else {
            let ghost updated = state@;
            self.open.insert(i, state);
            proof {
                assert(self@ =~= old(self)@.update(i as int, updated));
                assert forall|a: int, b: int| 0 <= a < b < self.open@.len() implies self.open@[a].info.digest
                    != self.open@[b].info.digest by {
                    assert(self.open@[a].info.digest == old(self).open@[a].info.digest);
                    assert(self.open@[b].info.digest == old(self).open@[b].info.digest);
                }
                assert forall|a: int| 0 <= a < self.open@.len() && a != i implies self.open@[a]
                    == old(self).open@[a] by {}
            }
            Ok(SignatureOutcome::Pending)
        }
    }

    /// Gives up the collection for `digest` because its time ran out, and
    /// says for which batch no proof will come. Nothing happens if the
    /// collection is closed already.
    pub fn timeout(&mut self, digest: &HashValue) -> (r: Option<QuorumStoreError>)
        requires
            old(self).wf(),
        ensures
            final(self).wf(),
            final(self).validators() == old(self).validators(),
            final(self).proof_timeout_ms() == old(self).proof_timeout_ms(),
            match position_of(old(self)@, *digest) {
                Some(i) => r == Some(QuorumStoreError::Timeout(old(self)@[i].batch_id)) && final(self)@ == old(self)@.remove(i),
                None => r.is_none() && final(self)@ == old(self)@,
            },
    {
        match self.find(digest) {
            Some(i) => {
                let state = self.open.remove(i);
                proof {
                    assert(self@ =~= old(self)@.remove(i as int));
                    assert forall|a: int| 0 <= a < self.open@.len() implies self.open@[a] == old(self).open@[if a < i {
                        a
                    } else {
                        a + 1
                    }] by {}
                }
                Some(QuorumStoreError::Timeout(state.batch_id))
            },
            None => None,
        }
    }
}

} // verus!
