//! The data that the quorum store passes around.

use crate::account_address::PeerId;
use crate::logical_time::LogicalTime;
use vstd::prelude::*;

verus! {

/// The number of a batch, counted up by the validator that creates it.
pub type BatchId = u64;

/// A 32-byte hash value; batches are named by the hash of their content.
#[derive(Clone, Copy, Debug, Eq, PartialOrd, Ord, Hash)]
pub struct HashValue {
    hash: [u8; 32],
}

impl View for HashValue {
    type V = Seq<u8>;

    closed spec fn view(&self) -> Seq<u8> {
        self.hash@
    }
}

impl PartialEq for HashValue {
    fn eq(&self, other: &Self) -> (r: bool) {
        let mut i: usize = 0;
        while i < 32
            invariant
                i <= 32,
                forall|j: int| 0 <= j < i ==> self.hash@[j] == other.hash@[j],
            decreases 32 - i,
        {
            if self.hash[i] != other.hash[i] {
                return false;
            }
            i += 1;
        }
        proof {
            assert(self.hash@ =~= other.hash@);
            vstd::array::axiom_array_ext_equal(self.hash, other.hash);
        }
        true
    }
}

impl vstd::std_specs::cmp::PartialEqSpecImpl for HashValue {
    open spec fn obeys_eq_spec() -> bool {
        true
    }

    open spec fn eq_spec(&self, other: &Self) -> bool {
        *self == *other
    }
}

impl HashValue {
    /// The hash value made of the given bytes.
    pub fn new(hash: [u8; 32]) -> (h: Self)
        ensures
            h@ == hash@,
    {
        HashValue { hash }
    }

    /// The bytes of the hash value.
    pub fn to_vec(&self) -> (v: Vec<u8>)
        ensures
            v@ == self@,
    {
        let mut v: Vec<u8> = Vec::new();
        let mut i: usize = 0;
        while i < 32
            invariant
                i <= 32,
                v@ == self.hash@.subrange(0, i as int),
            decreases 32 - i,
        {
            v.push(self.hash[i]);
            i += 1;
        }
        assert(self.hash@.subrange(0, 32) =~= self.hash@);
        v
    }
}

/// A transaction in its serialized form.
#[derive(Debug)]
pub struct SerializedTransaction {
    bytes: Vec<u8>,
}

impl View for SerializedTransaction {
    type V = Seq<u8>;

    closed spec fn view(&self) -> Seq<u8> {
        self.bytes@
    }
}

impl Clone for SerializedTransaction {
    fn clone(&self) -> (r: Self)
        ensures
            r@ == self@,
    {
        SerializedTransaction { bytes: self.bytes.clone() }
    }
}

impl SerializedTransaction {
    pub fn from_bytes(bytes: Vec<u8>) -> (t: Self)
        ensures
            t@ == bytes@,
    {
        SerializedTransaction { bytes }
    }

    /// The number of bytes of the transaction.
    pub fn len(&self) -> (n: usize)
        ensures
            n == self@.len(),
    {
        self.bytes.len()
    }

    /// The bytes of the transaction.
    pub fn bytes(&self) -> (b: &Vec<u8>)
        ensures
            b@ == self@,
    {
        &self.bytes
    }
}

/// The transactions of `payload` as byte strings.
pub open spec fn payload_view(payload: Seq<SerializedTransaction>) -> Seq<Seq<u8>> {
    payload.map_values(|t: SerializedTransaction| t@)
}

/// The number of bytes in all of `payload`.
pub open spec fn total_bytes(payload: Seq<Seq<u8>>) -> nat
    decreases payload.len(),
{
    if payload.len() == 0 {
        0
    } else {
        total_bytes(payload.drop_last()) + payload.last().len()
    }
}

/// The bytes of all of `payload`, one transaction after the other.
pub open spec fn concat_bytes(payload: Seq<Seq<u8>>) -> Seq<u8>
    decreases payload.len(),
{
    if payload.len() == 0 {
        Seq::empty()
    } else {
        concat_bytes(payload.drop_last()) + payload.last()
    }
}

/// Byte counts add up over concatenation.
pub proof fn lemma_total_bytes_add(a: Seq<Seq<u8>>, b: Seq<Seq<u8>>)
    ensures
        total_bytes(a + b) == total_bytes(a) + total_bytes(b),
    decreases b.len(),
{
    if b.len() == 0 {
        assert(a + b =~= a);
    } else {
        assert((a + b).drop_last() =~= a + b.drop_last());
        lemma_total_bytes_add(a, b.drop_last());
    }
}

/// The bytes of two payloads in a row are the bytes of the first followed by
/// those of the second.
pub proof fn lemma_concat_bytes_add(a: Seq<Seq<u8>>, b: Seq<Seq<u8>>)
    ensures
        concat_bytes(a + b) == concat_bytes(a) + concat_bytes(b),
    decreases b.len(),
{
    if b.len() == 0 {
        assert(a + b =~= a);
        assert(concat_bytes(a) + concat_bytes(b) =~= concat_bytes(a));
    } else {
        assert((a + b).drop_last() =~= a + b.drop_last());
        lemma_concat_bytes_add(a, b.drop_last());
        assert(concat_bytes(a + b) =~= concat_bytes(a) + concat_bytes(b));
    }
}

/// The byte count of a payload is the length of its bytes.
pub proof fn lemma_total_is_concat_len(payload: Seq<Seq<u8>>)
    ensures
        total_bytes(payload) == concat_bytes(payload).len(),
    decreases payload.len(),
{
    if payload.len() > 0 {
        lemma_total_is_concat_len(payload.drop_last());
    }
}

/// One piece of a batch on the wire. The last fragment of a batch carries the
/// batch's expiration; the others carry none.
#[derive(Debug)]
pub struct Fragment {
    pub epoch: u64,
    pub batch_id: BatchId,
    pub fragment_id: usize,
    pub payload: Vec<SerializedTransaction>,
    pub maybe_expiration: Option<LogicalTime>,
    pub source: PeerId,
}

impl Fragment {
    pub fn new(
        epoch: u64,
        batch_id: BatchId,
        fragment_id: usize,
        payload: Vec<SerializedTransaction>,
        maybe_expiration: Option<LogicalTime>,
        source: PeerId,
    ) -> (f: Self)
        ensures
            f == (Fragment { epoch, batch_id, fragment_id, payload, maybe_expiration, source }),
    {
        Fragment { epoch, batch_id, fragment_id, payload, maybe_expiration, source }
    }

    pub fn epoch(&self) -> (e: u64)
        ensures
            e == self.epoch,
    {
        self.epoch
    }

    pub fn batch_id(&self) -> (id: BatchId)
        ensures
            id == self.batch_id,
    {
        self.batch_id
    }

    pub fn fragment_id(&self) -> (id: usize)
        ensures
            id == self.fragment_id,
    {
        self.fragment_id
    }

    pub fn source(&self) -> (p: PeerId)
        ensures
            p == self.source,
    {
        self.source
    }

    /// Whether this fragment ends its batch.
    pub fn is_last(&self) -> (b: bool)
        ensures
            b == self.maybe_expiration.is_some(),
    {
        self.maybe_expiration.is_some()
    }
}

/// What a validator signs to say that it stores a batch: the batch's digest,
/// when it expires, and how much it holds.
#[derive(Clone, Copy, Debug, PartialEq, Eq)]
pub struct SignedDigestInfo {
    pub digest: HashValue,
    pub expiration: LogicalTime,
    pub num_txns: u64,
    pub num_bytes: u64,
}

impl SignedDigestInfo {
    pub fn new(digest: HashValue, expiration: LogicalTime, num_txns: u64, num_bytes: u64) -> (i:
        Self)
        ensures
            i == (SignedDigestInfo { digest, expiration, num_txns, num_bytes }),
    {
        SignedDigestInfo { digest, expiration, num_txns, num_bytes }
    }
}

/// A request to store a batch.
#[derive(Debug)]
pub struct PersistRequest {
    pub author: PeerId,
    pub payload: Vec<SerializedTransaction>,
    pub digest: HashValue,
    pub num_bytes: usize,
    pub expiration: LogicalTime,
}

impl PersistRequest {
    pub fn new(
        author: PeerId,
        payload: Vec<SerializedTransaction>,
        digest: HashValue,
        num_bytes: usize,
        expiration: LogicalTime,
    ) -> (r: Self)
        ensures
            r == (PersistRequest { author, payload, digest, num_bytes, expiration }),
    {
        PersistRequest { author, payload, digest, num_bytes, expiration }
    }
}

/// Copies a payload.
pub fn clone_payload(payload: &Vec<SerializedTransaction>) -> (r: Vec<SerializedTransaction>)
    ensures
        payload_view(r@) == payload_view(payload@),
{
    let mut out: Vec<SerializedTransaction> = Vec::new();
    let mut i: usize = 0;
    while i < payload.len()
        invariant
            i <= payload.len(),
            out@.len() == i,
            forall|j: int| 0 <= j < i ==> out@[j]@ == payload@[j]@,
        decreases payload.len() - i,
    {
        out.push(payload[i].clone());
        i += 1;
    }
    assert(payload_view(out@) =~= payload_view(payload@));
    out
}

} // verus!
