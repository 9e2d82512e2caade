//! Ingest of pushed metrics: the labels that are attached to what a node
//! pushes, and whether a push that was relayed to several backends counts as
//! delivered.

use crate::account_address::PeerId;
use vstd::prelude::*;

verus! {

/// `String::push`: appends one character to the end of the string.
pub assume_specification[ String::push ](s: &mut String, ch: char)
    ensures
        final(s)@ == old(s)@.push(ch),
;

/// `String::push_str`: appends a string slice to the end of the string.
pub assume_specification[ String::push_str ](s: &mut String, string: &str)
    ensures
        final(s)@ == old(s)@ + string@,
;

/// `reqwest::StatusCode::from_u16` followed by `StatusCode::is_success`: a
/// number is the code of a successful response exactly if it lies in
/// 200..=299. Numbers that are no status code at all, those outside
/// 100..=999, are none of a success.
#[verifier::external_body]
fn status_is_success(code: u16) -> (b: bool)
    ensures
        b == (200 <= code < 300),
{
    match reqwest::StatusCode::from_u16(code) {
        Ok(status) => status.is_success(),
        Err(_) => false,
    }
}

/// The number of a chain.
#[derive(Clone, Copy, Debug, PartialEq, Eq, Structural)]
pub struct ChainId {
    id: u8,
}

impl ChainId {
    pub fn new(id: u8) -> (c: Self)
        ensures
            c.id() == id,
    {
        ChainId { id }
    }

    #[verifier::when_used_as_spec(spec_id)]
    pub fn id(&self) -> (id: u8)
        ensures
            id == self.id(),
    {
        self.id
    }

    pub closed spec fn spec_id(&self) -> u8 {
        self.id
    }
}

/// The role in which a node takes part in the network.
#[derive(Clone, Copy, Debug, PartialEq, Eq, Structural)]
pub enum NodeType {
    Validator,
    ValidatorFullNode,
    PublicFullNode,
}

/// What a node has proved of itself when it pushes metrics.
#[derive(Clone, Copy, Debug)]
pub struct Claims {
    pub chain_id: ChainId,
    pub peer_id: PeerId,
    pub node_type: NodeType,
    pub epoch: u64,
    pub exp: usize,
    pub iat: usize,
}

/// The decimal digit or lower-case hexadecimal digit of a number below 16.
pub open spec fn digit_char(d: int) -> char {
    if d == 0 {
        '0'
    } else if d == 1 {
        '1'
    } else if d == 2 {
        '2'
    } else if d == 3 {
        '3'
    } else if d == 4 {
        '4'
    } else if d == 5 {
        '5'
    } else if d == 6 {
        '6'
    } else if d == 7 {
        '7'
    } else if d == 8 {
        '8'
    } else if d == 9 {
        '9'
    } else if d == 10 {
        'a'
    } else if d == 11 {
        'b'
    } else if d == 12 {
        'c'
    } else if d == 13 {
        'd'
    } else if d == 14 {
        'e'
    } else {
        'f'
    }
}

/// The decimal numeral of `n`, without leading zeros.
pub open spec fn decimal(n: nat) -> Seq<char>
    decreases n,
{
    if n < 10 {
        seq![digit_char(n as int)]
    } else {
        decimal(n / 10).push(digit_char((n % 10) as int))
    }
}

/// The name under which a role is reported.
pub open spec fn node_type_name(node_type: NodeType) -> Seq<char> {
    match node_type {
        NodeType::Validator => "validator"@,
        NodeType::ValidatorFullNode => "validator_fullnode"@,
        NodeType::PublicFullNode => "public_fullnode"@,
    }
}

/// The name under which a chain is reported: that of the well-known chains
/// other than chain 3, and the number of every other chain.
pub open spec fn chain_name(id: u8) -> Seq<char> {
    if id == 1 {
        "mainnet"@
    } else if id == 2 {
        "testnet"@
    } else if id == 4 {
        "testing"@
    } else if id == 5 {
        "premainnet"@
    } else {
        decimal(id as nat)
    }
}

/// The half-bytes of `bytes`, the upper half of each byte first.
pub open spec fn nibbles(bytes: Seq<u8>) -> Seq<int> {
    Seq::new(
        2 * bytes.len(),
        |i: int|
            if i % 2 == 0 {
                bytes[i / 2] as int / 16
            } else {
                bytes[i / 2] as int % 16
            },
    )
}

/// Whether `k` is the position of the first half-byte of `s` that is not 0,
/// or the length of `s` if all are 0.
pub open spec fn first_nonzero(s: Seq<int>, k: int) -> bool {
    &&& 0 <= k <= s.len()
    &&& forall|j: int| 0 <= j < k ==> s[j] == 0
    &&& k < s.len() ==> s[k] != 0
}

/// The number of half-bytes at the start of `s` that are 0.
pub open spec fn leading_zeros(s: Seq<int>) -> int
    decreases s.len(),
{
    if s.len() == 0 || s[0] != 0 {
        0
    } else {
        1 + leading_zeros(s.drop_first())
    }
}

/// The short hexadecimal literal of `bytes`: `0x`, then the hexadecimal
/// digits of the bytes without leading zeros, and a single `0` where every
/// byte is 0.
pub open spec fn hex_literal(bytes: Seq<u8>) -> Seq<char> {
    let digits = nibbles(bytes);
    let k = leading_zeros(digits);
    "0x"@ + (if k == digits.len() {
        seq!['0']
    } else {
        digits.subrange(k, digits.len() as int).map_values(|d: int| digit_char(d))
    })
}

/// The leading zeros of `s` end at the first half-byte that is not 0.
proof fn lemma_leading_zeros(s: Seq<int>, k: int)
    requires
        first_nonzero(s, k),
    ensures
        leading_zeros(s) == k,
    decreases s.len(),
{
    if k > 0 {
        let rest = s.drop_first();
        assert forall|j: int| 0 <= j < k - 1 implies rest[j] == 0 by {
            assert(rest[j] == s[j + 1]);
        }
        lemma_leading_zeros(rest, k - 1);
    }
}

fn digit(d: u8) -> (c: char)
    requires
        d < 16,
    ensures
        c == digit_char(d as int),
{
    if d == 0 {
        '0'
    } else if d == 1 {
        '1'
    } else if d == 2 {
        '2'
    } else if d == 3 {
        '3'
    } else if d == 4 {
        '4'
    } else if d == 5 {
        '5'
    } else if d == 6 {
        '6'
    } else if d == 7 {
        '7'
    } else if d == 8 {
        '8'
    } else if d == 9 {
        '9'
    } else if d == 10 {
        'a'
    } else if d == 11 {
        'b'
    } else if d == 12 {
        'c'
    } else if d == 13 {
        'd'
    } else if d == 14 {
        'e'
    } else {
        'f'
    }
}

/// Appends the decimal numeral of `n` to `s`.
fn push_decimal(s: &mut String, n: u8)
    ensures
        final(s)@ == old(s)@ + decimal(n as nat),
{
    let ghost before = s@;
    if n >= 100 {
        s.push(digit(n / 100));
        s.push(digit(n / 10 % 10));
        s.push(digit(n % 10));
        assert(decimal(n as nat) =~= seq![
            digit_char(n as int / 100),
            digit_char(n as int / 10 % 10),
            digit_char(n as int % 10),
        ]) by {
            assert(decimal((n / 100) as nat) =~= seq![digit_char(n as int / 100)]);
            assert(decimal((n / 10) as nat) =~= decimal((n / 100) as nat).push(
                digit_char(n as int / 10 % 10),
            ));
        }
        assert(s@ =~= before + decimal(n as nat));
    } else if n >= 10 {
        s.push(digit(n / 10));
        s.push(digit(n % 10));
        assert(decimal(n as nat) =~= seq![digit_char(n as int / 10), digit_char(n as int % 10)])
            by {
            assert(decimal((n / 10) as nat) =~= seq![digit_char(n as int / 10)]);
        }
        assert(s@ =~= before + decimal(n as nat));
    } else {
        s.push(digit(n));
        assert(s@ =~= before + decimal(n as nat));
    }
}

/// Appends the name of the chain `id` to `s`.
fn push_chain_name(s: &mut String, id: u8)
    ensures
        final(s)@ == old(s)@ + chain_name(id),
{
    if id == 1 {
        s.push_str("mainnet");
    } else if id == 2 {
        s.push_str("testnet");
    } else if id == 4 {
        s.push_str("testing");
    } else if id == 5 {
        s.push_str("premainnet");
    } else {
        push_decimal(s, id);
    }
}

/// Appends the short hexadecimal literal of `peer_id` to `s`.
fn push_hex_literal(s: &mut String, peer_id: &PeerId)
    ensures
        final(s)@ == old(s)@ + hex_literal(peer_id@),
{
    let ghost before = s@;
    let bytes = peer_id.to_vec();
    proof {
        crate::account_address::lemma_address_is_its_bytes(*peer_id, *peer_id);
    }
    let ghost nibs = nibbles(bytes@);
    s.push_str("0x");
    let mut started = false;
    let ghost mut first: int = 0;
    let mut i: usize = 0;
    while i < bytes.len()
        invariant
            i <= bytes.len(),
            bytes@.len() == 32,
            nibs == nibbles(bytes@),
            !started ==> s@ == before + "0x"@ && forall|j: int| 0 <= j < 2 * i ==> nibs[j] == 0,
            started ==> 0 <= first < 2 * i && first_nonzero(nibs, first) && s@ == before + "0x"@
                + nibs.subrange(first, 2 * i as int).map_values(|d: int| digit_char(d)),
        decreases bytes.len() - i,
    {
        let high = bytes[i] / 16;
        let low = bytes[i] % 16;
        assert(nibs[2 * i as int] == high);
        assert(nibs[2 * i + 1] == low);
        if started || high != 0 {
            proof {
                if !started {
                    first = 2 * i as int;
                }
            }
            s.push(digit(high));
            started = true;
            assert(s@ =~= before + "0x"@ + nibs.subrange(first, 2 * i + 1).map_values(
                |d: int| digit_char(d),
            ));
        }
        if started || low != 0 {
            proof {
                if !started {
                    first = 2 * i + 1;
                }
            }
            s.push(digit(low));
            started = true;
            assert(s@ =~= before + "0x"@ + nibs.subrange(first, 2 * i + 2).map_values(
                |d: int| digit_char(d),
            ));
        }
        i += 1;
    }
    if !started {
        s.push('0');
        proof {
            lemma_leading_zeros(nibs, 64);
            assert(s@ =~= before + hex_literal(peer_id@));
        }
    } else {
        proof {
            lemma_leading_zeros(nibs, first);
            assert(s@ =~= before + hex_literal(peer_id@));
        }
    }
}

/// Whether `labels` are the labels of what a node with `claims` pushes: its
/// role, its chain, the namespace of this service, and its peer id in place
/// of a pod name.
pub open spec fn are_extra_labels(labels: Seq<Seq<char>>, claims: Claims) -> bool {
    &&& labels.len() == 4
    &&& labels[0] == "role="@ + node_type_name(claims.node_type)
    &&& labels[1] == "chain_name="@ + chain_name(claims.chain_id.id())
    &&& labels[2] == "namespace=telemetry-service"@
    &&& labels[3] == "kubernetes_pod_name=peer_id:"@ + hex_literal(claims.peer_id@)
}

/// The labels that are attached to the metrics that a node with `claims`
/// pushes.
pub fn claims_to_extra_labels(claims: &Claims) -> (labels: Vec<String>)
    ensures
        are_extra_labels(labels@.map_values(|s: String| s@), *claims),
{
    let mut role = String::new();
    role.push_str("role=");
    match claims.node_type {
        NodeType::Validator => role.push_str("validator"),
        NodeType::ValidatorFullNode => role.push_str("validator_fullnode"),
        NodeType::PublicFullNode => role.push_str("public_fullnode"),
    }
    let mut chain = String::new();
    chain.push_str("chain_name=");
    if claims.chain_id.id() == 3 {
        push_decimal(&mut chain, claims.chain_id.id());
    } else {
        push_chain_name(&mut chain, claims.chain_id.id());
    }
    let mut namespace = String::new();
    namespace.push_str("namespace=telemetry-service");
    let mut pod = String::new();
    pod.push_str("kubernetes_pod_name=peer_id:");
    push_hex_literal(&mut pod, &claims.peer_id);
    let mut labels: Vec<String> = Vec::new();
    labels.push(role);
    labels.push(chain);
    labels.push(namespace);
    labels.push(pod);
    proof {
        let views = labels@.map_values(|s: String| s@);
        assert(views[0] =~= "role="@ + node_type_name(claims.node_type));
        assert(views[1] =~= "chain_name="@ + chain_name(claims.chain_id.id()));
        assert(views[2] =~= "namespace=telemetry-service"@);
        assert(views[3] =~= "kubernetes_pod_name=peer_id:"@ + hex_literal(claims.peer_id@));
    }
    labels
}

/// What came back from one backend to which a push was relayed.
#[derive(Clone, Copy, Debug, PartialEq, Eq, Structural)]
pub enum BackendResponse {
    /// The backend answered with this status code.
    Status(u16),
    /// The request could not be sent, or no answer came.
    Failed,
}

/// Whether a backend took the push: it answered, and with a code of success.
pub open spec fn backend_took(response: BackendResponse) -> bool {
    response matches BackendResponse::Status(code) && 200 <= code < 300
}

/// Why a push was not delivered.
#[derive(Clone, Copy, Debug, PartialEq, Eq, Structural)]
pub enum MetricsIngestError {
    /// No backend took the push.
    IngestionError,
}

/// Decides whether a push that was relayed to backends counts as delivered:
/// it does if at least one backend took it.
pub fn handle_metrics_ingest(responses: &Vec<BackendResponse>) -> (r: Result<
    (),
    MetricsIngestError,
>)
    ensures
        r.is_ok() <==> exists|i: int| 0 <= i < responses@.len() && backend_took(responses@[i]),
        r.is_err() ==> r == Err::<(), MetricsIngestError>(MetricsIngestError::IngestionError),
{
    let mut all_failed = true;
    let mut i: usize = 0;
    while i < responses.len()
        invariant
            i <= responses.len(),
            all_failed <==> forall|j: int| 0 <= j < i ==> !backend_took(responses@[j]),
        decreases responses.len() - i,
    {
        let took = match responses[i] {
            BackendResponse::Status(code) => status_is_success(code),
            BackendResponse::Failed => false,
        };
        all_failed = all_failed && !took;
        i += 1;
    }
    if all_failed {
        Err(MetricsIngestError::IngestionError)
    } else {
        Ok(())
    }
}

} // verus!
