use consensus_core::account_address::PeerId;
use consensus_core::prometheus_push_metrics::{
    claims_to_extra_labels, handle_metrics_ingest, BackendResponse, ChainId, Claims,
    MetricsIngestError, NodeType,
};

fn peer(last: u8) -> PeerId {
    let mut bytes = [0u8; 32];
    bytes[31] = last;
    PeerId::new(bytes)
}

fn claims(chain: u8, peer_id: PeerId, node_type: NodeType) -> Claims {
    Claims { chain_id: ChainId::new(chain), peer_id, node_type, epoch: 3, exp: 123, iat: 123 }
}

#[test]
fn verify_labels() {
    let claims = claims_to_extra_labels(&Claims {
        chain_id: ChainId::new(25),
        peer_id: peer(1),
        node_type: NodeType::Validator,
        epoch: 3,
        exp: 123,
        iat: 123,
    });
    assert_eq!(
        claims,
        vec![
            "role=validator",
            "chain_name=25",
            "namespace=telemetry-service",
            "kubernetes_pod_name=peer_id:0x1",
        ]
    );
}

#[test]
fn labels_name_well_known_chains_but_number_chain_three() {
    let name = |id: u8| claims_to_extra_labels(&claims(id, peer(1), NodeType::Validator))[1].clone();
    assert_eq!(name(1), "chain_name=mainnet");
    assert_eq!(name(2), "chain_name=testnet");
    assert_eq!(name(3), "chain_name=3");
    assert_eq!(name(4), "chain_name=testing");
    assert_eq!(name(5), "chain_name=premainnet");
    assert_eq!(name(0), "chain_name=0");
    assert_eq!(name(9), "chain_name=9");
    assert_eq!(name(10), "chain_name=10");
    assert_eq!(name(99), "chain_name=99");
    assert_eq!(name(100), "chain_name=100");
    assert_eq!(name(255), "chain_name=255");
}

#[test]
fn labels_name_each_role() {
    let role = |t: NodeType| claims_to_extra_labels(&claims(25, peer(1), t))[0].clone();
    assert_eq!(role(NodeType::Validator), "role=validator");
    assert_eq!(role(NodeType::ValidatorFullNode), "role=validator_fullnode");
    assert_eq!(role(NodeType::PublicFullNode), "role=public_fullnode");
}

#[test]
fn peer_id_is_written_as_short_hex_literal() {
    let pod = |p: PeerId| claims_to_extra_labels(&claims(25, p, NodeType::Validator))[3].clone();
    assert_eq!(pod(peer(0)), "kubernetes_pod_name=peer_id:0x0");
    assert_eq!(pod(peer(0x0a)), "kubernetes_pod_name=peer_id:0xa");
    assert_eq!(pod(peer(0x10)), "kubernetes_pod_name=peer_id:0x10");
    assert_eq!(pod(peer(0xff)), "kubernetes_pod_name=peer_id:0xff");
    let mut bytes = [0u8; 32];
    bytes[30] = 0x03;
    bytes[31] = 0x45;
    assert_eq!(pod(PeerId::new(bytes)), "kubernetes_pod_name=peer_id:0x345");
    let full = PeerId::new([0xab; 32]);
    assert_eq!(
        pod(full),
        format!("kubernetes_pod_name=peer_id:0x{}", "ab".repeat(32))
    );
}

#[test]
fn ingest_succeeds_when_every_backend_takes_the_push() {
    let responses = vec![BackendResponse::Status(200), BackendResponse::Status(200)];
    assert!(handle_metrics_ingest(&responses).is_ok());
}

#[test]
fn ingest_succeeds_when_one_backend_takes_the_push() {
    let responses = vec![BackendResponse::Status(200), BackendResponse::Status(500)];
    assert!(handle_metrics_ingest(&responses).is_ok());
    let responses = vec![BackendResponse::Failed, BackendResponse::Status(201)];
    assert!(handle_metrics_ingest(&responses).is_ok());
}

#[test]
fn ingest_fails_when_no_backend_takes_the_push() {
    let responses = vec![BackendResponse::Status(500), BackendResponse::Status(401)];
    assert_eq!(handle_metrics_ingest(&responses), Err(MetricsIngestError::IngestionError));
    let responses = vec![BackendResponse::Failed];
    assert_eq!(handle_metrics_ingest(&responses), Err(MetricsIngestError::IngestionError));
    assert_eq!(handle_metrics_ingest(&vec![]), Err(MetricsIngestError::IngestionError));
}

#[test]
fn only_codes_from_200_to_299_count_as_success() {
    let one = |code: u16| handle_metrics_ingest(&vec![BackendResponse::Status(code)]).is_ok();
    assert!(!one(199));
    assert!(one(200));
    assert!(one(299));
    assert!(!one(300));
    assert!(!one(0));
    assert!(!one(99));
    assert!(!one(1000));
    assert!(!one(65535));
}
