use gravity_sdk::consensus_types::{BlockInfo, LedgerInfoWithSignatures};
use gravity_sdk::https::{ensure_https, Endpoint, HttpsServer, Method, Transport, MAX_BODY_BYTES};
use gravity_sdk::reader::{
    apply_switches, consensus_config_value, epoch_ends, get_latest_ledger_info, get_state_proof,
    get_state_value_by_version, ConfigResource, ConsensusAlgorithmConfig, OnChainConsensusConfig,
    ProposerChoice, StateKey,
};
use gravity_sdk::set_failpoints::{
    failpoint_step, is_authorized, reply_with, set_failpoint, FailpointConf, FailpointReply,
    FailpointStep, FAILPOINT_AUTH_TOKEN_ENV,
};
use gravity_sdk::types::HashValue;
use std::sync::Arc;

fn text(s: &str) -> Option<String> {
    Some(s.to_string())
}

fn conf(name: &str, actions: &str) -> FailpointConf {
    FailpointConf { name: name.to_string(), actions: actions.to_string() }
}

fn is_configured(name: &str, actions: &str) -> bool {
    fail::list().contains(&(name.to_string(), actions.to_string()))
}

fn test_fail_point() -> Option<()> {
    fail::eval("unit_test_fail_point", |_| ())
}

#[test]
fn work() {
    assert!(test_fail_point().is_none());
    let request = conf("unit_test_fail_point", "return");
    let reply = set_failpoint(request, &None, &None, true);
    assert!(matches!(&reply, FailpointReply::Json(_)), "reply is {reply:?}");
    assert!(test_fail_point().is_some());
}

#[test]
fn a_fail_point_is_set_with_the_token() {
    assert!(!is_configured("token_fail_point", "return"));
    let request = conf("token_fail_point", "return");
    match set_failpoint(request, &text("secret"), &text("secret"), true) {
        FailpointReply::Json(reply) => {
            assert_eq!(reply.response, "Set failpoint token_fail_point")
        }
        _ => panic!("the fail point should be set"),
    }
    assert!(is_configured("token_fail_point", "return"));
}

#[test]
fn a_fail_point_needs_the_token_that_is_set_up() {
    for (sent, expected) in [
        (text("a"), None),
        (None, text("a")),
        (text("a"), text("b")),
        (text(""), text("a")),
        (text(""), text("")),
        (text(""), None),
    ] {
        assert!(!is_authorized(&sent, &expected));
        match set_failpoint(conf("guarded_fail_point", "return"), &sent, &expected, true) {
            FailpointReply::Text { status, message } => {
                assert_eq!(status, 403);
                assert_eq!(message, "Failpoint endpoint is disabled or unauthorized");
            }
            _ => panic!("the request should be refused"),
        }
    }
    match set_failpoint(conf("guarded_fail_point", "return"), &text("a"), &text("a"), false) {
        FailpointReply::Text { status, message } => {
            assert_eq!(status, 400);
            assert_eq!(message, "Failpoints are not enabled at a feature level");
        }
        _ => panic!("the request should be refused"),
    }
    assert!(!is_configured("guarded_fail_point", "return"));
    assert_eq!(FAILPOINT_AUTH_TOKEN_ENV, "FAILPOINT_AUTH_TOKEN");
}

#[test]
fn a_request_without_a_token_is_served_where_none_is_set_up() {
    assert!(is_authorized(&None, &None));
    assert!(is_authorized(&None, &text("")));
    assert!(is_authorized(&text("a"), &text("a")));
    match failpoint_step(conf("p", "off"), &None, &None, true) {
        FailpointStep::Configure { name, actions } => {
            assert_eq!((name.as_str(), actions.as_str()), ("p", "off"))
        }
        _ => panic!("the request should be served"),
    }
    assert!(matches!(
        failpoint_step(conf("p", "off"), &None, &text("a"), true),
        FailpointStep::Reply(FailpointReply::Text { status: 403, .. })
    ));
    assert!(matches!(
        failpoint_step(conf("p", "off"), &None, &None, false),
        FailpointStep::Reply(FailpointReply::Text { status: 400, .. })
    ));
}

#[test]
fn actions_that_cannot_be_read_are_an_error() {
    match set_failpoint(conf("odd_fail_point", "fly away"), &text("a"), &text("a"), true) {
        FailpointReply::Text { status, message } => {
            assert_eq!(status, 500);
            assert!(message.starts_with("Failed to set failpoint: "));
            assert!(message.len() > "Failed to set failpoint: ".len());
        }
        _ => panic!("the actions cannot be read"),
    }
    match reply_with(&"p".to_string(), Err("why".to_string())) {
        FailpointReply::Text { status, message } => {
            assert_eq!(status, 500);
            assert_eq!(message, "Failed to set failpoint: why");
        }
        _ => panic!("an error is no success"),
    }
}

#[test]
fn sensitive_routes_need_tls() {
    let plain = HttpsServer::new("127.0.0.1:5425".to_string(), None, text("key.pem"));
    assert_eq!(
        plain.routes(),
        vec![
            Endpoint::DkgStatus,
            Endpoint::Randomness,
            Endpoint::SetFailpoint,
            Endpoint::MemoryProfile,
        ]
    );
    assert!(plain.routes().iter().all(|e| !e.is_sensitive()));
    assert!(matches!(plain.transport(), Transport::Plain));
    let secure =
        HttpsServer::new("127.0.0.1:5425".to_string(), text("cert.pem"), text("key.pem"));
    assert_eq!(secure.routes().len(), 11);
    assert_eq!(secure.routes().iter().filter(|e| e.is_sensitive()).count(), 7);
    assert!(matches!(
        secure.transport(),
        Transport::Tls { cert_pem, key_pem } if cert_pem == "cert.pem" && key_pem == "key.pem"
    ));
    assert_eq!(Endpoint::SubmitTx.route(), (Method::Post, "/tx/submit_tx"));
    assert_eq!(Endpoint::GetTxByHash.route(), (Method::Get, "/tx/get_tx_by_hash/:hash_value"));
    assert_eq!(Endpoint::SetFailpoint.route(), (Method::Post, "/set_failpoint"));
    assert_eq!(MAX_BODY_BYTES, 1024 * 1024);
}

#[test]
fn requests_without_tls_are_refused() {
    assert!(ensure_https(&text("https")).is_none());
    for scheme in [None, text("http"), text("HTTPS")] {
        let refusal = ensure_https(&scheme).unwrap();
        assert_eq!(refusal.status, 400);
        assert_eq!(refusal.message, "HTTPS required");
    }
}

fn read(path: &str) -> ConfigResource {
    get_state_value_by_version(&StateKey::AccessPath(path.to_string()))
}

#[test]
fn paths_lead_to_resources() {
    assert_eq!(read("0x1::stake::ValidatorSet"), ConfigResource::ValidatorSet);
    assert_eq!(read("consensus::Validator"), ConfigResource::ValidatorSet);
    assert_eq!(read("0x1::consensus_config::ConsensusConfig"), ConfigResource::Consensus);
    assert_eq!(
        read("0x1::reconfiguration::Configuration"),
        ConfigResource::Configuration { epoch: 1 }
    );
    assert_eq!(read("validator"), ConfigResource::Configuration { epoch: 1 });
}

#[test]
fn switches_change_the_latest_configuration_only() {
    let v4 = |alg| OnChainConsensusConfig::V4 { alg };
    let old = v4(ConsensusAlgorithmConfig::JolteonV2 {
        proposer_election_type: ProposerChoice::Other,
        quorum_store_enabled: false,
        order_vote_enabled: true,
    });
    assert_eq!(
        apply_switches(old, true, true),
        v4(ConsensusAlgorithmConfig::JolteonV2 {
            proposer_election_type: ProposerChoice::FixedProposer(1),
            quorum_store_enabled: true,
            order_vote_enabled: false,
        })
    );
    let old = v4(ConsensusAlgorithmConfig::Jolteon {
        proposer_election_type: ProposerChoice::Other,
        quorum_store_enabled: true,
    });
    assert_eq!(
        apply_switches(old, false, false),
        v4(ConsensusAlgorithmConfig::Jolteon {
            proposer_election_type: ProposerChoice::RotatingProposer(1),
            quorum_store_enabled: false,
        })
    );
    assert_eq!(
        apply_switches(OnChainConsensusConfig::V3, true, true),
        OnChainConsensusConfig::V3
    );
}

#[test]
fn a_configuration_is_stored_with_its_length() {
    assert_eq!(consensus_config_value(&vec![7, 8]), Some(vec![2, 7, 8]));
    let long = consensus_config_value(&vec![9; 300]).unwrap();
    assert_eq!(long.len(), 302);
    assert_eq!(long[..3], [0xac, 0x02, 9]);
}

fn ledger_info(round: u64) -> Arc<LedgerInfoWithSignatures> {
    Arc::new(LedgerInfoWithSignatures {
        commit_info: BlockInfo {
            epoch: 1,
            round,
            id: HashValue::zero(),
            executed_state_id: HashValue::zero(),
            version: 0,
            timestamp_usecs: 0,
            next_epoch_state: None,
        },
        consensus_data_hash: HashValue::zero(),
        signatures: vec![],
    })
}

#[test]
fn the_state_is_proven_from_genesis_or_from_what_is_known() {
    let genesis = ledger_info(0);
    assert_eq!(get_latest_ledger_info(None, &genesis).commit_info.round, 0);
    assert_eq!(get_latest_ledger_info(Some(ledger_info(3)), &genesis).commit_info.round, 3);
    let table = vec![(10, 1), (20, 2), (30, 3)];
    assert_eq!(epoch_ends(&table, 0), vec![10, 20, 30]);
    assert_eq!(epoch_ends(&table, 20), vec![20, 30]);
    assert_eq!(epoch_ends(&table, 21), vec![30]);
    assert!(epoch_ends(&table, 31).is_empty());
    let ends = || vec![ledger_info(1), ledger_info(2)];
    let rounds = |infos: &Vec<Arc<LedgerInfoWithSignatures>>| -> Vec<u64> {
        infos.iter().map(|i| i.commit_info.round).collect()
    };
    let from_genesis = get_state_proof(0, &genesis, Some(ledger_info(9)), ends());
    assert_eq!(rounds(&from_genesis.epoch_changes), vec![0, 1, 2]);
    assert_eq!(from_genesis.latest.commit_info.round, 9);
    assert!(!from_genesis.more);
    let from_known = get_state_proof(7, &genesis, None, ends());
    assert_eq!(rounds(&from_known.epoch_changes), vec![1, 2]);
    assert_eq!(from_known.latest.commit_info.round, 0);
}
