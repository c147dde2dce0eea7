use fisco_bcos_service::config::{Account, Config, ContractConfig};
use fisco_bcos_service::deploy::{DeployAction, DeployEvent, DeployStage, RECEIPT_POLL_INTERVAL_MS};
use fisco_bcos_service::error::ServiceError;
use fisco_bcos_service::json::JsonValue;
use fisco_bcos_service::service::Service;

fn service(timeout_seconds: u64) -> Service {
    let config = Config {
        contract: ContractConfig {
            solc: String::new(),
            source_directory: String::new(),
            compile_directory: String::new(),
        },
        account: String::new(),
        group_id: 1,
        chain_id: 1,
        timeout_seconds,
        sm_crypto: true,
    };
    let account = Account { private_key: vec![], public_key: vec![], address: vec![] };
    Service::new(&config, account)
}

fn s(text: &str) -> JsonValue {
    JsonValue::String(text.to_string())
}

fn receipt_request(hash: &str) -> String {
    format!(
        "{:?}",
        JsonValue::Object(vec![
            ("id".to_string(), JsonValue::Integer(1)),
            ("jsonrpc".to_string(), s("2.0")),
            ("method".to_string(), s("getTransactionReceipt")),
            ("params".to_string(), JsonValue::Array(vec![JsonValue::Integer(1), s(hash)])),
        ])
    )
}

fn expect_fetch(action: DeployAction, hash: &str) {
    match action {
        DeployAction::Fetch(request) => assert_eq!(format!("{:?}", request), receipt_request(hash)),
        other => panic!("expected a fetch, got {:?}", other),
    }
}

#[test]
fn deploy_polls_until_the_receipt_comes_and_reports_the_second_reply() {
    let svc = service(10);
    let mut poll = svc.deploy_poll("0xabc".to_string());
    assert!(matches!(poll.stage(), DeployStage::ReadingClock));

    expect_fetch(poll.step(DeployEvent::Elapsed(0)), "0xabc");
    assert!(matches!(poll.stage(), DeployStage::AwaitingReceipt));

    match poll.step(DeployEvent::Receipt(JsonValue::Null)) {
        DeployAction::Sleep(ms) => assert_eq!(ms, RECEIPT_POLL_INTERVAL_MS),
        other => panic!("expected a sleep, got {:?}", other),
    }
    assert_eq!(RECEIPT_POLL_INTERVAL_MS, 200);
    assert!(matches!(poll.stage(), DeployStage::ReadingClock));

    expect_fetch(poll.step(DeployEvent::Elapsed(250)), "0xabc");
    let first = JsonValue::Object(vec![("status".to_string(), s("0x1"))]);
    expect_fetch(poll.step(DeployEvent::Receipt(first)), "0xabc");
    assert!(matches!(poll.stage(), DeployStage::AwaitingConfirmedReceipt));

    let second = JsonValue::Object(vec![
        ("blockNumber".to_string(), s("0x9")),
        ("contractAddress".to_string(), s("0xc0ffee")),
        ("status".to_string(), s("0x0")),
        ("transactionHash".to_string(), s("0xabc")),
    ]);
    match poll.step(DeployEvent::Receipt(second)) {
        DeployAction::Finish(Ok(summary)) => {
            let expected = JsonValue::Object(vec![
                ("status".to_string(), s("0x0")),
                ("transactionHash".to_string(), s("0xabc")),
                ("contractAddress".to_string(), s("0xc0ffee")),
            ]);
            assert_eq!(format!("{:?}", summary), format!("{:?}", expected));
        },
        other => panic!("expected a result, got {:?}", other),
    }
    assert!(matches!(poll.stage(), DeployStage::Finished));
}

#[test]
fn receipt_summary_fills_missing_members_with_null() {
    let svc = service(10);
    let mut poll = svc.deploy_poll("0x1".to_string());
    expect_fetch(poll.step(DeployEvent::Elapsed(5)), "0x1");
    expect_fetch(poll.step(DeployEvent::Receipt(JsonValue::Bool(true))), "0x1");
    match poll.step(DeployEvent::Receipt(JsonValue::Null)) {
        DeployAction::Finish(Ok(summary)) => {
            let expected = JsonValue::Object(vec![
                ("status".to_string(), JsonValue::Null),
                ("transactionHash".to_string(), JsonValue::Null),
                ("contractAddress".to_string(), JsonValue::Null),
            ]);
            assert_eq!(format!("{:?}", summary), format!("{:?}", expected));
        },
        other => panic!("expected a result, got {:?}", other),
    }
}

#[test]
fn deploy_times_out_with_code_minus_one_and_the_quoted_hash() {
    let svc = service(1);
    assert_eq!(svc.timeout_millis(), 1000);
    let mut poll = svc.deploy_poll("0xabc".to_string());
    expect_fetch(poll.step(DeployEvent::Elapsed(999)), "0xabc");
    match poll.step(DeployEvent::Receipt(JsonValue::Null)) {
        DeployAction::Sleep(_) => {},
        other => panic!("expected a sleep, got {:?}", other),
    }
    match poll.step(DeployEvent::Elapsed(1000)) {
        DeployAction::Finish(Err(ServiceError::FiscoBcosError { code, message })) => {
            assert_eq!(code, -1);
            assert_eq!(
                message,
                "Contract deployed, but the action for fetching transaction receipt is timeout. Transaction hash is \"0xabc\""
            );
        },
        other => panic!("expected the timeout error, got {:?}", other),
    }
    assert!(matches!(poll.stage(), DeployStage::Finished));
}

#[test]
fn zero_timeout_fails_at_the_first_clock_reading() {
    let svc = service(0);
    let mut poll = svc.deploy_poll("a\"b".to_string());
    match poll.step(DeployEvent::Elapsed(0)) {
        DeployAction::Finish(Err(ServiceError::FiscoBcosError { code, message })) => {
            assert_eq!(code, -1);
            assert!(message.ends_with("Transaction hash is \"a\\\"b\""));
        },
        other => panic!("expected the timeout error, got {:?}", other),
    }
}

#[test]
fn a_failed_receipt_request_ends_the_deployment_with_its_error() {
    let svc = service(10);
    let mut poll = svc.deploy_poll("0x2".to_string());
    expect_fetch(poll.step(DeployEvent::Elapsed(1)), "0x2");
    match poll.step(DeployEvent::Failed(ServiceError::NetworkError("connection refused".to_string()))) {
        DeployAction::Finish(Err(ServiceError::NetworkError(text))) => assert_eq!(text, "connection refused"),
        other => panic!("expected the network error, got {:?}", other),
    }
    assert!(matches!(poll.stage(), DeployStage::Finished));
}
