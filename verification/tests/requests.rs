use fisco_bcos_service::config::{Account, Config, ContractConfig};
use fisco_bcos_service::json::JsonValue;
use fisco_bcos_service::rpc::generate_request_params;
use fisco_bcos_service::service::{Service, BLOCK_LIMIT_MARGIN};

fn config(group_id: u32) -> Config {
    Config {
        contract: ContractConfig {
            solc: "./bin/solc".to_string(),
            source_directory: "./contracts".to_string(),
            compile_directory: "./contracts/.compiled".to_string(),
        },
        account: "./accounts/alice.pem".to_string(),
        group_id,
        chain_id: 7,
        timeout_seconds: 10,
        sm_crypto: false,
    }
}

fn account() -> Account {
    Account {
        private_key: vec![0x11; 32],
        public_key: vec![0x22; 64],
        address: vec![0xab, 0x01, 0xff],
    }
}

fn service(group_id: u32) -> Service {
    Service::new(&config(group_id), account())
}

fn s(text: &str) -> JsonValue {
    JsonValue::String(text.to_string())
}

fn request(method: &str, params: JsonValue) -> JsonValue {
    JsonValue::Object(vec![
        ("id".to_string(), JsonValue::Integer(1)),
        ("jsonrpc".to_string(), s("2.0")),
        ("method".to_string(), s(method)),
        ("params".to_string(), params),
    ])
}

fn same(a: &JsonValue, b: &JsonValue) {
    assert_eq!(format!("{:?}", a), format!("{:?}", b));
}

#[test]
fn request_has_id_version_method_and_params() {
    let params = JsonValue::Array(vec![JsonValue::Integer(3), JsonValue::Bool(true)]);
    let r = generate_request_params("getPeers", &params);
    same(&r, &request("getPeers", JsonValue::Array(vec![JsonValue::Integer(3), JsonValue::Bool(true)])));
}

#[test]
fn request_reads_back_its_members() {
    let r = generate_request_params("getCode", &s("0xabc"));
    same(&r.field("id"), &JsonValue::Integer(1));
    same(&r.field("jsonrpc"), &s("2.0"));
    same(&r.field("method"), &s("getCode"));
    same(&r.field("params"), &s("0xabc"));
    same(&r.field("missing"), &JsonValue::Null);
}

#[test]
fn group_requests_carry_the_group_id() {
    let svc = service(5);
    same(
        &svc.get_block_number_request(),
        &request("getBlockNumber", JsonValue::Array(vec![JsonValue::Integer(5)])),
    );
    same(
        &svc.get_node_id_list_request(),
        &request("getNodeIDList", JsonValue::Array(vec![JsonValue::Integer(5)])),
    );
    same(
        &svc.query_group_status_request(),
        &request("queryGroupStatus", JsonValue::Array(vec![JsonValue::Integer(5)])),
    );
}

#[test]
fn group_list_and_node_info_take_null_parameters() {
    let svc = service(1);
    same(&svc.get_group_list_request(), &request("getGroupList", JsonValue::Null));
    same(&svc.get_node_info_request(), &request("getNodeInfo", JsonValue::Null));
}

#[test]
fn block_requests_carry_the_block_and_the_flag() {
    let svc = service(1);
    same(
        &svc.get_block_by_hash_request("0xdead", true),
        &request(
            "getBlockByHash",
            JsonValue::Array(vec![JsonValue::Integer(1), s("0xdead"), JsonValue::Bool(true)]),
        ),
    );
    same(
        &svc.get_block_header_by_number_request("0x10", false),
        &request(
            "getBlockHeaderByNumber",
            JsonValue::Array(vec![JsonValue::Integer(1), s("0x10"), JsonValue::Bool(false)]),
        ),
    );
}

#[test]
fn transaction_by_block_and_index_requests() {
    let svc = service(2);
    same(
        &svc.get_transaction_by_block_number_and_index_request("0x3", "0x0"),
        &request(
            "getTransactionByBlockNumberAndIndex",
            JsonValue::Array(vec![JsonValue::Integer(2), s("0x3"), s("0x0")]),
        ),
    );
    same(
        &svc.get_transaction_receipt_request("0xfeed"),
        &request("getTransactionReceipt", JsonValue::Array(vec![JsonValue::Integer(2), s("0xfeed")])),
    );
}

#[test]
fn batch_receipt_requests_carry_the_range() {
    let svc = service(1);
    same(
        &svc.get_batch_receipts_by_block_hash_and_range_request("0xaa", 3, -1, true),
        &request(
            "getBatchReceiptsByBlockHashAndRange",
            JsonValue::Array(vec![
                JsonValue::Integer(1),
                s("0xaa"),
                JsonValue::Integer(3),
                JsonValue::Integer(-1),
                JsonValue::Bool(true),
            ]),
        ),
    );
}

#[test]
fn generate_group_request_copies_the_parameters() {
    let svc = service(4);
    let params = JsonValue::Object(vec![
        ("timestamp".to_string(), JsonValue::Integer(1600000000)),
        ("sealers".to_string(), JsonValue::Array(vec![s("node-a")])),
    ]);
    let expected_params = JsonValue::Object(vec![
        ("timestamp".to_string(), JsonValue::Integer(1600000000)),
        ("sealers".to_string(), JsonValue::Array(vec![s("node-a")])),
    ]);
    same(
        &svc.generate_group_request(&params),
        &request("generateGroup", JsonValue::Array(vec![JsonValue::Integer(4), expected_params])),
    );
}

#[test]
fn call_request_writes_addresses_and_data_in_hex() {
    let svc = service(1);
    let r = svc.call_request("0x1234", &[0x0f, 0xa0]);
    let call = JsonValue::Object(vec![
        ("from".to_string(), s("0xab01ff")),
        ("to".to_string(), s("0x1234")),
        ("value".to_string(), s("0x0")),
        ("data".to_string(), s("0x0fa0")),
    ]);
    same(&r, &request("call", JsonValue::Array(vec![JsonValue::Integer(1), call])));
}

#[test]
fn raw_transaction_requests_differ_only_in_method() {
    let svc = service(9);
    let signed = [0x01u8, 0x23, 0xcd];
    same(
        &svc.send_raw_transaction_request(&signed),
        &request("sendRawTransaction", JsonValue::Array(vec![JsonValue::Integer(9), s("0x0123cd")])),
    );
    same(
        &svc.send_raw_transaction_and_get_proof_request(&signed),
        &request(
            "sendRawTransactionAndGetProof",
            JsonValue::Array(vec![JsonValue::Integer(9), s("0x0123cd")]),
        ),
    );
}

#[test]
fn empty_transaction_data_is_just_the_prefix() {
    let svc = service(1);
    same(
        &svc.send_raw_transaction_request(&[]),
        &request("sendRawTransaction", JsonValue::Array(vec![JsonValue::Integer(1), s("0x")])),
    );
}

#[test]
fn transaction_fields_set_the_block_limit_past_the_current_block() {
    let svc = service(3);
    let fields = svc.transaction_fields(1000);
    assert_eq!(fields.block_limit, 1500);
    assert_eq!(fields.group_id, 3);
    assert_eq!(fields.chain_id, 7);
    assert!(!fields.sm_crypto);
    let last = svc.transaction_fields(u32::MAX - BLOCK_LIMIT_MARGIN);
    assert_eq!(last.block_limit, u32::MAX);
}

#[test]
fn new_service_keeps_config_and_account() {
    let svc = service(6);
    assert_eq!(svc.config.group_id, 6);
    assert_eq!(svc.config.chain_id, 7);
    assert_eq!(svc.config.account, "./accounts/alice.pem");
    assert_eq!(svc.config.contract.solc, "./bin/solc");
    assert_eq!(svc.account().address, vec![0xab, 0x01, 0xff]);
    assert_eq!(svc.timeout_millis(), 10_000);
}
