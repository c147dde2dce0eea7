use fisco_bcos_service::encoding::to_prefixed_hex;
use fisco_bcos_service::helpers::{convert_hex_str_to_u32, parse_json_string, parse_json_string_array};
use fisco_bcos_service::json::JsonValue;
use fisco_bcos_service::service::{call_reply, peers_from_response};

fn s(text: &str) -> JsonValue {
    JsonValue::String(text.to_string())
}

#[test]
fn hex_block_numbers_are_read() {
    assert_eq!(convert_hex_str_to_u32("0x1a"), 26);
    assert_eq!(convert_hex_str_to_u32("0X1A"), 26);
    assert_eq!(convert_hex_str_to_u32("ff"), 255);
    assert_eq!(convert_hex_str_to_u32("0x0"), 0);
    assert_eq!(convert_hex_str_to_u32("0x0000000001"), 1);
    assert_eq!(convert_hex_str_to_u32("0xffffffff"), u32::MAX);
    assert_eq!(convert_hex_str_to_u32("0xDeadBeef"), 0xdead_beef);
}

#[test]
fn malformed_or_too_large_hex_reads_as_zero() {
    assert_eq!(convert_hex_str_to_u32(""), 0);
    assert_eq!(convert_hex_str_to_u32("0x"), 0);
    assert_eq!(convert_hex_str_to_u32("0xzz"), 0);
    assert_eq!(convert_hex_str_to_u32("0x12g"), 0);
    assert_eq!(convert_hex_str_to_u32("0x100000000"), 0);
    assert_eq!(convert_hex_str_to_u32("0x1fffffffffffffffff"), 0);
    assert_eq!(convert_hex_str_to_u32("0x0x1"), 0);
    assert_eq!(convert_hex_str_to_u32(" 0x1"), 0);
}

#[test]
fn string_replies_are_read_as_text() {
    assert_eq!(parse_json_string(&s("0x1f")), "0x1f");
    assert_eq!(parse_json_string(&JsonValue::Integer(12)), "");
    assert_eq!(parse_json_string(&JsonValue::Null), "");
    assert_eq!(parse_json_string(&JsonValue::Array(vec![s("a")])), "");
}

#[test]
fn string_array_replies_are_read_in_order() {
    let reply = JsonValue::Array(vec![s("node-1"), JsonValue::Integer(2), s("node-3")]);
    assert_eq!(parse_json_string_array(&reply), vec!["node-1".to_string(), String::new(), "node-3".to_string()]);
    assert!(parse_json_string_array(&s("node-1")).is_empty());
    assert!(parse_json_string_array(&JsonValue::Array(vec![])).is_empty());
}

#[test]
fn peers_reply_gives_its_elements() {
    let reply = JsonValue::Array(vec![
        JsonValue::Object(vec![("NodeID".to_string(), s("abc"))]),
        JsonValue::Null,
    ]);
    let peers = peers_from_response(reply);
    assert_eq!(peers.len(), 2);
    assert_eq!(format!("{:?}", peers[0]), format!("{:?}", JsonValue::Object(vec![("NodeID".to_string(), s("abc"))])));
}

#[test]
fn call_reply_reads_status_block_and_output() {
    let reply = JsonValue::Object(vec![
        ("currentBlockNumber".to_string(), s("0x5")),
        ("output".to_string(), s("0x0000")),
        ("status".to_string(), s("0x0")),
    ]);
    let r = call_reply(&reply);
    assert_eq!(r.status, "0x0");
    assert_eq!(r.current_block_number, "0x5");
    assert_eq!(r.output, "0x0000");
}

#[test]
fn call_reply_reads_missing_members_as_empty() {
    let r = call_reply(&JsonValue::Object(vec![("status".to_string(), JsonValue::Integer(0))]));
    assert_eq!(r.status, "");
    assert_eq!(r.current_block_number, "");
    assert_eq!(r.output, "");
    let r = call_reply(&JsonValue::Null);
    assert_eq!(r.status, "");
}

#[test]
fn field_takes_the_first_member_of_that_name() {
    let doc = JsonValue::Object(vec![
        ("a".to_string(), JsonValue::Integer(1)),
        ("a".to_string(), JsonValue::Integer(2)),
    ]);
    assert_eq!(format!("{:?}", doc.field("a")), format!("{:?}", JsonValue::Integer(1)));
    assert_eq!(format!("{:?}", s("a").field("a")), format!("{:?}", JsonValue::Null));
}

#[test]
fn duplicate_copies_nested_documents() {
    let doc = JsonValue::Array(vec![
        JsonValue::Object(vec![("k".to_string(), JsonValue::Decimal("1.5".to_string()))]),
        JsonValue::Bool(false),
    ]);
    assert_eq!(format!("{:?}", doc.duplicate()), format!("{:?}", doc));
}

#[test]
fn hex_written_by_the_library_reads_back() {
    let text = to_prefixed_hex(&[0x01, 0x2c]);
    assert_eq!(text, "0x012c");
    assert_eq!(convert_hex_str_to_u32(&text), 300);
    assert_eq!(convert_hex_str_to_u32(&to_prefixed_hex(&[0xff, 0xff, 0xff, 0xff])), u32::MAX);
    assert_eq!(convert_hex_str_to_u32(&to_prefixed_hex(&[])), 0);
    assert_eq!(convert_hex_str_to_u32(&to_prefixed_hex(&[0x01, 0x00, 0x00, 0x00, 0x00])), 0);
}
