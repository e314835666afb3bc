use lynx_proxy::codec::encode_optional_bytes;
use lynx_proxy::json::{number_text_as_i64, parse_bool_payload, parse_i32_payload, parse_string_payload, Json};
use lynx_proxy::protocol::{is_event_op, is_request_op, parse_request_op, RequestOp};
use lynx_proxy::text::{i64_to_decimal, parse_u16, replace_all, rsplit_once_char, str_contains, trim, trim_start_matches_char};

fn obj(entries: Vec<(&str, Json)>) -> Json {
    Json::Object(entries.into_iter().map(|(k, v)| (k.to_string(), v)).collect())
}

#[test]
fn request_ops_are_recognised() {
    assert!(is_request_op("system.ping"));
    assert!(is_request_op("rules.save.set"));
    assert!(is_request_op("network.trafficFilter.history.clear"));
    assert!(!is_request_op("request.start"));
    assert!(!is_request_op("system.pin"));
    assert!(!is_request_op(""));
    assert_eq!(parse_request_op("capture.rules.ignore.enabled.set"), Some(RequestOp::CaptureRulesIgnoreEnabledSet));
    assert_eq!(RequestOp::DeviceAdbProxyDisable.name(), "device.adb.proxy.disable");
}

#[test]
fn event_ops_are_recognised() {
    assert!(is_event_op("capture.status.changed"));
    assert!(is_event_op("system.error"));
    assert!(!is_event_op("system.ping"));
    assert!(!is_event_op("websocket.start"));
}

#[test]
fn json_numbers_read_as_i64() {
    assert_eq!(number_text_as_i64("0"), Some(0));
    assert_eq!(number_text_as_i64("42"), Some(42));
    assert_eq!(number_text_as_i64("-7"), Some(-7));
    assert_eq!(number_text_as_i64("9223372036854775807"), Some(i64::MAX));
    assert_eq!(number_text_as_i64("-9223372036854775808"), Some(i64::MIN));
    assert_eq!(number_text_as_i64("9223372036854775808"), None);
    assert_eq!(number_text_as_i64("-0"), None);
    assert_eq!(number_text_as_i64("1.5"), None);
    assert_eq!(number_text_as_i64("1e3"), None);
    assert_eq!(number_text_as_i64("007"), None);
    assert_eq!(number_text_as_i64(""), None);
}

#[test]
fn payload_members_are_read_by_type() {
    let payload = Some(obj(vec![
        ("ruleId", Json::Number("12".to_string())),
        ("big", Json::Number("3000000000".to_string())),
        ("enabled", Json::Bool(true)),
        ("traceId", Json::Str("abc".to_string())),
    ]));
    assert_eq!(parse_i32_payload(&payload, "ruleId"), Some(12));
    assert_eq!(parse_i32_payload(&payload, "big"), None);
    assert_eq!(parse_i32_payload(&payload, "enabled"), None);
    assert_eq!(parse_bool_payload(&payload, "enabled"), Some(true));
    assert_eq!(parse_bool_payload(&payload, "ruleId"), None);
    assert_eq!(parse_string_payload(&payload, "traceId"), Some("abc".to_string()));
    assert_eq!(parse_string_payload(&payload, "missing"), None);
    assert_eq!(parse_string_payload(&None, "traceId"), None);
    assert_eq!(parse_bool_payload(&Some(Json::Bool(true)), "enabled"), None);
}

#[test]
fn base64_matches_the_standard_alphabet() {
    assert_eq!(encode_optional_bytes(Some(b"hello".to_vec())), Some("aGVsbG8=".to_string()));
    assert_eq!(encode_optional_bytes(Some(b"he".to_vec())), Some("aGU=".to_string()));
    assert_eq!(encode_optional_bytes(Some(Vec::new())), Some(String::new()));
    assert_eq!(encode_optional_bytes(Some(vec![0xfb, 0xff])), Some("+/8=".to_string()));
    assert_eq!(encode_optional_bytes(Some(b"abc".to_vec())), Some("YWJj".to_string()));
    assert_eq!(encode_optional_bytes(None), None);
}

#[test]
fn text_operations() {
    assert_eq!(i64_to_decimal(0), "0");
    assert_eq!(i64_to_decimal(-45), "-45");
    assert_eq!(i64_to_decimal(i64::MIN), "-9223372036854775808");
    assert_eq!(parse_u16("8080"), Some(8080));
    assert_eq!(parse_u16("+80"), Some(80));
    assert_eq!(parse_u16("65536"), None);
    assert_eq!(parse_u16("-1"), None);
    assert_eq!(parse_u16(""), None);
    assert_eq!(parse_u16("0080"), Some(80));
    assert_eq!(trim("  a b \n\u{3000}"), "a b");
    assert_eq!(trim("   "), "");
    assert_eq!(trim_start_matches_char("vv1.2.3", 'v'), "1.2.3");
    assert_eq!(replace_all("a{x}b{x}", "{x}", "1"), "a1b1");
    assert!(str_contains("Rule 3 not found", "not found"));
    assert!(!str_contains("Rule 3 missing", "not found"));
    assert_eq!(rsplit_once_char("[::1]:8080", ':'), Some(("[::1]".to_string(), "8080".to_string())));
    assert_eq!(rsplit_once_char("host", ':'), None);
}
