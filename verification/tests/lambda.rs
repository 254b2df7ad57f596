use aws_lib::lambda::{encode_logs, LambdaResult};

#[test]
fn logs_round_trip_through_base64() {
    let text = "START RequestId: 42\nEND RequestId: 42\n";
    let encoded = encode_logs(text);
    let result = LambdaResult::new(encoded, vec![]);
    assert_eq!(result.get_logs(), text);
    assert_eq!(result.try_get_logs().as_deref(), Some(text));
}

#[test]
fn logs_round_trip_keeps_unicode_text() {
    let text = "exécution terminée — 完了";
    let result = LambdaResult::new(encode_logs(text), vec![]);
    assert_eq!(result.get_logs(), text);
}

#[test]
fn encode_logs_matches_the_service_encoding() {
    // The encoder must produce real base64, not hand its input back.
    let text = "hello";
    let encoded = encode_logs(text);
    assert_ne!(encoded, text);
    assert_eq!(encoded, aws_smithy_types::base64::encode(text.as_bytes()));
    assert_eq!(encoded, "aGVsbG8=");
}

#[test]
fn get_logs_decodes_stored_base64() {
    let result = LambdaResult::new("aGVsbG8=".to_string(), vec![]);
    assert_eq!(result.get_logs(), "hello");
}

#[test]
fn invalid_base64_logs_are_a_fault_not_a_value() {
    let result = LambdaResult::new("this is *not* base64!".to_string(), vec![]);
    assert_eq!(result.try_get_logs(), None);
}

#[test]
fn base64_of_invalid_utf8_logs_is_a_fault() {
    let encoded = aws_smithy_types::base64::encode([0xff_u8, 0xfe_u8]);
    let result = LambdaResult::new(encoded, vec![]);
    assert_eq!(result.try_get_logs(), None);
}

#[test]
fn payload_is_read_as_utf8_text() {
    let result = LambdaResult::new(String::new(), b"{\"ok\":true}".to_vec());
    assert_eq!(result.get_payload(), "{\"ok\":true}");
    assert_eq!(result.try_get_payload().as_deref(), Some("{\"ok\":true}"));
}

#[test]
fn invalid_utf8_payload_is_a_fault_not_a_value() {
    let result = LambdaResult::new(String::new(), vec![0xff_u8, 0xfe_u8]);
    assert_eq!(result.try_get_payload(), None);
}

#[test]
fn a_response_without_a_log_defaults_to_empty_text() {
    let result = LambdaResult::from_response(None, b"out".to_vec());
    assert_eq!(result.get_logs(), "");
    assert_eq!(result.get_payload(), "out");
}

#[test]
fn a_response_with_a_log_keeps_it() {
    let result = LambdaResult::from_response(Some(encode_logs("ran fine")), vec![]);
    assert_eq!(result.get_logs(), "ran fine");
}
