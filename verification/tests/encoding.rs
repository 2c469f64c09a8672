use flowmode::encode::{escape_json, send_message_body};
use flowmode::multipart::{
    build_multipart_body, make_boundary, multipart_content_type, send_document_request,
};
use flowmode::numfmt::i64_dec;

#[test]
fn decimal_rendering_is_exact() {
    assert_eq!(i64_dec(0), "0");
    assert_eq!(i64_dec(7), "7");
    assert_eq!(i64_dec(-7), "-7");
    assert_eq!(i64_dec(1000), "1000");
    assert_eq!(i64_dec(i64::MAX), "9223372036854775807");
    assert_eq!(i64_dec(i64::MIN), "-9223372036854775808");
}

#[test]
fn escaping_matches_the_json_rules() {
    assert_eq!(escape_json("plain"), "plain");
    assert_eq!(escape_json("a\"b"), "a\\\"b");
    assert_eq!(escape_json("back\\slash"), "back\\\\slash");
    assert_eq!(escape_json("line\nbreak\ttab\rret"), "line\\nbreak\\ttab\\rret");
    assert_eq!(escape_json("\u{8}\u{c}"), "\\b\\f");
    assert_eq!(escape_json("\u{1}\u{1f}"), "\\u0001\\u001f");
    assert_eq!(escape_json("ünïcode ёж"), "ünïcode ёж");
}

#[test]
fn message_body_is_exact() {
    assert_eq!(
        send_message_body("42", "hi \"you\"\n"),
        "{\"chat_id\":\"42\",\"parse_mode\":\"HTML\",\"text\":\"hi \\\"you\\\"\\n\"}"
    );
}

#[test]
fn message_body_matches_a_reference_serialization() {
    let chat_id = "abc\"def";
    let text = "Zeile\nzwei ёж";
    let mut obj = serde_json::Map::new();
    obj.insert(
        "chat_id".to_string(),
        serde_json::Value::String(chat_id.to_string()),
    );
    obj.insert(
        "text".to_string(),
        serde_json::Value::String(text.to_string()),
    );
    obj.insert(
        "parse_mode".to_string(),
        serde_json::Value::String("HTML".to_string()),
    );
    let reference = serde_json::to_string(&serde_json::Value::Object(obj)).unwrap();
    assert_eq!(send_message_body(chat_id, text), reference);
}

#[test]
fn boundary_has_the_fixed_shape() {
    let b = make_boundary();
    assert_eq!(b.len(), 48);
    let chars: Vec<char> = b.chars().collect();
    for i in 0..24 {
        assert_eq!(chars[i], '-');
    }
    for i in 24..48 {
        assert!(chars[i].is_ascii_hexdigit() && !chars[i].is_ascii_uppercase());
    }
}

#[test]
fn multipart_body_is_exact() {
    let body = build_multipart_body("BND", "42", "journal.json", "{\"a\":1}");
    let expected = "--BND\r\nContent-Disposition: form-data; name=\"chat_id\"\r\n\r\n42\r\n\
                    --BND\r\nContent-Disposition: form-data; name=\"document\"; filename=\"journal.json\"\r\n\
                    Content-Type: application/json\r\n\r\n{\"a\":1}\r\n\
                    --BND--\r\n";
    assert_eq!(body, expected);
}

#[test]
fn content_type_names_the_boundary() {
    assert_eq!(
        multipart_content_type("BND"),
        "multipart/form-data; boundary=BND"
    );
}

#[test]
fn document_request_is_consistent() {
    let req = send_document_request("TOK", "42", "{}", "f.json");
    assert_eq!(req.url, "https://api.telegram.org/botTOK/sendDocument");
    assert_eq!(
        req.content_type,
        format!("multipart/form-data; boundary={}", req.boundary)
    );
    assert_eq!(
        req.body,
        build_multipart_body(&req.boundary, "42", "f.json", "{}")
    );
    assert!(req.body.starts_with(&format!("--{}", req.boundary)));
    assert!(req.body.ends_with(&format!("--{}--\r\n", req.boundary)));
}
