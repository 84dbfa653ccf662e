use apitool::render::format_json_simple;

#[test]
fn json_body_round_trips_with_same_structure() {
    let body = "{\"a\":1,\"b\":[2,3]}";
    let rendered = format_json_simple(body);
    // The rendering is indented, so it is not the compact input text...
    assert_ne!(rendered, body);
    assert!(rendered.contains('\n'));
    // ...but it parses back to the very same key/value structure.
    let before: serde_json::Value = serde_json::from_str(body).unwrap();
    let reparsed: serde_json::Value = serde_json::from_str(&rendered).unwrap();
    assert_eq!(before, reparsed);
}

#[test]
fn json_body_is_indented() {
    let rendered = format_json_simple("{\"a\":1,\"b\":[2,3]}");
    let expected = "{\n  \"a\": 1,\n  \"b\": [\n    2,\n    3\n  ]\n}";
    assert_eq!(rendered, expected);
}

#[test]
fn non_json_body_is_printed_verbatim() {
    let body = "not json at all";
    assert_eq!(format_json_simple(body), body);
}

#[test]
fn empty_body_is_printed_verbatim() {
    assert_eq!(format_json_simple(""), "");
}
