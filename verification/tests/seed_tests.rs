use ad4m_cli::seed::parse_descriptor;

#[test]
fn parses_plain_descriptor() {
    let text = "{\"language_language_ref\":\"./languages/languages.js\",\
                \"additional_language_refs\":[]}";
    let d = parse_descriptor(text).expect("descriptor must parse");
    assert_eq!(d.language_language_ref, "./languages/languages.js");
    assert_eq!(d.additional_language_refs.len(), 0);
}

#[test]
fn parses_descriptor_with_whitespace_and_items() {
    let text = " {\n  \"language_language_ref\" : \"bundle.js\" ,\n  \
                \"additional_language_refs\" : [ \"a.js\" , \"b.js\" ]\n } \n";
    let d = parse_descriptor(text).expect("descriptor must parse");
    assert_eq!(d.language_language_ref, "bundle.js");
    assert_eq!(d.additional_language_refs, vec!["a.js".to_string(), "b.js".to_string()]);
}

#[test]
fn decodes_escapes_in_values() {
    let text = "{\"language_language_ref\":\"C:\\\\langs\\\\l.js\",\
                \"additional_language_refs\":[\"with \\\"quote\\\"\",\"line\\nbreak\"]}";
    let d = parse_descriptor(text).expect("descriptor must parse");
    assert_eq!(d.language_language_ref, "C:\\langs\\l.js");
    assert_eq!(d.additional_language_refs[0], "with \"quote\"");
    assert_eq!(d.additional_language_refs[1], "line\nbreak");
}

#[test]
fn rejects_missing_required_field() {
    let text = "{\"additional_language_refs\":[]}";
    let r = parse_descriptor(text);
    assert!(r.is_err());
    assert_eq!(r.unwrap_err(), ad4m_cli::error::ErrorKind::Validation);
}

#[test]
fn rejects_non_object_text() {
    assert!(parse_descriptor("").is_err());
    assert!(parse_descriptor("not json at all").is_err());
    assert!(parse_descriptor("[]").is_err());
    assert!(parse_descriptor("42").is_err());
}

#[test]
fn rejects_unterminated_string() {
    let text = "{\"language_language_ref\":\"unterminated";
    assert!(parse_descriptor(text).is_err());
}

#[test]
fn rejects_trailing_text_after_object() {
    let text = "{\"language_language_ref\":\"x\",\"additional_language_refs\":[]} extra";
    assert!(parse_descriptor(text).is_err());
}

#[test]
fn rejects_unknown_escape() {
    let text = "{\"language_language_ref\":\"bad\\qescape\",\"additional_language_refs\":[]}";
    assert!(parse_descriptor(text).is_err());
}

#[test]
fn rejects_fields_in_other_order() {
    let text = "{\"additional_language_refs\":[],\"language_language_ref\":\"x\"}";
    assert!(parse_descriptor(text).is_err());
}

#[test]
fn parses_unicode_values() {
    let text = "{\"language_language_ref\":\"b\u{fc}ndel.js\",\"additional_language_refs\":[]}";
    let d = parse_descriptor(text).expect("descriptor must parse");
    assert_eq!(d.language_language_ref, "b\u{fc}ndel.js");
}
