use ad4m_cli::bootstrap::{render_bootstrap, BootstrapConfig};

#[test]
fn temporary_config_has_empty_lists_and_placeholders() {
    let c = BootstrapConfig::temporary(String::from("function main() {}"));
    assert_eq!(c.trusted_agents.len(), 0);
    assert_eq!(c.known_link_languages.len(), 0);
    assert_eq!(c.language_language_bundle, "function main() {}");
    assert_eq!(c.direct_message_language, "");
    assert_eq!(c.agent_language, "");
    assert_eq!(c.perspective_language, "");
    assert_eq!(c.neighbourhood_language, "");
}

#[test]
fn temporary_config_renders_exact_json() {
    let c = BootstrapConfig::temporary(String::from("bundle-code"));
    let rendered = render_bootstrap(&c);
    assert_eq!(
        rendered,
        "{\"trusted_agents\":[],\"known_link_languages\":[],\
         \"language_language_bundle\":\"bundle-code\",\
         \"direct_message_language\":\"\",\"agent_language\":\"\",\
         \"perspective_language\":\"\",\"neighbourhood_language\":\"\"}"
    );
}

#[test]
fn rendered_config_is_valid_json_with_expected_fields() {
    let mut c = BootstrapConfig::temporary(String::from("let x = \"quoted\";\nnext line"));
    c.trusted_agents.push(String::from("did:key:alpha"));
    c.trusted_agents.push(String::from("did:key:beta"));
    c.known_link_languages.push(String::from("Qm123"));
    let rendered = render_bootstrap(&c);
    let v: serde_json::Value = serde_json::from_str(&rendered).expect("rendered JSON must parse");
    assert_eq!(v["trusted_agents"][0], "did:key:alpha");
    assert_eq!(v["trusted_agents"][1], "did:key:beta");
    assert_eq!(v["known_link_languages"][0], "Qm123");
    assert_eq!(v["language_language_bundle"], "let x = \"quoted\";\nnext line");
    assert_eq!(v["direct_message_language"], "");
    assert_eq!(v["agent_language"], "");
    assert_eq!(v["perspective_language"], "");
    assert_eq!(v["neighbourhood_language"], "");
}

#[test]
fn rendering_escapes_control_and_special_characters() {
    let bundle = String::from("tab\there\\and\r\"quote\"\u{1}end");
    let c = BootstrapConfig::temporary(bundle.clone());
    let rendered = render_bootstrap(&c);
    let v: serde_json::Value = serde_json::from_str(&rendered).expect("rendered JSON must parse");
    assert_eq!(v["language_language_bundle"], bundle.as_str());
    assert!(rendered.contains("\\t"));
    assert!(rendered.contains("\\\\"));
    assert!(rendered.contains("\\r"));
    assert!(rendered.contains("\\\""));
    assert!(rendered.contains("\\u0001"));
}
