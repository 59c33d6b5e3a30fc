use ad4m_cli::languages::LanguageFunctions;
use ad4m_cli::perspectives::{interpret_prolog_text, Add, AddLink, All, Infer, PrologResult,
    QueryLinks, Remove, SubscriptionLinkAdded};

#[test]
fn all_request_has_no_variables() {
    assert_eq!(All.variables_json(), "{}");
}

#[test]
fn add_request_renders_its_name() {
    let r = Add { name: "my \"perspective\"".to_string() };
    let json = r.variables_json();
    assert_eq!(json, "{\"name\":\"my \\\"perspective\\\"\"}");
    let v: serde_json::Value = serde_json::from_str(&json).expect("variables must be JSON");
    assert_eq!(v["name"], "my \"perspective\"");
}

#[test]
fn remove_request_renders_its_uuid() {
    let r = Remove { uuid: "u-1".to_string() };
    assert_eq!(r.variables_json(), "{\"uuid\":\"u-1\"}");
}

#[test]
fn add_link_request_nests_the_link_object() {
    let r = AddLink {
        uuid: "u-1".to_string(),
        source: "root".to_string(),
        target: "leaf".to_string(),
        predicate: None,
    };
    assert_eq!(
        r.variables_json(),
        "{\"uuid\":\"u-1\",\"link\":{\"source\":\"root\",\"target\":\"leaf\",\
         \"predicate\":null}}"
    );
    let with_pred = AddLink { predicate: Some("knows".to_string()), ..r };
    assert_eq!(
        with_pred.variables_json(),
        "{\"uuid\":\"u-1\",\"link\":{\"source\":\"root\",\"target\":\"leaf\",\
         \"predicate\":\"knows\"}}"
    );
}

#[test]
fn query_links_request_renders_optional_filters() {
    let r = QueryLinks {
        uuid: "u-9".to_string(),
        source: Some("s".to_string()),
        target: None,
        predicate: None,
        from_date: Some("2022-01-01T00:00:00.000Z".to_string()),
        until_date: None,
        limit: Some(250),
    };
    let json = r.variables_json();
    assert_eq!(
        json,
        "{\"uuid\":\"u-9\",\"query\":{\"source\":\"s\",\"target\":null,\
         \"predicate\":null,\"fromDate\":\"2022-01-01T00:00:00.000Z\",\
         \"untilDate\":null,\"limit\":250}}"
    );
    let v: serde_json::Value = serde_json::from_str(&json).expect("variables must be JSON");
    assert_eq!(v["query"]["limit"], 250);
    assert!(v["query"]["target"].is_null());
}

#[test]
fn query_links_limit_renders_edge_values() {
    let base = QueryLinks {
        uuid: "u".to_string(),
        source: None,
        target: None,
        predicate: None,
        from_date: None,
        until_date: None,
        limit: Some(0),
    };
    assert!(base.variables_json().ends_with("\"limit\":0}}"));
    let big = QueryLinks { limit: Some(u64::MAX), ..base };
    assert!(big.variables_json().ends_with("\"limit\":18446744073709551615}}"));
}

#[test]
fn prolog_answers_map_to_booleans() {
    assert!(matches!(interpret_prolog_text("true".to_string()), PrologResult::Bool(true)));
    assert!(matches!(interpret_prolog_text("false".to_string()), PrologResult::Bool(false)));
    match interpret_prolog_text("X = 4".to_string()) {
        PrologResult::Text(t) => assert_eq!(t, "X = 4"),
        _ => panic!("ordinary answers stay text"),
    }
    match interpret_prolog_text("True".to_string()) {
        PrologResult::Text(t) => assert_eq!(t, "True"),
        _ => panic!("only the exact lower-case words are booleans"),
    }
}

#[test]
fn infer_request_renders_its_query() {
    let r = Infer { uuid: "u-2".to_string(), query: "triple(X, Y, Z)".to_string() };
    assert_eq!(r.variables_json(), "{\"uuid\":\"u-2\",\"query\":\"triple(X, Y, Z)\"}");
}

#[test]
fn subscription_request_renders_its_uuid() {
    let r = SubscriptionLinkAdded { uuid: "u-3".to_string() };
    assert_eq!(r.variables_json(), "{\"uuid\":\"u-3\"}");
}

#[test]
fn language_subcommands_carry_their_arguments() {
    let cmd = LanguageFunctions::GenerateBootstrap {
        agent_path: "/tmp/agent.json".to_string(),
        passphrase: "pw".to_string(),
        ad4m_host_path: "/usr/bin/ad4m-host".to_string(),
        seed_proto: "/tmp/seed.json".to_string(),
    };
    match cmd {
        LanguageFunctions::GenerateBootstrap { agent_path, passphrase, ad4m_host_path, seed_proto } => {
            assert_eq!(agent_path, "/tmp/agent.json");
            assert_eq!(passphrase, "pw");
            assert_eq!(ad4m_host_path, "/usr/bin/ad4m-host");
            assert_eq!(seed_proto, "/tmp/seed.json");
        }
        _ => panic!("wrong variant"),
    }
    let by_addr = LanguageFunctions::ByAddress { address: "Qm1".to_string() };
    assert!(matches!(by_addr, LanguageFunctions::ByAddress { .. }));
}
