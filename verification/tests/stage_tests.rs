use ad4m_cli::stage::{confirm_proceeds, staging_plan, StageAction};

#[test]
fn plan_clears_then_creates_exactly_the_two_seed_files() {
    let plan = staging_plan("{\"did\":\"did:key:z6\"}");
    assert_eq!(plan.len(), 5);
    assert!(matches!(plan[0], StageAction::ClearBase));
    match &plan[1] {
        StageAction::MakeDir { rel } => assert_eq!(rel, "config"),
        _ => panic!("second action must create the config subtree"),
    }
    match &plan[2] {
        StageAction::MakeDir { rel } => assert_eq!(rel, "data"),
        _ => panic!("third action must create the data subtree"),
    }
    match &plan[3] {
        StageAction::WriteFile { rel, contents } => {
            assert_eq!(rel, "config/agent.json");
            assert_eq!(contents, "{\"did\":\"did:key:z6\"}");
        }
        _ => panic!("fourth action must copy the identity credential"),
    }
    match &plan[4] {
        StageAction::WriteFile { rel, contents } => {
            assert_eq!(rel, "data/DIDCache.json");
            assert_eq!(contents, "{}");
        }
        _ => panic!("fifth action must write the placeholder cache"),
    }
}

#[test]
fn confirmation_declines_only_on_n() {
    assert!(!confirm_proceeds("n"));
    assert!(!confirm_proceeds("N"));
    assert!(confirm_proceeds("y"));
    assert!(confirm_proceeds("Y"));
    assert!(confirm_proceeds(""));
    assert!(confirm_proceeds("no"));
    assert!(confirm_proceeds(" n"));
}
