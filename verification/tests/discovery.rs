use keyvault_tui::discovery::{
    complete_vaults, present_ids, request_address, Discovery, DiscoveryAction, Phase, RawVault,
    SlotState,
};

fn raw(name: &str, uri: &str) -> RawVault {
    RawVault { name: Some(name.to_string()), uri: Some(uri.to_string()) }
}

fn vault(name: &str, uri: &str) -> (String, String) {
    (name.to_string(), uri.to_string())
}

fn some(text: &str) -> Option<String> {
    Some(text.to_string())
}

fn fetch_vaults(slot: usize, subscription: &str, cursor: Option<&str>) -> DiscoveryAction {
    DiscoveryAction::FetchVaults {
        slot,
        subscription: subscription.to_string(),
        cursor: cursor.map(|c| c.to_string()),
    }
}

#[test]
fn discovery_starts_with_the_first_page_of_subscriptions() {
    let (discovery, first) = Discovery::new();
    assert_eq!(first, DiscoveryAction::FetchSubscriptions { cursor: None });
    assert_eq!(discovery.phase, Phase::Subscriptions);
    assert!(discovery.slots.is_empty());
}

#[test]
fn paged_subscriptions_and_paged_vaults_are_all_discovered() {
    let (mut discovery, _) = Discovery::new();
    let actions = discovery.on_subscriptions_page(vec![some("s1")], some("page2"));
    assert_eq!(actions, vec![DiscoveryAction::FetchSubscriptions { cursor: some("page2") }]);
    let actions = discovery.on_subscriptions_page(vec![some("s2")], None);
    assert_eq!(actions, vec![fetch_vaults(0, "s1", None), fetch_vaults(1, "s2", None)]);
    assert_eq!(discovery.phase, Phase::Vaults);

    let actions = discovery.on_vaults_page(0, vec![raw("v1", "https://v1/")], some("next"));
    assert_eq!(actions, vec![fetch_vaults(0, "s1", Some("next"))]);
    let actions = discovery.on_vaults_page(1, vec![raw("v3", "https://v3/")], None);
    assert!(actions.is_empty());
    let actions = discovery.on_vaults_page(0, vec![raw("v2", "https://v2/")], None);
    assert_eq!(
        actions,
        vec![DiscoveryAction::Finish {
            vaults: vec![
                vault("v1", "https://v1/"),
                vault("v2", "https://v2/"),
                vault("v3", "https://v3/"),
            ]
        }]
    );
    assert_eq!(discovery.phase, Phase::Finished);
}

#[test]
fn discovery_example_finds_v1_v2_v3() {
    let (mut discovery, _) = Discovery::new();
    discovery.on_subscriptions_page(vec![some("s1"), some("s2")], None);
    discovery.on_vaults_page(1, vec![raw("v3", "https://v3/")], None);
    discovery.on_vaults_page(0, vec![raw("v1", "https://v1/")], some("page-2"));
    let actions = discovery.on_vaults_page(0, vec![raw("v2", "https://v2/")], None);
    let found = match &actions[0] {
        DiscoveryAction::Finish { vaults } => vaults.clone(),
        other => panic!("unexpected action {:?}", other),
    };
    let mut names: Vec<String> = found.iter().map(|v| v.0.clone()).collect();
    names.sort();
    assert_eq!(names, vec!["v1", "v2", "v3"]);
    assert_eq!(found.len(), 3);
}

#[test]
fn failed_subscription_contributes_nothing() {
    let (mut discovery, _) = Discovery::new();
    discovery.on_subscriptions_page(vec![some("s1"), some("s2")], None);
    discovery.on_vaults_page(0, vec![raw("v1", "https://v1/")], some("page-2"));
    assert!(discovery.on_vaults_failed(0).is_empty());
    assert_eq!(discovery.slots[0].state, SlotState::Failed);
    let actions = discovery.on_vaults_page(1, vec![raw("v3", "https://v3/")], None);
    assert_eq!(actions, vec![DiscoveryAction::Finish { vaults: vec![vault("v3", "https://v3/")] }]);
}

#[test]
fn no_vault_from_the_primary_stage_runs_the_fallback() {
    let (mut discovery, _) = Discovery::new();
    discovery.on_subscriptions_page(vec![some("s1"), some("s2")], None);
    assert!(discovery.on_vaults_failed(1).is_empty());
    let actions = discovery.on_vaults_page(0, Vec::new(), None);
    assert_eq!(actions, vec![DiscoveryAction::RunFallback]);
    assert_eq!(discovery.phase, Phase::Fallback);
    let listing = vec![raw("cli", "https://cli/")];
    let actions = discovery.on_fallback(Some(listing));
    assert_eq!(actions, vec![DiscoveryAction::Finish { vaults: vec![vault("cli", "https://cli/")] }]);
    assert_eq!(discovery.phase, Phase::Finished);
}

#[test]
fn no_subscription_runs_the_fallback() {
    let (mut discovery, _) = Discovery::new();
    let actions = discovery.on_subscriptions_page(vec![None], None);
    assert_eq!(actions, vec![DiscoveryAction::RunFallback]);
    let actions = discovery.on_fallback(None);
    assert_eq!(actions, vec![DiscoveryAction::Finish { vaults: Vec::new() }]);
}

#[test]
fn fallback_output_is_parsed_as_a_json_array() {
    let (mut discovery, _) = Discovery::new();
    discovery.on_subscriptions_page(Vec::new(), None);
    let output = br#"[
        {"name": "v1", "properties": {"vaultUri": "https://v1/"}},
        {"name": "broken", "properties": {}},
        {"properties": {"vaultUri": "https://nameless/"}},
        {"name": 7, "properties": {"vaultUri": "https://number/"}},
        "text",
        {"name": "v2", "properties": {"vaultUri": "https://v2/", "other": 1}, "id": "x"}
    ]"#;
    let actions = discovery.on_fallback_output(true, output);
    assert_eq!(
        actions,
        vec![DiscoveryAction::Finish {
            vaults: vec![vault("v1", "https://v1/"), vault("v2", "https://v2/")]
        }]
    );
}

#[test]
fn failed_or_malformed_fallback_leaves_the_list_empty() {
    let empty = vec![DiscoveryAction::Finish { vaults: Vec::new() }];
    let good = br#"[{"name": "v1", "properties": {"vaultUri": "https://v1/"}}]"#;

    let (mut discovery, _) = Discovery::new();
    discovery.on_subscriptions_page(Vec::new(), None);
    assert_eq!(discovery.on_fallback_output(false, good), empty);

    let (mut discovery, _) = Discovery::new();
    discovery.on_subscriptions_page(Vec::new(), None);
    assert_eq!(discovery.on_fallback_output(true, b"not json"), empty);

    let (mut discovery, _) = Discovery::new();
    discovery.on_subscriptions_page(Vec::new(), None);
    assert_eq!(discovery.on_fallback_output(true, br#"{"name": "v1"}"#), empty);

    let (mut discovery, _) = Discovery::new();
    discovery.on_subscriptions_page(Vec::new(), None);
    assert_eq!(discovery.on_fallback_output(true, b""), empty);
}

#[test]
fn pages_that_are_not_awaited_change_nothing() {
    let (mut discovery, _) = Discovery::new();
    assert!(discovery.on_vaults_page(0, vec![raw("v1", "u")], None).is_empty());
    assert!(discovery.on_vaults_failed(0).is_empty());
    assert!(discovery.on_fallback(None).is_empty());
    assert_eq!(discovery.phase, Phase::Subscriptions);
    discovery.on_subscriptions_page(vec![some("s1")], None);
    assert!(discovery.on_subscriptions_page(vec![some("s9")], None).is_empty());
    assert_eq!(discovery.slots.len(), 1);
    assert!(discovery.on_vaults_page(5, vec![raw("v1", "u")], None).is_empty());
    let finish = discovery.on_vaults_page(0, vec![raw("v1", "u")], None);
    assert_eq!(finish, vec![DiscoveryAction::Finish { vaults: vec![vault("v1", "u")] }]);
    assert!(discovery.on_vaults_page(0, vec![raw("v2", "u")], None).is_empty());
    assert!(discovery.on_fallback(None).is_empty());
    assert_eq!(discovery.slots[0].vaults, vec![vault("v1", "u")]);
}

#[test]
fn duplicate_vaults_across_subscriptions_are_kept() {
    let (mut discovery, _) = Discovery::new();
    discovery.on_subscriptions_page(vec![some("s1"), some("s2")], None);
    discovery.on_vaults_page(0, vec![raw("v1", "https://v1/")], None);
    let actions = discovery.on_vaults_page(1, vec![raw("v1", "https://v1/")], None);
    assert_eq!(
        actions,
        vec![DiscoveryAction::Finish {
            vaults: vec![vault("v1", "https://v1/"), vault("v1", "https://v1/")]
        }]
    );
}

#[test]
fn incomplete_descriptors_are_dropped() {
    let items = vec![
        raw("a", "ua"),
        RawVault { name: None, uri: some("ub") },
        RawVault { name: some("c"), uri: None },
        RawVault { name: None, uri: None },
        raw("e", "ue"),
    ];
    assert_eq!(complete_vaults(&items), vec![vault("a", "ua"), vault("e", "ue")]);
    assert_eq!(complete_vaults(&Vec::new()), Vec::new());
    assert_eq!(present_ids(&vec![some("s1"), None, some("s2")]), vec!["s1", "s2"]);
    assert_eq!(present_ids(&vec![None, None]), Vec::<String>::new());
}

#[test]
fn requests_follow_the_cursor_or_start_at_the_first_page() {
    let first = DiscoveryAction::FetchSubscriptions { cursor: None };
    assert_eq!(
        request_address(&first).as_deref(),
        Some("https://management.azure.com/subscriptions?api-version=2020-01-01")
    );
    let next = DiscoveryAction::FetchSubscriptions { cursor: some("https://next/page") };
    assert_eq!(request_address(&next).as_deref(), Some("https://next/page"));
    assert_eq!(
        request_address(&fetch_vaults(0, "s1", None)).as_deref(),
        Some("https://management.azure.com/subscriptions/s1/providers/Microsoft.KeyVault/vaults?api-version=2025-05-01")
    );
    assert_eq!(
        request_address(&fetch_vaults(3, "s1", Some("https://next/vaults"))).as_deref(),
        Some("https://next/vaults")
    );
    assert_eq!(request_address(&DiscoveryAction::RunFallback), None);
    assert_eq!(request_address(&DiscoveryAction::Finish { vaults: Vec::new() }), None);
}
