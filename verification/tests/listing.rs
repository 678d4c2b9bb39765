use keyvault_tui::listing::{Listing, ListingMode, BATCH};
use keyvault_tui::model::AppEvent;

fn name(i: usize) -> String {
    format!("secret-{:03}", 999 - i)
}

#[test]
fn incremental_listing_reports_every_batch_and_at_the_end() {
    let mut listing = Listing::new("v1".to_string(), ListingMode::Incremental);
    let mut gathered = Vec::new();
    for i in 0..45 {
        let events = listing.on_item(Some(name(i)));
        gathered.push(name(i));
        if (i + 1) % BATCH == 0 {
            let mut sorted = gathered.clone();
            sorted.sort();
            assert_ne!(sorted, gathered);
            assert_eq!(
                events,
                vec![
                    AppEvent::SecretsUpdated("v1".to_string(), sorted.clone()),
                    AppEvent::CacheVaultSecrets("v1".to_string(), sorted),
                ]
            );
        } else {
            assert!(events.is_empty());
        }
    }
    let mut sorted = gathered.clone();
    sorted.sort();
    assert_eq!(
        listing.finish(),
        vec![
            AppEvent::SecretsUpdated("v1".to_string(), sorted.clone()),
            AppEvent::CacheVaultSecrets("v1".to_string(), sorted),
        ]
    );
}

#[test]
fn item_without_name_adds_nothing() {
    let mut listing = Listing::new("v1".to_string(), ListingMode::Full);
    assert!(listing.on_item(None).is_empty());
    assert!(listing.on_item(Some("b".to_string())).is_empty());
    assert!(listing.on_item(None).is_empty());
    assert!(listing.on_item(Some("a".to_string())).is_empty());
    assert_eq!(listing.names, vec!["b".to_string(), "a".to_string()]);
}

#[test]
fn incremental_listing_reports_only_when_a_name_fills_a_batch() {
    let mut listing = Listing::new("v1".to_string(), ListingMode::Incremental);
    assert!(listing.on_item(None).is_empty());
    for i in 0..19 {
        assert!(listing.on_item(Some(name(i))).is_empty());
    }
    assert!(listing.on_item(None).is_empty());
    let events = listing.on_item(Some(name(19)));
    let mut sorted: Vec<String> = (0..20).map(name).collect();
    sorted.sort();
    assert_eq!(
        events,
        vec![
            AppEvent::SecretsUpdated("v1".to_string(), sorted.clone()),
            AppEvent::CacheVaultSecrets("v1".to_string(), sorted),
        ]
    );
    assert!(listing.on_item(None).is_empty());
    assert_eq!(listing.names.len(), 20);
}

#[test]
fn every_list_sent_is_a_sorted_prefix_that_only_grows() {
    let mut listing = Listing::new("v1".to_string(), ListingMode::Incremental);
    let mut events = Vec::new();
    for i in 0..65 {
        events.extend(listing.on_item(Some(name(i))));
        if i % 7 == 0 {
            events.extend(listing.on_item(None));
        }
    }
    events.extend(listing.finish());
    let arrived: Vec<String> = (0..65).map(name).collect();
    let mut last = 0;
    for (at, event) in events.iter().enumerate() {
        let (vault, names) = match event {
            AppEvent::SecretsUpdated(vault, names) => (vault, names),
            AppEvent::CacheVaultSecrets(vault, names) => (vault, names),
            other => panic!("unexpected event {:?}", other),
        };
        assert_eq!(vault, "v1");
        let mut prefix = arrived[..names.len()].to_vec();
        prefix.sort();
        assert_eq!(names, &prefix);
        assert!(names.len() >= last);
        last = names.len();
        if at + 2 < events.len() {
            assert!(names.len() > 0 && names.len() % BATCH == 0);
        }
    }
    assert_eq!(events.len(), 8);
    assert_eq!(last, 65);
}

#[test]
fn full_listing_reports_once_cache_first() {
    let mut listing = Listing::new("v2".to_string(), ListingMode::Full);
    for i in 0..40 {
        assert!(listing.on_item(Some(name(i))).is_empty());
    }
    let mut sorted: Vec<String> = (0..40).map(name).collect();
    sorted.sort();
    assert_eq!(
        listing.finish(),
        vec![
            AppEvent::CacheVaultSecrets("v2".to_string(), sorted.clone()),
            AppEvent::SecretsUpdated("v2".to_string(), sorted),
        ]
    );
}

#[test]
fn silent_listing_reports_for_the_cache_alone() {
    let mut listing = Listing::new("v3".to_string(), ListingMode::Silent);
    for n in ["zeta", "alpha", "mid"] {
        assert!(listing.on_item(Some(n.to_string())).is_empty());
    }
    assert_eq!(
        listing.finish(),
        vec![AppEvent::CacheVaultSecrets(
            "v3".to_string(),
            vec!["alpha".to_string(), "mid".to_string(), "zeta".to_string()]
        )]
    );
}

#[test]
fn empty_listing_ends_with_an_empty_list() {
    let listing = Listing::new("v4".to_string(), ListingMode::Silent);
    assert_eq!(listing.finish(), vec![AppEvent::CacheVaultSecrets("v4".to_string(), Vec::new())]);
}
