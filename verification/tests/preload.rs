use keyvault_tui::preload::{Preload, DEFAULT_LIMIT};

fn vaults(n: usize) -> Vec<(String, String)> {
    (0..n).map(|i| (format!("v{}", i), format!("https://v{}/", i))).collect()
}

#[test]
fn never_more_listings_in_flight_than_the_limit() {
    let mut preload = Preload::new(vaults(10), 4);
    let mut started = Vec::new();
    while let Some(vault) = preload.start_next() {
        started.push(vault.0);
        assert!(preload.in_flight() <= 4);
    }
    assert_eq!(started, vec!["v0", "v1", "v2", "v3"]);
    assert_eq!(preload.in_flight(), 4);
    assert!(preload.start_next().is_none());
    assert_eq!(preload.in_flight(), 4);
}

#[test]
fn a_finished_listing_frees_one_place() {
    let mut preload = Preload::new(vaults(3), 2);
    assert_eq!(preload.start_next().unwrap().0, "v0");
    assert_eq!(preload.start_next().unwrap().0, "v1");
    assert!(preload.start_next().is_none());
    preload.finished();
    assert_eq!(preload.in_flight(), 1);
    assert_eq!(preload.start_next(), Some(("v2".to_string(), "https://v2/".to_string())));
    assert_eq!(preload.in_flight(), 2);
    assert!(preload.start_next().is_none());
    assert!(!preload.is_done());
    preload.finished();
    preload.finished();
    assert!(preload.is_done());
    preload.finished();
    assert_eq!(preload.in_flight(), 0);
}

#[test]
fn every_vault_is_started_once_under_any_interleaving() {
    let mut preload = Preload::new(vaults(7), DEFAULT_LIMIT);
    let mut started = Vec::new();
    let mut peak = 0;
    let mut round = 0;
    while !preload.is_done() {
        while let Some(vault) = preload.start_next() {
            started.push(vault.0);
        }
        peak = peak.max(preload.in_flight());
        assert!(preload.in_flight() <= DEFAULT_LIMIT);
        let ending = 1 + round % 3;
        for _ in 0..ending {
            preload.finished();
        }
        round += 1;
    }
    assert_eq!(started, vec!["v0", "v1", "v2", "v3", "v4", "v5", "v6"]);
    assert_eq!(peak, 4);
}

#[test]
fn a_limit_of_zero_starts_nothing() {
    let mut preload = Preload::new(vaults(2), 0);
    assert!(preload.start_next().is_none());
    assert_eq!(preload.in_flight(), 0);
    assert!(!preload.is_done());
    let mut empty = Preload::new(Vec::new(), 4);
    assert!(empty.is_done());
    assert!(empty.start_next().is_none());
}
