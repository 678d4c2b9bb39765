use keyvault_tui::listing::ListingMode;
use keyvault_tui::model::Command;
use keyvault_tui::outcome::{failure_text, listing_mode, success_text, Stage};

fn set(created: bool) -> Command {
    Command::SetSecret {
        vault_name: "v1".to_string(),
        vault_uri: "https://v1/".to_string(),
        name: "key".to_string(),
        value: "value".to_string(),
        created,
    }
}

fn delete() -> Command {
    Command::DeleteSecret {
        vault_name: "v1".to_string(),
        vault_uri: "https://v1/".to_string(),
        name: "key".to_string(),
    }
}

fn list(refresh: bool) -> Command {
    Command::ListIncremental {
        vault_name: "v1".to_string(),
        vault_uri: "https://v1/".to_string(),
        refresh,
    }
}

fn list_full() -> Command {
    Command::ListFull { vault_name: "v1".to_string(), vault_uri: "https://v1/".to_string() }
}

fn preload() -> Command {
    Command::PreloadVaults { vaults: vec![("v1".to_string(), "https://v1/".to_string())] }
}

fn fetch_for_edit() -> Command {
    Command::FetchForEdit { vault_uri: "https://v1/".to_string(), name: "key".to_string() }
}

fn fetch_value() -> Command {
    Command::FetchValue {
        vault_name: "v1".to_string(),
        vault_uri: "https://v1/".to_string(),
        name: "key".to_string(),
    }
}

fn copy() -> Command {
    Command::CopyToClipboard { name: "key".to_string(), value: "v".to_string(), cached: true }
}

#[test]
fn preload_lists_silently_and_a_write_is_followed_in_full() {
    assert_eq!(listing_mode(&preload()), Some(ListingMode::Silent));
    assert_eq!(listing_mode(&list_full()), Some(ListingMode::Full));
    assert_eq!(listing_mode(&list(false)), Some(ListingMode::Incremental));
    assert_eq!(listing_mode(&list(true)), Some(ListingMode::Incremental));
    assert_eq!(listing_mode(&set(true)), None);
    assert_eq!(listing_mode(&delete()), None);
    assert_eq!(listing_mode(&Command::DiscoverVaults), None);
    assert_eq!(listing_mode(&Command::Quit), None);
}

#[test]
fn successful_writes_say_what_was_written() {
    assert_eq!(success_text(&set(true)).as_deref(), Some("Secret 'key' created/updated"));
    assert_eq!(success_text(&set(false)).as_deref(), Some("Secret 'key' updated"));
    assert_eq!(success_text(&delete()).as_deref(), Some("Deleted 'key'. (soft-delete)"));
    assert_eq!(success_text(&list(false)), None);
    assert_eq!(success_text(&fetch_value()), None);
    assert_eq!(success_text(&Command::RefreshToken), None);
}

#[test]
fn failed_writes_say_what_failed() {
    assert_eq!(
        failure_text(&set(true), Stage::Prepare, "bad").as_deref(),
        Some("Failed to prepare secret params: bad")
    );
    assert_eq!(
        failure_text(&set(false), Stage::Prepare, "bad").as_deref(),
        Some("Failed to prepare secret params: bad")
    );
    assert_eq!(
        failure_text(&set(true), Stage::Call, "denied").as_deref(),
        Some("Failed to set secret: denied")
    );
    assert_eq!(
        failure_text(&set(false), Stage::Call, "denied").as_deref(),
        Some("Failed to update secret: denied")
    );
    assert_eq!(
        failure_text(&set(false), Stage::Read, "").as_deref(),
        Some("Failed to update secret: ")
    );
    assert_eq!(
        failure_text(&delete(), Stage::Call, "gone").as_deref(),
        Some("Failed to delete: gone")
    );
}

#[test]
fn failed_fetches_tell_the_call_from_the_response() {
    assert_eq!(
        failure_text(&fetch_for_edit(), Stage::Call, "e").as_deref(),
        Some("Failed to get secret for edit: e")
    );
    assert_eq!(
        failure_text(&fetch_for_edit(), Stage::Read, "e").as_deref(),
        Some("Failed to parse secret for edit: e")
    );
    assert_eq!(
        failure_text(&fetch_value(), Stage::Call, "e").as_deref(),
        Some("Failed to get secret: e")
    );
    assert_eq!(
        failure_text(&fetch_value(), Stage::Read, "e").as_deref(),
        Some("Failed to read secret value: e")
    );
}

#[test]
fn failed_listings_are_shown_except_in_a_preload() {
    assert_eq!(
        failure_text(&list(false), Stage::Call, "timeout").as_deref(),
        Some("Failed to list secrets: timeout")
    );
    assert_eq!(
        failure_text(&list(true), Stage::Call, "timeout").as_deref(),
        Some("Refresh error: timeout")
    );
    assert_eq!(
        failure_text(&list_full(), Stage::Call, "timeout").as_deref(),
        Some("Failed to list secrets: timeout")
    );
    assert_eq!(failure_text(&preload(), Stage::Call, "timeout"), None);
}

#[test]
fn failed_token_and_discovery_are_shown() {
    assert_eq!(
        failure_text(&Command::RefreshToken, Stage::Call, "no login").as_deref(),
        Some("Failed to refresh token: no login")
    );
    assert_eq!(
        failure_text(&Command::DiscoverVaults, Stage::Call, "no login").as_deref(),
        Some("Vault discovery failed: no login")
    );
    assert_eq!(failure_text(&Command::Quit, Stage::Call, "x"), None);
    assert_eq!(failure_text(&copy(), Stage::Call, "x"), None);
}
