//! What the outcomes of background work, and the passing of time, do to the
//! state. Outcomes are applied in the order in which they arrive, whatever
//! the user is looking at by then: the caches always take them, the screen
//! only where they are about the selected vault.

use crate::app::{apply_search, apply_vault_search, searched, vault_searched, App, AppView};
use crate::keys::elapsed;
use crate::modal::command_view;
use crate::model::{
    AppEvent, AppScreen, ClipboardOutcome, ClipboardView, Command, CommandView, EntryView,
    EventView, Modal, ModalView, TokenCache, TokenView, VaultCacheEntry,
};
use crate::text::{
    clone_names, clone_pairs, decimal, decimal_digits, join3, join5, lemma_sorted_names_len,
    names_view, owned, pairs_view, sort_names, sorted_names,
};
use vstd::prelude::*;
use vstd::string::*;

verus! {

/// The welcome screen gives way to the vault screen after this many
/// milliseconds.
pub const WELCOME_MS: u64 = 1500;

/// The screen is drawn anew, and the busy animation advanced, every this many
/// milliseconds.
pub const TICK_MS: u64 = 50;

/// The state with the names of a vault written to the cache: sorted, stamped
/// with `now`, in place of what was cached for that vault.
pub open spec fn cached(s: AppView, vault: Seq<char>, names: Seq<Seq<char>>, now: u64) -> AppView {
    AppView {
        vault_secret_cache: s.vault_secret_cache.insert(
            vault,
            EntryView { secrets: sorted_names(names), refreshed_at: now },
        ),
        ..s
    }
}

/// Whether `vault` is the name of the selected vault.
pub open spec fn is_selected(s: AppView, vault: Seq<char>) -> bool {
    match s.current_vault {
        Some(current) => current.0 == vault,
        None => false,
    }
}

/// The text shown after a discovery that found `count` vaults.
pub open spec fn discovered_text(count: nat) -> Seq<char> {
    if count == 0 {
        "No vaults found (press 'v' to retry)"@
    } else {
        "Discovered "@ + decimal_digits(count) + " vault(s). Use ↑/↓ and Enter to select."@
    }
}

/// The text shown after `count` secret names of `vault` were loaded.
pub open spec fn loaded_text(count: nat, vault: Seq<char>) -> Seq<char> {
    "Loaded "@ + decimal_digits(count) + " secrets (from "@ + vault + ")"@
}

/// The outcome of a piece of background work arrives at `now`.
///
/// Discovered vaults replace the vault list, and a preload starts if there are
/// any. Listed names always go to the cache; they reach the secrets list only
/// if their vault is the selected one. A fetched value goes to the value cache
/// and on to the clipboard.
pub open spec fn event_step(s: AppView, event: EventView, now: u64) -> (
    AppView,
    Option<CommandView>,
) {
    match event {
        EventView::VaultsLoaded(vaults) => (
            AppView {
                message: Some(discovered_text(vaults.len())),
                ..vault_searched(AppView { vaults, loading: false, ..s })
            },
            if vaults.len() == 0 {
                None
            } else {
                Some(CommandView::PreloadVaults { vaults })
            },
        ),
        EventView::SecretsUpdated(vault, names) => if is_selected(s, vault) {
            (
                AppView {
                    loading: false,
                    message: Some(loaded_text(names.len(), vault)),
                    ..searched(AppView { secrets: sorted_names(names), ..cached(s, vault, names, now) })
                },
                None,
            )
        } else {
            (cached(s, vault, names, now), None)
        },
        EventView::CacheVaultSecrets(vault, names) => (cached(s, vault, names, now), None),
        EventView::OpenEdit(name, value) => (
            AppView { modal: Some(ModalView::Edit { name, value }), loading: false, ..s },
            None,
        ),
        EventView::Message(text) => (AppView { loading: false, message: Some(text), ..s }, None),
        EventView::TokenCached(_token, fetched_at, ttl) => (
            AppView {
                token_cache: Some(TokenView { token: Seq::empty(), fetched_at, ttl }),
                ..s
            },
            None,
        ),
        EventView::SecretValueLoaded(vault, name, value) => (
            AppView {
                secret_value_cache: s.secret_value_cache.insert((vault, name), value),
                loading: false,
                ..s
            },
            Some(CommandView::CopyToClipboard { name, value, cached: false }),
        ),
    }
}

/// The text shown after an attempt to copy the secret `name`.
pub open spec fn clipboard_text(name: Seq<char>, from_cache: bool, outcome: ClipboardView) -> Seq<
    char,
> {
    match outcome {
        ClipboardView::Copied => if from_cache {
            "Secret '"@ + name + "' copied to clipboard (cached)"@
        } else {
            "Secret '"@ + name + "' copied to clipboard"@
        },
        ClipboardView::Rejected => "Clipboard error"@,
        ClipboardView::Unavailable(why) => "Clipboard init error: "@ + why,
    }
}

/// The phase of the busy animation after `phase`; after the last one it
/// starts over.
pub open spec fn next_phase(phase: i8) -> i8 {
    if phase == i8::MAX {
        0
    } else {
        (phase + 1) as i8
    }
}

/// The state after a tick: the busy animation advances while work is
/// awaited.
pub open spec fn ticked(s: AppView) -> AppView {
    if s.loading {
        AppView { spinner_phase: next_phase(s.spinner_phase), ..s }
    } else {
        s
    }
}

/// The state at `now` as far as the welcome screen goes: once it has been up
/// for `WELCOME_MS`, the vault screen takes its place.
pub open spec fn welcome_checked(s: AppView, now: u64) -> AppView {
    if s.screen == AppScreen::Welcome && elapsed(now, s.welcome_shown_at) >= WELCOME_MS {
        AppView { screen: AppScreen::VaultSelection, ..s }
    } else {
        s
    }
}

/// The state that awaits the first discovery.
pub open spec fn started(s: AppView) -> AppView {
    AppView { loading: true, message: Some("Discovering vaults..."@), ..s }
}

/// The listing that follows a write: after a secret was set or deleted, the
/// names of its vault are listed in full.
pub open spec fn followup(command: CommandView) -> Option<CommandView> {
    match command {
        CommandView::SetSecret { vault_name, vault_uri, .. } => Some(
            CommandView::ListFull { vault_name, vault_uri },
        ),
        CommandView::DeleteSecret { vault_name, vault_uri, .. } => Some(
            CommandView::ListFull { vault_name, vault_uri },
        ),
        _ => None,
    }
}

/// Writes the sorted names of a vault to the cache and returns them.
fn cache_names(app: &mut App, vault: &String, names: Vec<String>, now: u64) -> (sorted: Vec<String>)
    requires
        old(app).wf(),
    ensures
        final(app).wf(),
        final(app)@ == cached(old(app)@, vault@, names_view(names@), now),
        names_view(sorted@) == sorted_names(names_view(names@)),
        sorted@.len() == names@.len(),
{
    let sorted = sort_names(names);
    proof {
        lemma_sorted_names_len(names_view(names@));
        assert(names_view(sorted@).len() == sorted@.len());
    }
    let entry = VaultCacheEntry { secrets: clone_names(&sorted), refreshed_at: now };
    app.vault_secret_cache.insert(vault.clone(), entry);
    sorted
}

/// Whether `vault` is the name of the selected vault.
fn shows(app: &App, vault: &String) -> (yes: bool)
    ensures
        yes == is_selected(app@, vault@),
{
    match &app.current_vault {
        Some(current) => current.0 == *vault,
        None => false,
    }
}

/// The text shown after a discovery that found `count` vaults.
fn discovered(count: usize) -> (text: String)
    ensures
        text@ == discovered_text(count as nat),
{
    if count == 0 {
        owned("No vaults found (press 'v' to retry)")
    } else {
        let digits = decimal(count);
        join3("Discovered ", digits.as_str(), " vault(s). Use ↑/↓ and Enter to select.")
    }
}

/// Applies the outcome of a piece of background work that arrives at `now`,
/// and returns the work that follows from it, if any.
pub fn apply_event(app: &mut App, event: AppEvent, now: u64) -> (command: Option<Command>)
    requires
        old(app).wf(),
    ensures
        final(app).wf(),
        (final(app)@, command_view(command)) == event_step(old(app)@, event@, now),
{
    match event {
        AppEvent::VaultsLoaded(vaults) => {
            let count = vaults.len();
            let command = if count == 0 {
                None
            } else {
                Some(Command::PreloadVaults { vaults: clone_pairs(&vaults) })
            };
            assert(pairs_view(vaults@).len() == count);
            app.vaults = vaults;
            app.loading = false;
            apply_vault_search(app);
            app.message = Some(discovered(count));
            command
        },
        AppEvent::SecretsUpdated(vault, names) => {
            let visible = shows(app, &vault);
            let count = names.len();
            assert(names_view(names@).len() == count);
            let sorted = cache_names(app, &vault, names, now);
            if visible {
                app.secrets = sorted;
                apply_search(app);
                app.loading = false;
                let digits = decimal(count);
                app.message = Some(
                    join5("Loaded ", digits.as_str(), " secrets (from ", vault.as_str(), ")"),
                );
            }
            None
        },
        AppEvent::CacheVaultSecrets(vault, names) => {
            let _ = cache_names(app, &vault, names, now);
            None
        },
        AppEvent::OpenEdit(name, value) => {
            app.modal = Some(Modal::Edit { name, value });
            app.loading = false;
            None
        },
        AppEvent::Message(text) => {
            app.loading = false;
            app.message = Some(text);
            None
        },
        AppEvent::TokenCached(_token, fetched_at, ttl) => {
            app.token_cache = Some(TokenCache { _token: String::new(), fetched_at, ttl });
            None
        },
        AppEvent::SecretValueLoaded(vault, name, value) => {
            app.secret_value_cache.insert((vault, name.clone()), value.clone());
            app.loading = false;
            Some(Command::CopyToClipboard { name, value, cached: false })
        },
    }
}

/// Records how an attempt to copy the secret `name` ended.
pub fn clipboard_done(app: &mut App, name: &str, from_cache: bool, outcome: ClipboardOutcome)
    requires
        old(app).wf(),
    ensures
        final(app).wf(),
        final(app)@ == (AppView {
            message: Some(clipboard_text(name@, from_cache, outcome@)),
            ..old(app)@
        }),
{
    let text = match outcome {
        ClipboardOutcome::Copied => {
            if from_cache {
                join3("Secret '", name, "' copied to clipboard (cached)")
            } else {
                join3("Secret '", name, "' copied to clipboard")
            }
        },
        ClipboardOutcome::Rejected => owned("Clipboard error"),
        ClipboardOutcome::Unavailable(why) => {
            let text = join3("Clipboard init error: ", why.as_str(), "");
            proof {
                reveal_strlit("");
                assert(text@ =~= "Clipboard init error: "@ + why@);
            }
            text
        },
    };
    app.message = Some(text);
}

/// Whether a tick is due at `now`, the last one having been at `last_tick`.
pub fn tick_due(last_tick: u64, now: u64) -> (due: bool)
    ensures
        due == (elapsed(now, last_tick) >= TICK_MS),
{
    now > last_tick && now - last_tick >= TICK_MS
}

/// Advances the busy animation by one tick while work is awaited.
pub fn on_tick(app: &mut App)
    requires
        old(app).wf(),
    ensures
        final(app).wf(),
        final(app)@ == ticked(old(app)@),
{
    if app.loading {
        app.spinner_phase = if app.spinner_phase == i8::MAX {
            0
        } else {
            app.spinner_phase + 1
        };
    }
}

/// Leaves the welcome screen once it has been up long enough.
pub fn dismiss_welcome(app: &mut App, now: u64)
    requires
        old(app).wf(),
    ensures
        final(app).wf(),
        final(app)@ == welcome_checked(old(app)@, now),
{
    match app.screen {
        AppScreen::Welcome => {
            if now > app.welcome_shown_at && now - app.welcome_shown_at >= WELCOME_MS {
                app.screen = AppScreen::VaultSelection;
            }
        },
        _ => {},
    }
}

/// Marks the state as awaiting the first discovery and asks for it.
pub fn begin_discovery(app: &mut App) -> (command: Command)
    requires
        old(app).wf(),
    ensures
        final(app).wf(),
        final(app)@ == started(old(app)@),
        command@ == CommandView::DiscoverVaults,
{
    app.loading = true;
    app.message = Some(owned("Discovering vaults..."));
    Command::DiscoverVaults
}

/// The listing to start once a write has been carried out, whether it
/// succeeded or not.
pub fn write_followup(command: &Command) -> (next: Option<Command>)
    ensures
        command_view(next) == followup(command@),
{
    match command {
        Command::SetSecret { vault_name, vault_uri, .. } => Some(
            Command::ListFull { vault_name: vault_name.clone(), vault_uri: vault_uri.clone() },
        ),
        Command::DeleteSecret { vault_name, vault_uri, .. } => Some(
            Command::ListFull { vault_name: vault_name.clone(), vault_uri: vault_uri.clone() },
        ),
        _ => None,
    }
}

} // verus!
