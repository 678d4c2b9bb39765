//! Key handling on the screens: search input, navigation in the two lists,
//! and the keys that start background work.

use crate::app::{
    apply_search, apply_vault_search, name_under_cursor, searched, token_stale, vault_searched,
    vault_under_cursor, App, AppView,
};
use crate::modal::{command_view, current_vault_of, handle_modal_key, modal_step, without_last};
use crate::model::{
    commands_view, AddInputMode, AppScreen, Command, CommandView, Key, Modal, ModalView,
};
use crate::text::{clone_names, join3, owned, pop_char, push_char};
use vstd::prelude::*;

verus! {

/// Cached secret names older than this many milliseconds are listed anew when
/// their vault is opened.
pub const STALE_AFTER_MS: u64 = 1_800_000;

/// Whether the key moves a cursor down.
pub open spec fn moves_down(key: Key) -> bool {
    key == Key::Down || key == Key::Char('j')
}

/// Whether the key moves a cursor up.
pub open spec fn moves_up(key: Key) -> bool {
    key == Key::Up || key == Key::Char('k')
}

/// Whether the key leaves the program.
pub open spec fn quits(key: Key) -> bool {
    key == Key::Esc || key == Key::Char('q')
}

/// A cursor one item further down a list of `len` items, stopping at the last.
pub open spec fn cursor_down(cursor: usize, len: nat) -> usize {
    if len == 0 {
        cursor
    } else if cursor + 1 < len {
        (cursor + 1) as usize
    } else {
        (len - 1) as usize
    }
}

/// A cursor one item further up, stopping at the first.
pub open spec fn cursor_up(cursor: usize) -> usize {
    if cursor > 0 {
        (cursor - 1) as usize
    } else {
        cursor
    }
}

/// The milliseconds from `then` to `now`, none if `then` is later.
pub open spec fn elapsed(now: u64, then: u64) -> int {
    if now > then {
        now - then
    } else {
        0
    }
}

/// A key press while the secret search is typed: characters and Backspace
/// change the query and run the filter anew, Enter keeps the query and ends
/// typing, Esc clears the query and ends typing.
pub open spec fn search_step(s: AppView, key: Key) -> AppView {
    match key {
        Key::Esc => searched(AppView { search_mode: false, search_query: Seq::empty(), ..s }),
        Key::Enter => AppView { search_mode: false, ..s },
        Key::Backspace => searched(AppView { search_query: without_last(s.search_query), ..s }),
        Key::Char(c) => searched(AppView { search_query: s.search_query.push(c), ..s }),
        _ => s,
    }
}

/// A key press while the vault search is typed; as for the secret search.
pub open spec fn vault_search_step(s: AppView, key: Key) -> AppView {
    match key {
        Key::Esc => vault_searched(
            AppView { vault_search_mode: false, vault_search_query: Seq::empty(), ..s },
        ),
        Key::Enter => AppView { vault_search_mode: false, ..s },
        Key::Backspace => vault_searched(
            AppView { vault_search_query: without_last(s.vault_search_query), ..s },
        ),
        Key::Char(c) => vault_searched(
            AppView { vault_search_query: s.vault_search_query.push(c), ..s },
        ),
        _ => s,
    }
}

/// The state that awaits a discovery.
pub open spec fn discovering(s: AppView) -> AppView {
    AppView { loading: true, message: Some("Refreshing vaults..."@), ..s }
}

/// Opening the vault `vault` at `now`: with cached names, they are shown at
/// once, and listed anew in the background if they are stale; without, an
/// incremental listing starts.
pub open spec fn open_vault(s: AppView, vault: (Seq<char>, Seq<char>), now: u64) -> (
    AppView,
    Option<CommandView>,
) {
    let chosen = AppView { current_vault: Some(vault), screen: AppScreen::Secrets, ..s };
    if s.vault_secret_cache.contains_key(vault.0) {
        let entry = s.vault_secret_cache[vault.0];
        let shown = searched(AppView { secrets: entry.secrets, ..chosen });
        (
            AppView {
                loading: false,
                message: Some("Using cached secrets for '"@ + vault.0 + "'"@),
                ..shown
            },
            if elapsed(now, entry.refreshed_at) > STALE_AFTER_MS {
                Some(CommandView::ListFull { vault_name: vault.0, vault_uri: vault.1 })
            } else {
                None
            },
        )
    } else {
        (
            AppView { loading: true, message: Some("Loading secrets..."@), ..chosen },
            Some(CommandView::ListIncremental {
                vault_name: vault.0,
                vault_uri: vault.1,
                refresh: false,
            }),
        )
    }
}

/// A key press on the vault screen outside the search: the cursor keys move in
/// the displayed vaults, Enter opens the vault under the cursor, `v` discovers
/// the vaults anew, `/` starts the vault search with an empty query.
pub open spec fn vault_screen_step(s: AppView, key: Key, now: u64) -> (
    AppView,
    Option<CommandView>,
) {
    if moves_down(key) {
        (AppView { vault_selected: cursor_down(s.vault_selected, s.displayed_vaults.len()), ..s }, None)
    } else if moves_up(key) {
        (AppView { vault_selected: cursor_up(s.vault_selected), ..s }, None)
    } else if key == Key::Enter {
        match vault_under_cursor(s) {
            Some(vault) => open_vault(s, vault, now),
            None => (s, None),
        }
    } else if key == Key::Char('v') {
        (discovering(s), Some(CommandView::DiscoverVaults))
    } else if key == Key::Char('/') {
        (
            vault_searched(
                AppView { vault_search_mode: true, vault_search_query: Seq::empty(), ..s },
            ),
            None,
        )
    } else {
        (s, None)
    }
}

/// The Enter key on the secrets screen: the value of the secret under the
/// cursor goes to the clipboard, from the value cache if it is there, else
/// after it was fetched.
pub open spec fn copy_step(s: AppView) -> (AppView, Option<CommandView>) {
    match name_under_cursor(s) {
        None => (s, None),
        Some(name) => match s.current_vault {
            None => (AppView { message: Some("No vault selected"@), ..s }, None),
            Some(vault) => if s.secret_value_cache.contains_key((vault.0, name)) {
                (
                    s,
                    Some(
                        CommandView::CopyToClipboard {
                            name,
                            value: s.secret_value_cache[(vault.0, name)],
                            cached: true,
                        },
                    ),
                )
            } else {
                (
                    AppView { loading: true, message: Some("Fetching secret value..."@), ..s },
                    Some(
                        CommandView::FetchValue { vault_name: vault.0, vault_uri: vault.1, name },
                    ),
                )
            },
        },
    }
}

/// The `e` key on the secrets screen: the value of the secret under the cursor
/// is fetched for the edit dialog.
pub open spec fn edit_request_step(s: AppView) -> (AppView, Option<CommandView>) {
    match name_under_cursor(s) {
        None => (s, None),
        Some(name) => match s.current_vault {
            None => (AppView { message: Some("No vault selected"@), ..s }, None),
            Some(vault) => (
                AppView { loading: true, message: Some("Fetching secret for edit..."@), ..s },
                Some(CommandView::FetchForEdit { vault_uri: vault.1, name }),
            ),
        },
    }
}

/// The `r` key on the secrets screen: the secrets of the selected vault are
/// listed anew.
pub open spec fn relist_step(s: AppView) -> (AppView, Option<CommandView>) {
    match s.current_vault {
        None => (AppView { message: Some("No vault selected"@), ..s }, None),
        Some(vault) => (
            AppView { loading: true, message: Some("Refreshing secrets..."@), ..s },
            Some(CommandView::ListIncremental {
                vault_name: vault.0,
                vault_uri: vault.1,
                refresh: true,
            }),
        ),
    }
}

/// A key press on the secrets screen outside dialog and search.
pub open spec fn secrets_screen_step(s: AppView, key: Key) -> (AppView, Option<CommandView>) {
    if moves_down(key) {
        (AppView { selected: cursor_down(s.selected, s.displayed_secrets.len()), ..s }, None)
    } else if moves_up(key) {
        (
            AppView {
                selected: if s.displayed_secrets.len() > 0 {
                    cursor_up(s.selected)
                } else {
                    s.selected
                },
                ..s
            },
            None,
        )
    } else if key == Key::Char('v') {
        (
            discovering(AppView { screen: AppScreen::VaultSelection, ..s }),
            Some(CommandView::DiscoverVaults),
        )
    } else if key == Key::Char('r') {
        relist_step(s)
    } else if key == Key::Char('a') {
        (
            AppView {
                modal: Some(
                    ModalView::Add {
                        name: Seq::empty(),
                        value: Seq::empty(),
                        input_mode: AddInputMode::Name,
                    },
                ),
                ..s
            },
            None,
        )
    } else if key == Key::Char('d') {
        match name_under_cursor(s) {
            Some(name) => (AppView { modal: Some(ModalView::ConfirmDelete { name }), ..s }, None),
            None => (s, None),
        }
    } else if key == Key::Char('/') {
        (searched(AppView { search_mode: true, search_query: Seq::empty(), ..s }), None)
    } else if key == Key::Char('e') {
        edit_request_step(s)
    } else if key == Key::Enter {
        copy_step(s)
    } else {
        (s, None)
    }
}

/// The commands of a step: a token refresh first, if one is due, then the
/// command of the step itself, if it has one.
pub open spec fn step_commands(refresh: bool, command: Option<CommandView>) -> Seq<CommandView> {
    let first = if refresh {
        seq![CommandView::RefreshToken]
    } else {
        Seq::empty()
    };
    match command {
        Some(c) => first.push(c),
        None => first,
    }
}

/// A key press at `now`, routed in this order: the welcome screen gives way to
/// the vault screen on any key; an open dialog takes the key; then a search
/// that is being typed; then the quit keys; and at last the screen, before
/// which a stale or absent token is refreshed.
pub open spec fn key_step(s: AppView, key: Key, now: u64) -> (AppView, Seq<CommandView>) {
    if s.screen == AppScreen::Welcome {
        (AppView { screen: AppScreen::VaultSelection, ..s }, Seq::empty())
    } else if s.modal.is_some() {
        (modal_step(s, key).0, step_commands(false, modal_step(s, key).1))
    } else if s.search_mode {
        (search_step(s, key), Seq::empty())
    } else if s.vault_search_mode {
        (vault_search_step(s, key), Seq::empty())
    } else if quits(key) {
        (s, seq![CommandView::Quit])
    } else {
        let step = match s.screen {
            AppScreen::VaultSelection => vault_screen_step(s, key, now),
            AppScreen::Secrets => secrets_screen_step(s, key),
            AppScreen::Welcome => (s, None),
        };
        (step.0, step_commands(token_stale(s, now), step.1))
    }
}

fn is_down(key: Key) -> (yes: bool)
    ensures
        yes == moves_down(key),
{
    match key {
        Key::Down => true,
        Key::Char(c) => c == 'j',
        _ => false,
    }
}

fn is_up(key: Key) -> (yes: bool)
    ensures
        yes == moves_up(key),
{
    match key {
        Key::Up => true,
        Key::Char(c) => c == 'k',
        _ => false,
    }
}

fn is_quit(key: Key) -> (yes: bool)
    ensures
        yes == quits(key),
{
    match key {
        Key::Esc => true,
        Key::Char(c) => c == 'q',
        _ => false,
    }
}

fn is_char(key: Key, wanted: char) -> (yes: bool)
    ensures
        yes == (key == Key::Char(wanted)),
{
    match key {
        Key::Char(c) => c == wanted,
        _ => false,
    }
}

fn is_enter(key: Key) -> (yes: bool)
    ensures
        yes == (key == Key::Enter),
{
    match key {
        Key::Enter => true,
        _ => false,
    }
}

/// Moves a cursor one item down a list of `len` items.
fn step_down(cursor: usize, len: usize) -> (next: usize)
    ensures
        next == cursor_down(cursor, len as nat),
{
    if len == 0 {
        cursor
    } else if cursor < len - 1 {
        cursor + 1
    } else {
        len - 1
    }
}

/// Moves a cursor one item up.
fn step_up(cursor: usize) -> (next: usize)
    ensures
        next == cursor_up(cursor),
{
    if cursor > 0 {
        cursor - 1
    } else {
        cursor
    }
}

/// Puts the commands of a step in order.
fn collect(refresh: bool, command: Option<Command>) -> (commands: Vec<Command>)
    ensures
        commands_view(commands@) == step_commands(refresh, command_view(command)),
        commands@.len() == step_commands(refresh, command_view(command)).len(),
{
    let mut commands: Vec<Command> = Vec::new();
    if refresh {
        commands.push(Command::RefreshToken);
    }
    match command {
        Some(c) => {
            commands.push(c);
        },
        None => {},
    }
    assert(commands_view(commands@) =~= step_commands(refresh, command_view(command)));
    commands
}

/// Handles a key press while the secret search is typed.
pub fn handle_search_key(app: &mut App, key: Key)
    requires
        old(app).wf(),
    ensures
        final(app).wf(),
        final(app)@ == search_step(old(app)@, key),
{
    match key {
        Key::Esc => {
            app.search_mode = false;
            app.search_query = String::new();
            apply_search(app);
        },
        Key::Enter => {
            app.search_mode = false;
        },
        Key::Backspace => {
            let _ = pop_char(&mut app.search_query);
            apply_search(app);
        },
        Key::Char(c) => {
            push_char(&mut app.search_query, c);
            apply_search(app);
        },
        _ => {},
    }
}

/// Handles a key press while the vault search is typed.
pub fn handle_vault_search_key(app: &mut App, key: Key)
    requires
        old(app).wf(),
    ensures
        final(app).wf(),
        final(app)@ == vault_search_step(old(app)@, key),
{
    match key {
        Key::Esc => {
            app.vault_search_mode = false;
            app.vault_search_query = String::new();
            apply_vault_search(app);
        },
        Key::Enter => {
            app.vault_search_mode = false;
        },
        Key::Backspace => {
            let _ = pop_char(&mut app.vault_search_query);
            apply_vault_search(app);
        },
        Key::Char(c) => {
            push_char(&mut app.vault_search_query, c);
            apply_vault_search(app);
        },
        _ => {},
    }
}

/// Opens a vault: selects it, goes to the secrets screen, and shows what the
/// cache holds for it or starts a listing.
fn open_vault_now(app: &mut App, vault: (String, String), now: u64) -> (command: Option<Command>)
    requires
        old(app).wf(),
        !old(app).vault_search_mode,
    ensures
        final(app).wf(),
        (final(app)@, command_view(command)) == open_vault(old(app)@, (vault.0@, vault.1@), now),
{
    let name = vault.0;
    let uri = vault.1;
    app.current_vault = Some((name.clone(), uri.clone()));
    app.screen = AppScreen::Secrets;
    let cached = match app.vault_secret_cache.get(&name) {
        Some(entry) => Some((clone_names(&entry.secrets), entry.refreshed_at)),
        None => None,
    };
    match cached {
        Some(found) => {
            app.secrets = found.0;
            apply_search(app);
            app.loading = false;
            app.message = Some(join3("Using cached secrets for '", name.as_str(), "'"));
            let age: u64 = if now > found.1 {
                now - found.1
            } else {
                0
            };
            if age > STALE_AFTER_MS {
                Some(Command::ListFull { vault_name: name, vault_uri: uri })
            } else {
                None
            }
        },
        None => {
            app.loading = true;
            app.message = Some(owned("Loading secrets..."));
            Some(Command::ListIncremental { vault_name: name, vault_uri: uri, refresh: false })
        },
    }
}

/// Handles a key press on the vault screen outside the search.
fn vault_screen_key(app: &mut App, key: Key, now: u64) -> (command: Option<Command>)
    requires
        old(app).wf(),
        old(app).screen == AppScreen::VaultSelection,
        !old(app).vault_search_mode,
    ensures
        final(app).wf(),
        (final(app)@, command_view(command)) == vault_screen_step(old(app)@, key, now),
{
    if is_down(key) {
        app.vault_selected = step_down(app.vault_selected, app.displayed_vaults.len());
        None
    } else if is_up(key) {
        app.vault_selected = step_up(app.vault_selected);
        None
    } else if is_enter(key) {
        match app.selected_vault() {
            Some(vault) => open_vault_now(app, vault, now),
            None => None,
        }
    } else if is_char(key, 'v') {
        app.loading = true;
        app.message = Some(owned("Refreshing vaults..."));
        Some(Command::DiscoverVaults)
    } else if is_char(key, '/') {
        app.vault_search_mode = true;
        app.vault_search_query = String::new();
        apply_vault_search(app);
        None
    } else {
        None
    }
}

/// Handles the Enter key on the secrets screen.
fn copy_key(app: &mut App) -> (command: Option<Command>)
    requires
        old(app).wf(),
    ensures
        final(app).wf(),
        (final(app)@, command_view(command)) == copy_step(old(app)@),
{
    match app.selected_name() {
        None => None,
        Some(name) => match current_vault_of(app) {
            None => {
                app.message = Some(owned("No vault selected"));
                None
            },
            Some(vault) => {
                let key = (vault.0.clone(), name.clone());
                let cached = match app.secret_value_cache.get(&key) {
                    Some(value) => Some(value.clone()),
                    None => None,
                };
                match cached {
                    Some(value) => Some(Command::CopyToClipboard { name, value, cached: true }),
                    None => {
                        app.loading = true;
                        app.message = Some(owned("Fetching secret value..."));
                        Some(
                            Command::FetchValue { vault_name: vault.0, vault_uri: vault.1, name },
                        )
                    },
                }
            },
        },
    }
}

/// Handles the `e` key on the secrets screen.
fn edit_request_key(app: &mut App) -> (command: Option<Command>)
    requires
        old(app).wf(),
    ensures
        final(app).wf(),
        (final(app)@, command_view(command)) == edit_request_step(old(app)@),
{
    match app.selected_name() {
        None => None,
        Some(name) => match current_vault_of(app) {
            None => {
                app.message = Some(owned("No vault selected"));
                None
            },
            Some(vault) => {
                app.loading = true;
                app.message = Some(owned("Fetching secret for edit..."));
                Some(Command::FetchForEdit { vault_uri: vault.1, name })
            },
        },
    }
}

/// Handles the `r` key on the secrets screen.
fn relist_key(app: &mut App) -> (command: Option<Command>)
    requires
        old(app).wf(),
    ensures
        final(app).wf(),
        (final(app)@, command_view(command)) == relist_step(old(app)@),
{
    match current_vault_of(app) {
        None => {
            app.message = Some(owned("No vault selected"));
            None
        },
        Some(vault) => {
            app.loading = true;
            app.message = Some(owned("Refreshing secrets..."));
            Some(Command::ListIncremental {
                vault_name: vault.0,
                vault_uri: vault.1,
                refresh: true,
            })
        },
    }
}

/// Handles a key press on the secrets screen outside dialog and search.
fn secrets_screen_key(app: &mut App, key: Key) -> (command: Option<Command>)
    requires
        old(app).wf(),
        old(app).screen == AppScreen::Secrets,
        !old(app).search_mode,
    ensures
        final(app).wf(),
        (final(app)@, command_view(command)) == secrets_screen_step(old(app)@, key),
{
    if is_down(key) {
        app.selected = step_down(app.selected, app.displayed_secrets.len());
        None
    } else if is_up(key) {
        if app.displayed_secrets.len() > 0 {
            app.selected = step_up(app.selected);
        }
        None
    } else if is_char(key, 'v') {
        app.screen = AppScreen::VaultSelection;
        app.loading = true;
        app.message = Some(owned("Refreshing vaults..."));
        Some(Command::DiscoverVaults)
    } else if is_char(key, 'r') {
        relist_key(app)
    } else if is_char(key, 'a') {
        app.modal = Some(
            Modal::Add { name: String::new(), value: String::new(), input_mode: AddInputMode::Name },
        );
        None
    } else if is_char(key, 'd') {
        match app.selected_name() {
            Some(name) => {
                app.modal = Some(Modal::ConfirmDelete { name });
            },
            None => {},
        }
        None
    } else if is_char(key, '/') {
        app.search_mode = true;
        app.search_query = String::new();
        apply_search(app);
        None
    } else if is_char(key, 'e') {
        edit_request_key(app)
    } else if is_enter(key) {
        copy_key(app)
    } else {
        None
    }
}

/// Handles a key press at `now` and returns the work to carry out, in order.
pub fn handle_key(app: &mut App, key: Key, now: u64) -> (commands: Vec<Command>)
    requires
        old(app).wf(),
    ensures
        final(app).wf(),
        (final(app)@, commands_view(commands@)) == key_step(old(app)@, key, now),
        commands@.len() == key_step(old(app)@, key, now).1.len(),
{
    match app.screen {
        AppScreen::Welcome => {
            app.screen = AppScreen::VaultSelection;
            collect(false, None)
        },
        _ => {
            if app.modal.is_some() {
                let out = handle_modal_key(app, key);
                collect(false, out.1)
            } else if app.search_mode {
                handle_search_key(app, key);
                collect(false, None)
            } else if app.vault_search_mode {
                handle_vault_search_key(app, key);
                collect(false, None)
            } else if is_quit(key) {
                let commands = collect(false, Some(Command::Quit));
                assert(commands_view(commands@) =~= seq![CommandView::Quit]);
                commands
            } else {
                let refresh = app.token_should_refresh(now);
                let command = match app.screen {
                    AppScreen::VaultSelection => vault_screen_key(app, key, now),
                    AppScreen::Secrets => secrets_screen_key(app, key),
                    AppScreen::Welcome => None,
                };
                collect(refresh, command)
            }
        },
    }
}

} // verus!
