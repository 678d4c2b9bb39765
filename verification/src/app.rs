//! The state of the application and the operations that every screen shares.

use crate::cache::{SecretListCache, SecretValueCache, Store};
use crate::fuzzy::{display_order, filtered, fuzzy_filter, fuzzy_positions, positions};
use crate::model::{
    modal_view, text_view, token_view, vault_view, AppScreen, EntryView, Modal, ModalView,
    TokenCache, TokenView,
};
use crate::text::{names_view, pairs_view};
use crate::token::{needs_refresh, refresh_due};
use vstd::prelude::*;

verus! {

/// Everything the event loop owns: what is shown, what is selected, what is
/// being typed, and the caches.
pub struct App {
    pub screen: AppScreen,
    /// The selected vault: its name and its address.
    pub current_vault: Option<(String, String)>,
    /// The secret names of the selected vault.
    pub secrets: Vec<String>,
    /// The secret names that pass the secret search, in display order.
    pub displayed_secrets: Vec<String>,
    /// The cursor in `displayed_secrets`.
    pub selected: usize,
    pub message: Option<String>,
    pub modal: Option<Modal>,
    /// Whether key presses extend the secret search.
    pub search_mode: bool,
    pub search_query: String,
    /// The phase of the busy animation.
    pub spinner_phase: i8,
    pub loading: bool,
    /// The discovered vaults.
    pub vaults: Vec<(String, String)>,
    /// The vaults whose names pass the vault search, in display order.
    pub displayed_vaults: Vec<(String, String)>,
    /// The cursor in `displayed_vaults`.
    pub vault_selected: usize,
    /// Whether key presses extend the vault search.
    pub vault_search_mode: bool,
    pub vault_search_query: String,
    pub token_cache: Option<TokenCache>,
    pub vault_secret_cache: SecretListCache,
    pub secret_value_cache: SecretValueCache,
    /// When the welcome screen came up.
    pub welcome_shown_at: u64,
}

/// The view of an [`App`].
pub struct AppView {
    pub screen: AppScreen,
    pub current_vault: Option<(Seq<char>, Seq<char>)>,
    pub secrets: Seq<Seq<char>>,
    pub displayed_secrets: Seq<Seq<char>>,
    pub selected: usize,
    pub message: Option<Seq<char>>,
    pub modal: Option<ModalView>,
    pub search_mode: bool,
    pub search_query: Seq<char>,
    pub spinner_phase: i8,
    pub loading: bool,
    pub vaults: Seq<(Seq<char>, Seq<char>)>,
    pub displayed_vaults: Seq<(Seq<char>, Seq<char>)>,
    pub vault_selected: usize,
    pub vault_search_mode: bool,
    pub vault_search_query: Seq<char>,
    pub token_cache: Option<TokenView>,
    pub vault_secret_cache: Map<Seq<char>, EntryView>,
    pub secret_value_cache: Map<(Seq<char>, Seq<char>), Seq<char>>,
    pub welcome_shown_at: u64,
}

impl View for App {
    type V = AppView;

    open spec fn view(&self) -> AppView {
        AppView {
            screen: self.screen,
            current_vault: vault_view(self.current_vault),
            secrets: names_view(self.secrets@),
            displayed_secrets: names_view(self.displayed_secrets@),
            selected: self.selected,
            message: text_view(self.message),
            modal: modal_view(self.modal),
            search_mode: self.search_mode,
            search_query: self.search_query@,
            spinner_phase: self.spinner_phase,
            loading: self.loading,
            vaults: pairs_view(self.vaults@),
            displayed_vaults: pairs_view(self.displayed_vaults@),
            vault_selected: self.vault_selected,
            vault_search_mode: self.vault_search_mode,
            vault_search_query: self.vault_search_query@,
            token_cache: token_view(self.token_cache),
            vault_secret_cache: self.vault_secret_cache@,
            secret_value_cache: self.secret_value_cache@,
            welcome_shown_at: self.welcome_shown_at,
        }
    }
}

/// The names of a list of vaults.
pub open spec fn vault_names(vaults: Seq<(Seq<char>, Seq<char>)>) -> Seq<Seq<char>> {
    Seq::new(vaults.len(), |i: int| vaults[i].0)
}

/// The vaults whose names are displayed for a query, in display order.
pub open spec fn filtered_vaults(vaults: Seq<(Seq<char>, Seq<char>)>, query: Seq<char>) -> Seq<
    (Seq<char>, Seq<char>),
> {
    let order = display_order(vault_names(vaults), query);
    Seq::new(order.len(), |k: int| vaults[order[k]])
}

/// What holds of the state between any two steps of the event loop:
/// the secrets screen is shown only with a vault selected; both displayed
/// lists are the filter of their source list under their query; a search is
/// typed only on its own screen; and each cursor is at the first item or on an
/// item.
pub open spec fn consistent(s: AppView) -> bool {
    &&& s.screen == AppScreen::Secrets ==> s.current_vault.is_some()
    &&& s.displayed_secrets == filtered(s.secrets, s.search_query)
    &&& s.displayed_vaults == filtered_vaults(s.vaults, s.vault_search_query)
    &&& s.search_mode ==> s.screen == AppScreen::Secrets
    &&& s.vault_search_mode ==> s.screen == AppScreen::VaultSelection
    &&& (s.selected == 0 || s.selected < s.displayed_secrets.len())
    &&& (s.vault_selected == 0 || s.vault_selected < s.displayed_vaults.len())
}

/// The state when the program starts at `now`.
pub open spec fn initial(now: u64) -> AppView {
    AppView {
        screen: AppScreen::Welcome,
        current_vault: None,
        secrets: Seq::empty(),
        displayed_secrets: Seq::empty(),
        selected: 0,
        message: None,
        modal: None,
        search_mode: false,
        search_query: Seq::empty(),
        spinner_phase: 0,
        loading: false,
        vaults: Seq::empty(),
        displayed_vaults: Seq::empty(),
        vault_selected: 0,
        vault_search_mode: false,
        vault_search_query: Seq::empty(),
        token_cache: None,
        vault_secret_cache: Map::empty(),
        secret_value_cache: Map::empty(),
        welcome_shown_at: now,
    }
}

/// The state with the secret filter run anew and the cursor on the first item.
pub open spec fn searched(s: AppView) -> AppView {
    AppView { displayed_secrets: filtered(s.secrets, s.search_query), selected: 0, ..s }
}

/// The state with the vault filter run anew and the cursor on the first item.
pub open spec fn vault_searched(s: AppView) -> AppView {
    AppView {
        displayed_vaults: filtered_vaults(s.vaults, s.vault_search_query),
        vault_selected: 0,
        ..s
    }
}

/// The secret name under the cursor, if the cursor is on one.
pub open spec fn name_under_cursor(s: AppView) -> Option<Seq<char>> {
    if s.selected < s.displayed_secrets.len() {
        Some(s.displayed_secrets[s.selected as int])
    } else {
        None
    }
}

/// The vault under the cursor, if the cursor is on one.
pub open spec fn vault_under_cursor(s: AppView) -> Option<(Seq<char>, Seq<char>)> {
    if s.vault_selected < s.displayed_vaults.len() {
        Some(s.displayed_vaults[s.vault_selected as int])
    } else {
        None
    }
}

/// Whether a token must be fetched before an authenticated operation at
/// `now`: none is cached, or the cached one is within its refresh margin.
pub open spec fn token_stale(s: AppView, now: u64) -> bool {
    match s.token_cache {
        None => true,
        Some(t) => refresh_due(now as int, t.fetched_at as int, t.ttl as int),
    }
}

impl App {
    /// The caches are in order and the state is consistent.
    pub open spec fn wf(&self) -> bool {
        &&& self.vault_secret_cache.wf()
        &&& self.secret_value_cache.wf()
        &&& consistent(self@)
    }

    /// The state at program start: the welcome screen, nothing selected,
    /// nothing cached.
    pub fn new(now: u64) -> (app: App)
        ensures
            app.wf(),
            app@ == initial(now),
    {
        let app = App {
            screen: AppScreen::Welcome,
            current_vault: None,
            secrets: Vec::new(),
            displayed_secrets: Vec::new(),
            selected: 0,
            message: None,
            modal: None,
            search_mode: false,
            search_query: String::new(),
            spinner_phase: 0,
            loading: false,
            vaults: Vec::new(),
            displayed_vaults: Vec::new(),
            vault_selected: 0,
            vault_search_mode: false,
            vault_search_query: String::new(),
            token_cache: None,
            vault_secret_cache: Store::new(),
            secret_value_cache: Store::new(),
            welcome_shown_at: now,
        };
        proof {
            let s = app@;
            assert(s.secrets =~= Seq::empty());
            assert(s.displayed_secrets =~= Seq::empty());
            assert(s.vaults =~= Seq::empty());
            assert(s.displayed_vaults =~= Seq::empty());
            assert(filtered(s.secrets, s.search_query) =~= Seq::empty());
            assert(filtered_vaults(s.vaults, s.vault_search_query) =~= Seq::empty());
        }
        app
    }

    /// The secret name under the cursor.
    pub fn selected_name(&self) -> (name: Option<String>)
        ensures
            text_view(name) == name_under_cursor(self@),
    {
        if self.selected < self.displayed_secrets.len() {
            Some(self.displayed_secrets[self.selected].clone())
        } else {
            None
        }
    }

    /// The vault under the cursor.
    pub fn selected_vault(&self) -> (vault: Option<(String, String)>)
        ensures
            vault_view(vault) == vault_under_cursor(self@),
    {
        if self.vault_selected < self.displayed_vaults.len() {
            let name = self.displayed_vaults[self.vault_selected].0.clone();
            let uri = self.displayed_vaults[self.vault_selected].1.clone();
            Some((name, uri))
        } else {
            None
        }
    }

    /// Whether a token must be fetched before an authenticated operation at
    /// `now`.
    pub fn token_should_refresh(&self, now: u64) -> (stale: bool)
        ensures
            stale == token_stale(self@, now),
            self.token_cache.is_none() ==> stale,
    {
        match &self.token_cache {
            None => true,
            Some(token) => needs_refresh(now, token.fetched_at, token.ttl),
        }
    }
}

/// Runs the secret filter anew from the secret names and the secret query, and
/// puts the cursor on the first item.
pub fn apply_search(app: &mut App)
    ensures
        final(app)@ == searched(old(app)@),
        final(app).vault_secret_cache == old(app).vault_secret_cache,
        final(app).secret_value_cache == old(app).secret_value_cache,
{
    app.displayed_secrets = fuzzy_filter(&app.secrets, app.search_query.as_str());
    app.selected = 0;
}

/// The names of a list of vaults.
fn names_of(vaults: &Vec<(String, String)>) -> (names: Vec<String>)
    ensures
        names_view(names@) == vault_names(pairs_view(vaults@)),
{
    let mut names: Vec<String> = Vec::new();
    let mut i: usize = 0;
    while i < vaults.len()
        invariant
            i <= vaults.len(),
            names@.len() == i,
            forall|k: int| 0 <= k < i ==> (#[trigger] names@[k])@ == vaults@[k].0@,
        decreases vaults.len() - i,
    {
        names.push(vaults[i].0.clone());
        i += 1;
    }
    assert(names_view(names@) =~= vault_names(pairs_view(vaults@)));
    names
}

/// Filters and ranks a list of vaults by name for a query. The empty query
/// keeps the list as it is.
pub fn filter_vaults(vaults: &Vec<(String, String)>, query: &str) -> (shown: Vec<(String, String)>)
    ensures
        pairs_view(shown@) == filtered_vaults(pairs_view(vaults@), query@),
{
    let names = names_of(vaults);
    let order = fuzzy_positions(&names, query);
    assert(names@.len() == vaults@.len()) by {
        assert(names_view(names@).len() == vault_names(pairs_view(vaults@)).len());
    }
    let mut shown: Vec<(String, String)> = Vec::new();
    let mut k: usize = 0;
    while k < order.len()
        invariant
            k <= order.len(),
            shown@.len() == k,
            forall|j: int| 0 <= j < order@.len() ==> #[trigger] order@[j] < vaults@.len(),
            forall|j: int|
                0 <= j < k ==> (#[trigger] shown@[j]).0@ == vaults@[order@[j] as int].0@
                    && shown@[j].1@ == vaults@[order@[j] as int].1@,
        decreases order.len() - k,
    {
        let at = order[k];
        shown.push((vaults[at].0.clone(), vaults[at].1.clone()));
        k += 1;
    }
    proof {
        let want = filtered_vaults(pairs_view(vaults@), query@);
        assert forall|j: int| 0 <= j < shown@.len() implies pairs_view(shown@)[j] == want[j] by {
            assert(positions(order@)[j] == order@[j]);
        }
        assert(pairs_view(shown@) =~= want);
    }
    shown
}

/// Runs the vault filter anew from the vaults and the vault query, and puts
/// the cursor on the first item.
pub fn apply_vault_search(app: &mut App)
    ensures
        final(app)@ == vault_searched(old(app)@),
        final(app).vault_secret_cache == old(app).vault_secret_cache,
        final(app).secret_value_cache == old(app).secret_value_cache,
{
    app.displayed_vaults = filter_vaults(&app.vaults, app.vault_search_query.as_str());
    app.vault_selected = 0;
}

} // verus!
