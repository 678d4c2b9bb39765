//! The data of the engine, each type with its mathematical view: strings are
//! sequences of characters, lists are sequences.
//!
//! Instants and durations are whole milliseconds on one monotonic clock.

use crate::text::{names_view, pairs_view};
use vstd::prelude::*;

verus! {

/// Which field of the add dialog receives typed characters.
#[derive(Debug, Clone, Copy, PartialEq, Eq, Structural)]
pub enum AddInputMode {
    Name,
    Value,
}

/// The screen that is shown.
#[derive(Debug, Clone, Copy, PartialEq, Eq, Structural)]
pub enum AppScreen {
    Welcome,
    VaultSelection,
    Secrets,
}

/// A key press, as far as the engine tells keys apart.
#[derive(Debug, Clone, Copy, PartialEq, Eq, Structural)]
pub enum Key {
    Char(char),
    Enter,
    Esc,
    Tab,
    Backspace,
    Up,
    Down,
    Other,
}

/// A dialog that lies over the secrets screen and takes all key presses.
#[derive(Debug, Clone, PartialEq, Eq)]
pub enum Modal {
    Add { name: String, value: String, input_mode: AddInputMode },
    Edit { name: String, value: String },
    ConfirmDelete { name: String },
}

/// The view of a [`Modal`].
pub enum ModalView {
    Add { name: Seq<char>, value: Seq<char>, input_mode: AddInputMode },
    Edit { name: Seq<char>, value: Seq<char> },
    ConfirmDelete { name: Seq<char> },
}

impl View for Modal {
    type V = ModalView;

    open spec fn view(&self) -> ModalView {
        match *self {
            Modal::Add { name, value, input_mode } => ModalView::Add {
                name: name@,
                value: value@,
                input_mode,
            },
            Modal::Edit { name, value } => ModalView::Edit { name: name@, value: value@ },
            Modal::ConfirmDelete { name } => ModalView::ConfirmDelete { name: name@ },
        }
    }
}

/// The outcome of a piece of background work, as it arrives at the engine.
#[derive(Debug, Clone, PartialEq, Eq)]
pub enum AppEvent {
    /// Discovery finished with these vaults, each a name and an address.
    VaultsLoaded(Vec<(String, String)>),
    /// Secret names of a vault, to be cached and, if that vault is the
    /// selected one, shown.
    SecretsUpdated(String, Vec<String>),
    /// Secret names of a vault, to be cached only.
    CacheVaultSecrets(String, Vec<String>),
    /// The value of a secret was fetched for editing: name, then value.
    OpenEdit(String, String),
    /// A status text, most often a failure.
    Message(String),
    /// A token was fetched: the token, when it was fetched, how long it lives.
    TokenCached(String, u64, u64),
    /// The value of a secret was fetched: vault name, secret name, value.
    SecretValueLoaded(String, String, String),
}

/// The view of an [`AppEvent`].
pub enum EventView {
    VaultsLoaded(Seq<(Seq<char>, Seq<char>)>),
    SecretsUpdated(Seq<char>, Seq<Seq<char>>),
    CacheVaultSecrets(Seq<char>, Seq<Seq<char>>),
    OpenEdit(Seq<char>, Seq<char>),
    Message(Seq<char>),
    TokenCached(Seq<char>, u64, u64),
    SecretValueLoaded(Seq<char>, Seq<char>, Seq<char>),
}

impl View for AppEvent {
    type V = EventView;

    open spec fn view(&self) -> EventView {
        match *self {
            AppEvent::VaultsLoaded(vaults) => EventView::VaultsLoaded(pairs_view(vaults@)),
            AppEvent::SecretsUpdated(vault, names) => EventView::SecretsUpdated(
                vault@,
                names_view(names@),
            ),
            AppEvent::CacheVaultSecrets(vault, names) => EventView::CacheVaultSecrets(
                vault@,
                names_view(names@),
            ),
            AppEvent::OpenEdit(name, value) => EventView::OpenEdit(name@, value@),
            AppEvent::Message(text) => EventView::Message(text@),
            AppEvent::TokenCached(token, fetched_at, ttl) => EventView::TokenCached(
                token@,
                fetched_at,
                ttl,
            ),
            AppEvent::SecretValueLoaded(vault, name, value) => EventView::SecretValueLoaded(
                vault@,
                name@,
                value@,
            ),
        }
    }
}

/// The cached secret names of one vault.
#[derive(Debug, Clone, PartialEq, Eq)]
pub struct VaultCacheEntry {
    /// The names, sorted.
    pub secrets: Vec<String>,
    /// When the names were last written.
    pub refreshed_at: u64,
}

/// The view of a [`VaultCacheEntry`].
pub struct EntryView {
    pub secrets: Seq<Seq<char>>,
    pub refreshed_at: u64,
}

impl View for VaultCacheEntry {
    type V = EntryView;

    open spec fn view(&self) -> EntryView {
        EntryView { secrets: names_view(self.secrets@), refreshed_at: self.refreshed_at }
    }
}

/// The cached facts about the access token.
#[derive(Debug, Clone, PartialEq, Eq)]
pub struct TokenCache {
    /// Kept empty: callers that need the token hold it themselves.
    pub _token: String,
    /// When the token was fetched.
    pub fetched_at: u64,
    /// How long the token lives from then on.
    pub ttl: u64,
}

/// The view of a [`TokenCache`].
pub struct TokenView {
    pub token: Seq<char>,
    pub fetched_at: u64,
    pub ttl: u64,
}

impl View for TokenCache {
    type V = TokenView;

    open spec fn view(&self) -> TokenView {
        TokenView { token: self._token@, fetched_at: self.fetched_at, ttl: self.ttl }
    }
}

/// How an attempt to put a value on the clipboard ended.
#[derive(Debug, Clone, PartialEq, Eq)]
pub enum ClipboardOutcome {
    /// The value is on the clipboard.
    Copied,
    /// The clipboard was reached but did not take the value.
    Rejected,
    /// The clipboard could not be reached; the text says why.
    Unavailable(String),
}

/// The view of a [`ClipboardOutcome`].
pub enum ClipboardView {
    Copied,
    Rejected,
    Unavailable(Seq<char>),
}

impl View for ClipboardOutcome {
    type V = ClipboardView;

    open spec fn view(&self) -> ClipboardView {
        match *self {
            ClipboardOutcome::Copied => ClipboardView::Copied,
            ClipboardOutcome::Rejected => ClipboardView::Rejected,
            ClipboardOutcome::Unavailable(why) => ClipboardView::Unavailable(why@),
        }
    }
}

/// Work that the engine asks the surrounding program to carry out. Each piece
/// of background work reports back with one [`AppEvent`].
#[derive(Debug, Clone, PartialEq, Eq)]
pub enum Command {
    /// Leave the event loop.
    Quit,
    /// Fetch a fresh token in the background.
    RefreshToken,
    /// Discover the vaults in the background.
    DiscoverVaults,
    /// Warm the secret-name cache for these vaults, a bounded number at a time.
    PreloadVaults { vaults: Vec<(String, String)> },
    /// List the secret names of a vault, reporting partial results. `refresh`
    /// tells a listing that the user asked for from the first listing of a
    /// vault that was opened.
    ListIncremental { vault_name: String, vault_uri: String, refresh: bool },
    /// List the secret names of a vault, reporting once at the end.
    ListFull { vault_name: String, vault_uri: String },
    /// Write a secret. `created` tells a new secret from an edited one.
    SetSecret { vault_name: String, vault_uri: String, name: String, value: String, created: bool },
    /// Delete a secret.
    DeleteSecret { vault_name: String, vault_uri: String, name: String },
    /// Fetch the value of a secret in order to edit it.
    FetchForEdit { vault_uri: String, name: String },
    /// Fetch the value of a secret in order to copy it.
    FetchValue { vault_name: String, vault_uri: String, name: String },
    /// Put a value on the clipboard. `cached` tells whether it came from the
    /// value cache.
    CopyToClipboard { name: String, value: String, cached: bool },
}

/// The view of a [`Command`].
pub enum CommandView {
    Quit,
    RefreshToken,
    DiscoverVaults,
    PreloadVaults { vaults: Seq<(Seq<char>, Seq<char>)> },
    ListIncremental { vault_name: Seq<char>, vault_uri: Seq<char>, refresh: bool },
    ListFull { vault_name: Seq<char>, vault_uri: Seq<char> },
    SetSecret {
        vault_name: Seq<char>,
        vault_uri: Seq<char>,
        name: Seq<char>,
        value: Seq<char>,
        created: bool,
    },
    DeleteSecret { vault_name: Seq<char>, vault_uri: Seq<char>, name: Seq<char> },
    FetchForEdit { vault_uri: Seq<char>, name: Seq<char> },
    FetchValue { vault_name: Seq<char>, vault_uri: Seq<char>, name: Seq<char> },
    CopyToClipboard { name: Seq<char>, value: Seq<char>, cached: bool },
}

impl View for Command {
    type V = CommandView;

    open spec fn view(&self) -> CommandView {
        match *self {
            Command::Quit => CommandView::Quit,
            Command::RefreshToken => CommandView::RefreshToken,
            Command::DiscoverVaults => CommandView::DiscoverVaults,
            Command::PreloadVaults { vaults } => CommandView::PreloadVaults {
                vaults: pairs_view(vaults@),
            },
            Command::ListIncremental { vault_name, vault_uri, refresh } => {
                CommandView::ListIncremental {
                    vault_name: vault_name@,
                    vault_uri: vault_uri@,
                    refresh,
                }
            },
            Command::ListFull { vault_name, vault_uri } => CommandView::ListFull {
                vault_name: vault_name@,
                vault_uri: vault_uri@,
            },
            Command::SetSecret { vault_name, vault_uri, name, value, created } => {
                CommandView::SetSecret {
                    vault_name: vault_name@,
                    vault_uri: vault_uri@,
                    name: name@,
                    value: value@,
                    created,
                }
            },
            Command::DeleteSecret { vault_name, vault_uri, name } => CommandView::DeleteSecret {
                vault_name: vault_name@,
                vault_uri: vault_uri@,
                name: name@,
            },
            Command::FetchForEdit { vault_uri, name } => CommandView::FetchForEdit {
                vault_uri: vault_uri@,
                name: name@,
            },
            Command::FetchValue { vault_name, vault_uri, name } => CommandView::FetchValue {
                vault_name: vault_name@,
                vault_uri: vault_uri@,
                name: name@,
            },
            Command::CopyToClipboard { name, value, cached } => CommandView::CopyToClipboard {
                name: name@,
                value: value@,
                cached,
            },
        }
    }
}

/// The views of a list of commands.
pub open spec fn commands_view(commands: Seq<Command>) -> Seq<CommandView> {
    Seq::new(commands.len(), |i: int| commands[i]@)
}

/// The view of a dialog that may be absent.
pub open spec fn modal_view(modal: Option<Modal>) -> Option<ModalView> {
    match modal {
        Some(m) => Some(m@),
        None => None,
    }
}

/// The view of a text that may be absent.
pub open spec fn text_view(text: Option<String>) -> Option<Seq<char>> {
    match text {
        Some(t) => Some(t@),
        None => None,
    }
}

/// The view of a vault, a name and an address, that may be absent.
pub open spec fn vault_view(vault: Option<(String, String)>) -> Option<(Seq<char>, Seq<char>)> {
    match vault {
        Some(v) => Some((v.0@, v.1@)),
        None => None,
    }
}

/// The view of token facts that may be absent.
pub open spec fn token_view(token: Option<TokenCache>) -> Option<TokenView> {
    match token {
        Some(t) => Some(t@),
        None => None,
    }
}

} // verus!
