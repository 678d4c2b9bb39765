//! Listing the secret names of a vault. The names arrive one item at a time;
//! a [`Listing`] gathers them and says which events to emit: partial results
//! in batches for an incremental listing, and the complete sorted list at
//! the end of every listing.

use crate::model::{text_view, AppEvent, EventView};
use crate::text::{
    clone_names, lemma_name_order_total, name_order, names_view, sort_names, sorted_names,
};
use vstd::prelude::*;
use vstd::relations::sorted_by;

verus! {

/// An incremental listing reports whenever the number of names gathered is a
/// multiple of this.
pub const BATCH: usize = 20;

/// How a listing reports.
#[derive(Debug, Clone, Copy, PartialEq, Eq, Structural)]
pub enum ListingMode {
    /// Partial results in batches, then the complete list: for the first load
    /// of a vault.
    Incremental,
    /// The complete list only, for cache and screen: after a write.
    Full,
    /// The complete list only, for the cache alone: for a preload.
    Silent,
}

/// A listing in progress.
#[derive(Debug)]
pub struct Listing {
    pub vault_name: String,
    pub mode: ListingMode,
    /// The names gathered so far, in arrival order.
    pub names: Vec<String>,
}

/// The view of a [`Listing`].
pub struct ListingView {
    pub vault_name: Seq<char>,
    pub mode: ListingMode,
    pub names: Seq<Seq<char>>,
}

impl View for Listing {
    type V = ListingView;

    open spec fn view(&self) -> ListingView {
        ListingView {
            vault_name: self.vault_name@,
            mode: self.mode,
            names: names_view(self.names@),
        }
    }
}

/// The views of a list of events.
pub open spec fn events_view(events: Seq<AppEvent>) -> Seq<EventView> {
    Seq::new(events.len(), |i: int| events[i]@)
}

/// The names gathered once an item has arrived: with its name at the end, if
/// it has one.
pub open spec fn gathered(names: Seq<Seq<char>>, name: Option<Seq<char>>) -> Seq<Seq<char>> {
    match name {
        Some(n) => names.push(n),
        None => names,
    }
}

/// The events that follow the arrival of an item, `names` being gathered by
/// then and `added` telling whether the item brought a name. An incremental
/// listing reports when a name has brought the count to a multiple of the
/// batch size: the sorted names so far, first for the screen and then for the
/// cache. Nothing else is reported before the end.
pub open spec fn batch_events(
    mode: ListingMode,
    vault: Seq<char>,
    names: Seq<Seq<char>>,
    added: bool,
) -> Seq<EventView> {
    if mode == ListingMode::Incremental && added && names.len() % (BATCH as nat) == 0 {
        seq![
            EventView::SecretsUpdated(vault, sorted_names(names)),
            EventView::CacheVaultSecrets(vault, sorted_names(names)),
        ]
    } else {
        Seq::empty()
    }
}

/// The events at the end of a listing, all of them carrying the complete
/// sorted list.
pub open spec fn final_events(l: ListingView) -> Seq<EventView> {
    let sorted = sorted_names(l.names);
    match l.mode {
        ListingMode::Incremental => seq![
            EventView::SecretsUpdated(l.vault_name, sorted),
            EventView::CacheVaultSecrets(l.vault_name, sorted),
        ],
        ListingMode::Full => seq![
            EventView::CacheVaultSecrets(l.vault_name, sorted),
            EventView::SecretsUpdated(l.vault_name, sorted),
        ],
        ListingMode::Silent => seq![EventView::CacheVaultSecrets(l.vault_name, sorted)],
    }
}

impl Listing {
    /// Starts a listing of the vault `vault_name`.
    pub fn new(vault_name: String, mode: ListingMode) -> (listing: Listing)
        ensures
            listing@ == (ListingView { vault_name: vault_name@, mode, names: Seq::empty() }),
    {
        let listing = Listing { vault_name, mode, names: Vec::new() };
        assert(listing@.names =~= Seq::empty());
        listing
    }

    /// Takes the next item of the listing, with its name if it has one, and
    /// returns the events to emit.
    pub fn on_item(&mut self, name: Option<String>) -> (events: Vec<AppEvent>)
        ensures
            final(self)@ == (ListingView {
                names: gathered(old(self)@.names, text_view(name)),
                ..old(self)@
            }),
            events_view(events@) == batch_events(
                old(self)@.mode,
                old(self)@.vault_name,
                final(self)@.names,
                name.is_some(),
            ),
    {
        let ghost before = self@.names;
        let added = name.is_some();
        match name {
            Some(n) => {
                self.names.push(n);
                assert(self@.names =~= before.push(n@));
            },
            None => {},
        }
        let mut events: Vec<AppEvent> = Vec::new();
        let at_boundary = added && self.names.len() % BATCH == 0;
        assert(self@.names.len() == self.names@.len());
        match self.mode {
            ListingMode::Incremental => {
                if at_boundary {
                    let sorted = sort_names(clone_names(&self.names));
                    events.push(
                        AppEvent::SecretsUpdated(self.vault_name.clone(), clone_names(&sorted)),
                    );
                    events.push(AppEvent::CacheVaultSecrets(self.vault_name.clone(), sorted));
                }
            },
            _ => {},
        }
        assert(events_view(events@) =~= batch_events(
            self@.mode,
            self@.vault_name,
            self@.names,
            added,
        ));
        events
    }

    /// Ends the listing and returns the events to emit.
    pub fn finish(self) -> (events: Vec<AppEvent>)
        ensures
            events_view(events@) == final_events(self@),
    {
        let ghost view = self@;
        let vault = self.vault_name;
        let sorted = sort_names(self.names);
        let mut events: Vec<AppEvent> = Vec::new();
        match self.mode {
            ListingMode::Incremental => {
                events.push(AppEvent::SecretsUpdated(vault.clone(), clone_names(&sorted)));
                events.push(AppEvent::CacheVaultSecrets(vault, sorted));
            },
            ListingMode::Full => {
                events.push(AppEvent::CacheVaultSecrets(vault.clone(), clone_names(&sorted)));
                events.push(AppEvent::SecretsUpdated(vault, sorted));
            },
            ListingMode::Silent => {
                events.push(AppEvent::CacheVaultSecrets(vault, sorted));
            },
        }
        assert(events_view(events@) =~= final_events(view));
        events
    }
}

/// The names that an event of a listing carries, and its vault.
pub open spec fn carried(event: EventView) -> (Seq<char>, Seq<Seq<char>>) {
    match event {
        EventView::SecretsUpdated(vault, names) => (vault, names),
        EventView::CacheVaultSecrets(vault, names) => (vault, names),
        _ => (Seq::empty(), Seq::empty()),
    }
}

/// Every list that a listing sends on the way names its vault and is the
/// names gathered so far in ascending order, each as often as it was
/// gathered; and a list is sent on the way only when the count of names is a
/// positive multiple of the batch size.
pub proof fn law_batches_are_sorted_prefixes(
    l: ListingView,
    name: Option<Seq<char>>,
    i: int,
)
    requires
        0 <= i < batch_events(l.mode, l.vault_name, gathered(l.names, name), name.is_some()).len(),
    ensures
        carried(
            batch_events(l.mode, l.vault_name, gathered(l.names, name), name.is_some())[i],
        ) == (l.vault_name, sorted_names(gathered(l.names, name))),
        sorted_by(sorted_names(gathered(l.names, name)), name_order()),
        sorted_names(gathered(l.names, name)).to_multiset() == gathered(l.names, name).to_multiset(),
        gathered(l.names, name).len() > 0,
        gathered(l.names, name).len() % (BATCH as nat) == 0,
        l.mode == ListingMode::Incremental,
{
    lemma_name_order_total();
    gathered(l.names, name).lemma_sort_by_ensures(name_order());
}

/// Every list that a listing sends at its end names its vault and is all the
/// names gathered in ascending order, each as often as it was gathered.
pub proof fn law_final_lists_are_sorted(l: ListingView, i: int)
    requires
        0 <= i < final_events(l).len(),
    ensures
        carried(final_events(l)[i]) == (l.vault_name, sorted_names(l.names)),
        sorted_by(sorted_names(l.names), name_order()),
        sorted_names(l.names).to_multiset() == l.names.to_multiset(),
{
    lemma_name_order_total();
    l.names.lemma_sort_by_ensures(name_order());
}

} // verus!
