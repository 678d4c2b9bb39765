//! What holds of the engine as a whole: statements that relate several of its
//! steps, proved from the definitions of the steps.

use crate::app::{consistent, filtered_vaults, initial, AppView};
use crate::events::{cached, event_step, is_selected, ticked, welcome_checked};
use crate::fuzzy::filtered;
use crate::keys::key_step;
use crate::listing::{final_events, ListingView};
use crate::model::{EntryView, EventView, Key};
use crate::text::{lemma_name_order_total, lemma_sorted_names_unique, name_order, sorted_names};
use vstd::prelude::*;

verus! {

/// The state after a run of events has been applied in order, all at `now`.
pub open spec fn events_applied(s: AppView, events: Seq<EventView>, now: u64) -> AppView
    decreases events.len(),
{
    if events.len() == 0 {
        s
    } else {
        event_step(events_applied(s, events.drop_last(), now), events.last(), now).0
    }
}

/// Sorting a sorted list of names changes nothing.
pub proof fn lemma_sorted_names_idempotent(names: Seq<Seq<char>>)
    ensures
        sorted_names(sorted_names(names)) == sorted_names(names),
{
    lemma_name_order_total();
    names.lemma_sort_by_ensures(name_order());
    sorted_names(names).lemma_sort_by_ensures(name_order());
    lemma_sorted_names_unique(sorted_names(names), sorted_names(names));
    lemma_sorted_names_unique(sorted_names(names), sorted_names(sorted_names(names)));
}

/// The state starts out consistent.
pub proof fn law_initial_is_consistent(now: u64)
    ensures
        consistent(initial(now)),
{
    let s = initial(now);
    assert(filtered(s.secrets, s.search_query) =~= s.displayed_secrets);
    assert(filtered_vaults(s.vaults, s.vault_search_query) =~= s.displayed_vaults);
}

/// A key press keeps the state consistent: the secrets screen is never shown
/// without a selected vault, and each displayed list stays the filter of its
/// source list under its query.
pub proof fn law_key_keeps_consistent(s: AppView, key: Key, now: u64)
    requires
        consistent(s),
    ensures
        consistent(key_step(s, key, now).0),
{
}

/// The outcome of background work keeps the state consistent, whenever it
/// arrives and whatever it is about.
pub proof fn law_event_keeps_consistent(s: AppView, event: EventView, now: u64)
    requires
        consistent(s),
    ensures
        consistent(event_step(s, event, now).0),
{
}

/// The passing of time keeps the state consistent.
pub proof fn law_time_keeps_consistent(s: AppView, now: u64)
    requires
        consistent(s),
    ensures
        consistent(ticked(s)),
        consistent(welcome_checked(s, now)),
{
}

/// Names listed for a vault always reach the cache: after either listing
/// event, the entry of the vault holds the sorted names and the time of
/// arrival.
pub proof fn law_listing_event_is_cached(
    s: AppView,
    vault: Seq<char>,
    names: Seq<Seq<char>>,
    now: u64,
)
    ensures
        event_step(s, EventView::SecretsUpdated(vault, names), now).0.vault_secret_cache
            == s.vault_secret_cache.insert(
            vault,
            EntryView { secrets: sorted_names(names), refreshed_at: now },
        ),
        event_step(s, EventView::CacheVaultSecrets(vault, names), now).0.vault_secret_cache
            == s.vault_secret_cache.insert(
            vault,
            EntryView { secrets: sorted_names(names), refreshed_at: now },
        ),
{
}

/// Cache write-through: once the events that end a listing of a vault have
/// been applied, in any mode and from any state, the cache entry of that
/// vault is the sorted list of the names listed, stamped with the time at
/// which the events arrived.
pub proof fn law_listing_writes_through(s: AppView, listing: ListingView, now: u64)
    ensures
        events_applied(s, final_events(listing), now).vault_secret_cache.contains_key(
            listing.vault_name,
        ),
        events_applied(s, final_events(listing), now).vault_secret_cache[listing.vault_name] == (
        EntryView { secrets: sorted_names(listing.names), refreshed_at: now }),
{
    lemma_sorted_names_idempotent(listing.names);
    let events = final_events(listing);
    let sorted = sorted_names(listing.names);
    let last = events.last();
    let before = events_applied(s, events.drop_last(), now);
    assert(events.len() > 0);
    assert(last == EventView::SecretsUpdated(listing.vault_name, sorted) || last
        == EventView::CacheVaultSecrets(listing.vault_name, sorted));
    law_listing_event_is_cached(before, listing.vault_name, sorted, now);
}

/// Display isolation: names listed for a vault that is not the selected one
/// go to the cache and change nothing else; the displayed secrets, the
/// cursor, the busy flag and the message stay as they are.
pub proof fn law_other_vault_leaves_display(
    s: AppView,
    vault: Seq<char>,
    names: Seq<Seq<char>>,
    now: u64,
)
    requires
        !is_selected(s, vault),
    ensures
        event_step(s, EventView::SecretsUpdated(vault, names), now).0 == cached(
            s,
            vault,
            names,
            now,
        ),
        event_step(s, EventView::SecretsUpdated(vault, names), now).1.is_none(),
        cached(s, vault, names, now).displayed_secrets == s.displayed_secrets,
        cached(s, vault, names, now).secrets == s.secrets,
        cached(s, vault, names, now).selected == s.selected,
        cached(s, vault, names, now).loading == s.loading,
        cached(s, vault, names, now).message == s.message,
        cached(s, vault, names, now).vault_secret_cache[vault] == (EntryView {
            secrets: sorted_names(names),
            refreshed_at: now,
        }),
{
}

/// Names that are listed for the cache alone never change what is displayed,
/// whichever vault they are about.
pub proof fn law_silent_listing_leaves_display(
    s: AppView,
    vault: Seq<char>,
    names: Seq<Seq<char>>,
    now: u64,
)
    ensures
        event_step(s, EventView::CacheVaultSecrets(vault, names), now).0 == cached(
            s,
            vault,
            names,
            now,
        ),
        cached(s, vault, names, now).displayed_secrets == s.displayed_secrets,
        cached(s, vault, names, now).secrets == s.secrets,
        cached(s, vault, names, now).selected == s.selected,
{
}

/// A failure that is reported as a status text leaves the token facts as
/// they were, stale or absent, so that the next authenticated operation
/// checks them again.
pub proof fn law_failure_leaves_token(s: AppView, text: Seq<char>, now: u64)
    ensures
        event_step(s, EventView::Message(text), now).0.token_cache == s.token_cache,
        event_step(s, EventView::Message(text), now).0.vault_secret_cache == s.vault_secret_cache,
        event_step(s, EventView::Message(text), now).0.secret_value_cache == s.secret_value_cache,
        !event_step(s, EventView::Message(text), now).0.loading,
{
}

} // verus!
