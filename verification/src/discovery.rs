//! Vault discovery: the decisions of the two-stage protocol.
//!
//! The primary stage reads the subscriptions page by page, then the vaults of
//! every subscription, each page by page and all subscriptions at once. A
//! subscription whose listing fails contributes nothing. If the primary stage
//! ends without a vault, the fallback stage asks a local command-line tool, and
//! a fallback that fails leaves the list empty.
//!
//! This module performs no request. A [`Discovery`] takes what came back and
//! answers with the requests to make next.

use crate::text::{clone_pairs, join3, names_view, owned, pairs_view};
use vstd::prelude::*;

verus! {

/// A vault descriptor as it came over the wire: either field may be missing.
#[derive(Debug, Clone, PartialEq, Eq)]
pub struct RawVault {
    pub name: Option<String>,
    pub uri: Option<String>,
}

/// The view of a text that may be missing.
pub open spec fn field_view(field: Option<String>) -> Option<Seq<char>> {
    match field {
        Some(text) => Some(text@),
        None => None,
    }
}

impl View for RawVault {
    type V = (Option<Seq<char>>, Option<Seq<char>>);

    open spec fn view(&self) -> (Option<Seq<char>>, Option<Seq<char>>) {
        (field_view(self.name), field_view(self.uri))
    }
}

/// The views of a list of descriptors.
pub open spec fn raw_view(raw: Seq<RawVault>) -> Seq<(Option<Seq<char>>, Option<Seq<char>>)> {
    Seq::new(raw.len(), |i: int| raw[i]@)
}

/// The views of a list of texts that may be missing.
pub open spec fn fields_view(fields: Seq<Option<String>>) -> Seq<Option<Seq<char>>> {
    Seq::new(fields.len(), |i: int| field_view(fields[i]))
}

/// The vaults among the descriptors: those with a name and an address, in
/// their order.
pub open spec fn complete_of(raw: Seq<(Option<Seq<char>>, Option<Seq<char>>)>) -> Seq<
    (Seq<char>, Seq<char>),
>
    decreases raw.len(),
{
    if raw.len() == 0 {
        Seq::empty()
    } else {
        let rest = complete_of(raw.drop_last());
        match raw.last() {
            (Some(name), Some(uri)) => rest.push((name, uri)),
            _ => rest,
        }
    }
}

/// The texts that are present, in their order.
pub open spec fn present_of(fields: Seq<Option<Seq<char>>>) -> Seq<Seq<char>>
    decreases fields.len(),
{
    if fields.len() == 0 {
        Seq::empty()
    } else {
        let rest = present_of(fields.drop_last());
        match fields.last() {
            Some(text) => rest.push(text),
            None => rest,
        }
    }
}

/// How far the listing of one subscription's vaults has come.
#[derive(Debug, Clone, Copy, PartialEq, Eq, Structural)]
pub enum SlotState {
    /// Pages are still awaited.
    Open,
    /// The last page has arrived.
    Done,
    /// A request failed; what arrived before does not count.
    Failed,
}

/// The stage a discovery is in.
#[derive(Debug, Clone, Copy, PartialEq, Eq, Structural)]
pub enum Phase {
    Subscriptions,
    Vaults,
    Fallback,
    Finished,
}

/// One subscription and the vaults listed for it so far.
#[derive(Debug, Clone, PartialEq, Eq)]
pub struct Slot {
    pub subscription: String,
    pub vaults: Vec<(String, String)>,
    pub state: SlotState,
}

/// The view of a [`Slot`].
pub struct SlotView {
    pub subscription: Seq<char>,
    pub vaults: Seq<(Seq<char>, Seq<char>)>,
    pub state: SlotState,
}

impl View for Slot {
    type V = SlotView;

    open spec fn view(&self) -> SlotView {
        SlotView {
            subscription: self.subscription@,
            vaults: pairs_view(self.vaults@),
            state: self.state,
        }
    }
}

/// The views of a list of slots.
pub open spec fn slots_view(slots: Seq<Slot>) -> Seq<SlotView> {
    Seq::new(slots.len(), |i: int| slots[i]@)
}

/// A discovery in progress.
#[derive(Debug)]
pub struct Discovery {
    pub phase: Phase,
    /// The subscriptions in the order in which they were listed.
    pub slots: Vec<Slot>,
}

/// The view of a [`Discovery`].
pub struct DiscoveryView {
    pub phase: Phase,
    pub slots: Seq<SlotView>,
}

impl View for Discovery {
    type V = DiscoveryView;

    open spec fn view(&self) -> DiscoveryView {
        DiscoveryView { phase: self.phase, slots: slots_view(self.slots@) }
    }
}

/// A request that a discovery asks for, or its end.
#[derive(Debug, Clone, PartialEq, Eq)]
pub enum DiscoveryAction {
    /// Fetch a page of subscriptions: the first, or the one at the cursor.
    FetchSubscriptions { cursor: Option<String> },
    /// Fetch a page of the vaults of a subscription.
    FetchVaults { slot: usize, subscription: String, cursor: Option<String> },
    /// Run the command-line tool that lists vaults.
    RunFallback,
    /// The discovery has ended with these vaults.
    Finish { vaults: Vec<(String, String)> },
}

/// The view of a [`DiscoveryAction`].
pub enum ActionView {
    FetchSubscriptions { cursor: Option<Seq<char>> },
    FetchVaults { slot: usize, subscription: Seq<char>, cursor: Option<Seq<char>> },
    RunFallback,
    Finish { vaults: Seq<(Seq<char>, Seq<char>)> },
}

impl View for DiscoveryAction {
    type V = ActionView;

    open spec fn view(&self) -> ActionView {
        match *self {
            DiscoveryAction::FetchSubscriptions { cursor } => ActionView::FetchSubscriptions {
                cursor: field_view(cursor),
            },
            DiscoveryAction::FetchVaults { slot, subscription, cursor } => ActionView::FetchVaults {
                slot,
                subscription: subscription@,
                cursor: field_view(cursor),
            },
            DiscoveryAction::RunFallback => ActionView::RunFallback,
            DiscoveryAction::Finish { vaults } => ActionView::Finish { vaults: pairs_view(vaults@) },
        }
    }
}

/// The views of a list of actions.
pub open spec fn actions_view(actions: Seq<DiscoveryAction>) -> Seq<ActionView> {
    Seq::new(actions.len(), |i: int| actions[i]@)
}

/// Fresh slots for newly listed subscriptions.
pub open spec fn fresh_slots(ids: Seq<Seq<char>>) -> Seq<SlotView> {
    Seq::new(
        ids.len(),
        |i: int| SlotView { subscription: ids[i], vaults: Seq::empty(), state: SlotState::Open },
    )
}

/// One request for the first page of vaults of every subscription.
pub open spec fn fan_out(slots: Seq<SlotView>) -> Seq<ActionView> {
    Seq::new(
        slots.len(),
        |i: int|
            ActionView::FetchVaults {
                slot: i as usize,
                subscription: slots[i].subscription,
                cursor: None,
            },
    )
}

/// Whether pages are still awaited for some subscription.
pub open spec fn any_open(slots: Seq<SlotView>) -> bool {
    exists|i: int| 0 <= i < slots.len() && (#[trigger] slots[i]).state == SlotState::Open
}

/// What a slot contributes to the result: its vaults once its listing is
/// complete, nothing before that or after a failure.
pub open spec fn contribution(slot: SlotView) -> Seq<(Seq<char>, Seq<char>)> {
    if slot.state == SlotState::Done {
        slot.vaults
    } else {
        Seq::empty()
    }
}

/// The contributions of all slots, one after the other.
pub open spec fn merged(slots: Seq<SlotView>) -> Seq<(Seq<char>, Seq<char>)>
    decreases slots.len(),
{
    if slots.len() == 0 {
        Seq::empty()
    } else {
        merged(slots.drop_last()) + contribution(slots.last())
    }
}

/// The state in which a discovery starts.
pub open spec fn fresh() -> DiscoveryView {
    DiscoveryView { phase: Phase::Subscriptions, slots: Seq::empty() }
}

/// A page of subscriptions has arrived. Its identifiers are recorded; with a
/// cursor the next page is asked for; without, the vaults of every
/// subscription are asked for, or the fallback if there is no subscription.
pub open spec fn subscriptions_step(
    d: DiscoveryView,
    ids: Seq<Option<Seq<char>>>,
    next: Option<Seq<char>>,
) -> (DiscoveryView, Seq<ActionView>) {
    if d.phase != Phase::Subscriptions {
        (d, Seq::empty())
    } else {
        let slots = d.slots + fresh_slots(present_of(ids));
        match next {
            Some(cursor) => (
                DiscoveryView { slots, ..d },
                seq![ActionView::FetchSubscriptions { cursor: Some(cursor) }],
            ),
            None => if slots.len() == 0 {
                (DiscoveryView { phase: Phase::Fallback, slots }, seq![ActionView::RunFallback])
            } else {
                (DiscoveryView { phase: Phase::Vaults, slots }, fan_out(slots))
            },
        }
    }
}

/// Once no page is awaited any more, the primary stage ends: with its vaults
/// if it found any, else with the fallback.
pub open spec fn settled(d: DiscoveryView) -> (DiscoveryView, Seq<ActionView>) {
    if any_open(d.slots) {
        (d, Seq::empty())
    } else if merged(d.slots).len() == 0 {
        (DiscoveryView { phase: Phase::Fallback, ..d }, seq![ActionView::RunFallback])
    } else {
        (
            DiscoveryView { phase: Phase::Finished, ..d },
            seq![ActionView::Finish { vaults: merged(d.slots) }],
        )
    }
}

/// Whether a page for `slot` is awaited.
pub open spec fn awaits(d: DiscoveryView, slot: usize) -> bool {
    d.phase == Phase::Vaults && slot < d.slots.len() && d.slots[slot as int].state
        == SlotState::Open
}

/// A page of vaults has arrived for `slot`. Its vaults are added to those of
/// the slot; with a cursor the next page is asked for; without, the slot is
/// complete. A page that is not awaited changes nothing.
pub open spec fn vaults_step(
    d: DiscoveryView,
    slot: usize,
    items: Seq<(Option<Seq<char>>, Option<Seq<char>>)>,
    next: Option<Seq<char>>,
) -> (DiscoveryView, Seq<ActionView>) {
    if !awaits(d, slot) {
        (d, Seq::empty())
    } else {
        let old = d.slots[slot as int];
        let grown = SlotView { vaults: old.vaults + complete_of(items), ..old };
        match next {
            Some(cursor) => (
                DiscoveryView { slots: d.slots.update(slot as int, grown), ..d },
                seq![
                    ActionView::FetchVaults {
                        slot,
                        subscription: old.subscription,
                        cursor: Some(cursor),
                    },
                ],
            ),
            None => settled(
                DiscoveryView {
                    slots: d.slots.update(slot as int, SlotView { state: SlotState::Done, ..grown }),
                    ..d
                },
            ),
        }
    }
}

/// A request for vaults of `slot` has failed: the slot contributes nothing.
pub open spec fn failure_step(d: DiscoveryView, slot: usize) -> (DiscoveryView, Seq<ActionView>) {
    if !awaits(d, slot) {
        (d, Seq::empty())
    } else {
        let old = d.slots[slot as int];
        settled(
            DiscoveryView {
                slots: d.slots.update(slot as int, SlotView { state: SlotState::Failed, ..old }),
                ..d
            },
        )
    }
}

/// The fallback has ended: with a listing, whose vaults are the result, or
/// without one, and then the result is empty.
pub open spec fn fallback_step(
    d: DiscoveryView,
    listing: Option<Seq<(Option<Seq<char>>, Option<Seq<char>>)>>,
) -> (DiscoveryView, Seq<ActionView>) {
    if d.phase != Phase::Fallback {
        (d, Seq::empty())
    } else {
        (
            DiscoveryView { phase: Phase::Finished, ..d },
            seq![
                ActionView::Finish {
                    vaults: match listing {
                        Some(raw) => complete_of(raw),
                        None => Seq::empty(),
                    },
                },
            ],
        )
    }
}

/// What a JSON document lists: for a document that is an array, one pair for
/// each entry, holding the string under `key` and the string under `inner`
/// within `outer`, each where the entry has it; `None` for bytes that are no
/// JSON document or a document that is no array.
pub uninterp spec fn json_records(
    bytes: Seq<u8>,
    key: Seq<char>,
    outer: Seq<char>,
    inner: Seq<char>,
) -> Option<Seq<(Option<Seq<char>>, Option<Seq<char>>)>>;

/// The view of a listing that may be absent.
pub open spec fn listing_view(listing: Option<Vec<RawVault>>) -> Option<
    Seq<(Option<Seq<char>>, Option<Seq<char>>)>,
> {
    match listing {
        Some(raw) => Some(raw_view(raw@)),
        None => None,
    }
}

/// `serde_json::from_slice` to a `serde_json::Value`, read with
/// `Value::as_array`, indexing by key and `Value::as_str`. The parser decides
/// from the bytes alone, and so do the accessors: the result is what
/// `json_records` names. Nothing is claimed about which bytes parse.
#[verifier::external_body]
fn read_records(bytes: &[u8], key: &str, outer: &str, inner: &str) -> (listing: Option<
    Vec<RawVault>,
>)
    ensures
        listing_view(listing) == json_records(bytes@, key@, outer@, inner@),
{
    let document: serde_json::Value = serde_json::from_slice(bytes).ok()?;
    let entries = document.as_array()?;
    Some(
        entries.iter().map(
            |entry|
                RawVault {
                    name: entry[key].as_str().map(str::to_owned),
                    uri: entry[outer][inner].as_str().map(str::to_owned),
                },
        ).collect(),
    )
}

/// Keeps the descriptors that have a name and an address.
pub fn complete_vaults(raw: &Vec<RawVault>) -> (vaults: Vec<(String, String)>)
    ensures
        pairs_view(vaults@) == complete_of(raw_view(raw@)),
{
    let ghost all = raw_view(raw@);
    let mut vaults: Vec<(String, String)> = Vec::new();
    let mut i: usize = 0;
    assert(all.take(0) =~= Seq::empty());
    assert(pairs_view(vaults@) =~= Seq::empty());
    while i < raw.len()
        invariant
            i <= raw.len(),
            all == raw_view(raw@),
            pairs_view(vaults@) == complete_of(all.take(i as int)),
        decreases raw.len() - i,
    {
        let ghost before = pairs_view(vaults@);
        proof {
            assert(all.take(i + 1).drop_last() =~= all.take(i as int));
            assert(all.take(i + 1).last() == raw@[i as int]@);
        }
        match (&raw[i].name, &raw[i].uri) {
            (Some(name), Some(uri)) => {
                vaults.push((name.clone(), uri.clone()));
                assert(pairs_view(vaults@) =~= before.push((name@, uri@)));
            },
            _ => {},
        }
        i += 1;
    }
    assert(all.take(raw.len() as int) =~= all);
    vaults
}

/// Keeps the identifiers that are present.
pub fn present_ids(ids: &Vec<Option<String>>) -> (present: Vec<String>)
    ensures
        names_view(present@) == present_of(fields_view(ids@)),
{
    let ghost all = fields_view(ids@);
    let mut present: Vec<String> = Vec::new();
    let mut i: usize = 0;
    assert(all.take(0) =~= Seq::empty());
    assert(names_view(present@) =~= Seq::empty());
    while i < ids.len()
        invariant
            i <= ids.len(),
            all == fields_view(ids@),
            names_view(present@) == present_of(all.take(i as int)),
        decreases ids.len() - i,
    {
        let ghost before = names_view(present@);
        proof {
            assert(all.take(i + 1).drop_last() =~= all.take(i as int));
            assert(all.take(i + 1).last() == field_view(ids@[i as int]));
        }
        match &ids[i] {
            Some(id) => {
                present.push(id.clone());
                assert(names_view(present@) =~= before.push(id@));
            },
            None => {},
        }
        i += 1;
    }
    assert(all.take(ids.len() as int) =~= all);
    present
}

/// The address of the first page of subscriptions.
pub open spec fn subscriptions_address() -> Seq<char> {
    "https://management.azure.com/subscriptions?api-version=2020-01-01"@
}

/// The address of the first page of the vaults of a subscription.
pub open spec fn vaults_address(subscription: Seq<char>) -> Seq<char> {
    "https://management.azure.com/subscriptions/"@ + subscription
        + "/providers/Microsoft.KeyVault/vaults?api-version=2025-05-01"@
}

/// The address that a request goes to: the cursor where the action carries
/// one, else the first page of what it asks for. Actions that fetch no page
/// have none.
pub open spec fn address_of(action: ActionView) -> Option<Seq<char>> {
    match action {
        ActionView::FetchSubscriptions { cursor } => match cursor {
            Some(next) => Some(next),
            None => Some(subscriptions_address()),
        },
        ActionView::FetchVaults { subscription, cursor, .. } => match cursor {
            Some(next) => Some(next),
            None => Some(vaults_address(subscription)),
        },
        _ => None,
    }
}

/// The address that the request of an action goes to.
pub fn request_address(action: &DiscoveryAction) -> (address: Option<String>)
    ensures
        field_view(address) == address_of(action@),
{
    match action {
        DiscoveryAction::FetchSubscriptions { cursor } => match cursor {
            Some(next) => Some(next.clone()),
            None => Some(
                owned("https://management.azure.com/subscriptions?api-version=2020-01-01"),
            ),
        },
        DiscoveryAction::FetchVaults { subscription, cursor, .. } => match cursor {
            Some(next) => Some(next.clone()),
            None => Some(
                join3(
                    "https://management.azure.com/subscriptions/",
                    subscription.as_str(),
                    "/providers/Microsoft.KeyVault/vaults?api-version=2025-05-01",
                ),
            ),
        },
        _ => None,
    }
}

/// No actions.
fn nothing() -> (actions: Vec<DiscoveryAction>)
    ensures
        actions_view(actions@) == Seq::<ActionView>::empty(),
{
    let actions: Vec<DiscoveryAction> = Vec::new();
    assert(actions_view(actions@) =~= Seq::<ActionView>::empty());
    actions
}

/// One action.
fn only(action: DiscoveryAction) -> (actions: Vec<DiscoveryAction>)
    ensures
        actions_view(actions@) == seq![action@],
{
    let mut actions: Vec<DiscoveryAction> = Vec::new();
    actions.push(action);
    assert(actions_view(actions@) =~= seq![action@]);
    actions
}

impl Discovery {
    /// Starts a discovery. The first page of subscriptions is to be fetched.
    pub fn new() -> (started: (Discovery, DiscoveryAction))
        ensures
            started.0@ == fresh(),
            started.1@ == (ActionView::FetchSubscriptions { cursor: None }),
    {
        let discovery = Discovery { phase: Phase::Subscriptions, slots: Vec::new() };
        assert(discovery@.slots =~= Seq::empty());
        (discovery, DiscoveryAction::FetchSubscriptions { cursor: None })
    }

    /// Whether pages are still awaited for some subscription.
    fn has_open(&self) -> (open: bool)
        ensures
            open == any_open(self@.slots),
    {
        let mut i: usize = 0;
        while i < self.slots.len()
            invariant
                i <= self.slots.len(),
                forall|j: int| 0 <= j < i ==> (#[trigger] self@.slots[j]).state != SlotState::Open,
            decreases self.slots.len() - i,
        {
            match self.slots[i].state {
                SlotState::Open => {
                    assert(self@.slots[i as int].state == SlotState::Open);
                    return true;
                },
                _ => {},
            }
            i += 1;
        }
        false
    }

    /// The vaults of the subscriptions whose listing is complete.
    fn merge(&self) -> (vaults: Vec<(String, String)>)
        ensures
            pairs_view(vaults@) == merged(self@.slots),
    {
        let ghost all = self@.slots;
        let mut vaults: Vec<(String, String)> = Vec::new();
        let mut i: usize = 0;
        assert(all.take(0) =~= Seq::empty());
        assert(pairs_view(vaults@) =~= Seq::empty());
        while i < self.slots.len()
            invariant
                i <= self.slots.len(),
                all == self@.slots,
                pairs_view(vaults@) == merged(all.take(i as int)),
            decreases self.slots.len() - i,
        {
            let ghost before = pairs_view(vaults@);
            proof {
                assert(all.take(i + 1).drop_last() =~= all.take(i as int));
                assert(all.take(i + 1).last() == self.slots@[i as int]@);
            }
            match self.slots[i].state {
                SlotState::Done => {
                    let mut copy = clone_pairs(&self.slots[i].vaults);
                    let ghost added = pairs_view(copy@);
                    let ghost held = vaults@;
                    let ghost extra = copy@;
                    vaults.append(&mut copy);
                    assert(vaults@ == held + extra);
                    assert(pairs_view(vaults@) =~= before + added);
                },
                _ => {
                    assert(before + Seq::<(Seq<char>, Seq<char>)>::empty() =~= before);
                },
            }
            i += 1;
        }
        assert(all.take(self.slots.len() as int) =~= all);
        vaults
    }

    /// Ends the primary stage once no page is awaited any more.
    fn settle(&mut self) -> (actions: Vec<DiscoveryAction>)
        ensures
            (final(self)@, actions_view(actions@)) == settled(old(self)@),
    {
        if self.has_open() {
            nothing()
        } else {
            let vaults = self.merge();
            assert(pairs_view(vaults@).len() == vaults@.len());
            if vaults.len() == 0 {
                self.phase = Phase::Fallback;
                only(DiscoveryAction::RunFallback)
            } else {
                self.phase = Phase::Finished;
                only(DiscoveryAction::Finish { vaults })
            }
        }
    }

    /// One request for the first page of vaults of every subscription.
    fn fan(&self) -> (actions: Vec<DiscoveryAction>)
        ensures
            actions_view(actions@) == fan_out(self@.slots),
    {
        let mut actions: Vec<DiscoveryAction> = Vec::new();
        let mut i: usize = 0;
        while i < self.slots.len()
            invariant
                i <= self.slots.len(),
                actions@.len() == i,
                forall|j: int| 0 <= j < i ==> (#[trigger] actions@[j])@ == fan_out(self@.slots)[j],
            decreases self.slots.len() - i,
        {
            actions.push(
                DiscoveryAction::FetchVaults {
                    slot: i,
                    subscription: self.slots[i].subscription.clone(),
                    cursor: None,
                },
            );
            i += 1;
        }
        assert(actions_view(actions@) =~= fan_out(self@.slots));
        actions
    }

    /// Takes a page of subscriptions: the identifiers on it, and the cursor of
    /// the next page where there is one. Returns the requests to make next.
    pub fn on_subscriptions_page(&mut self, ids: Vec<Option<String>>, next: Option<String>) -> (actions:
        Vec<DiscoveryAction>)
        ensures
            (final(self)@, actions_view(actions@)) == subscriptions_step(
                old(self)@,
                fields_view(ids@),
                field_view(next),
            ),
    {
        match self.phase {
            Phase::Subscriptions => {},
            _ => {
                return nothing();
            },
        }
        let present = present_ids(&ids);
        let ghost wanted = fresh_slots(names_view(present@));
        let ghost held = self@.slots;
        let mut k: usize = 0;
        assert(held + wanted.take(0) =~= held);
        while k < present.len()
            invariant
                k <= present.len(),
                self.phase == Phase::Subscriptions,
                wanted == fresh_slots(names_view(present@)),
                wanted.len() == present@.len(),
                self@.slots == held + wanted.take(k as int),
            decreases present.len() - k,
        {
            let slot = Slot {
                subscription: present[k].clone(),
                vaults: Vec::new(),
                state: SlotState::Open,
            };
            let ghost prior = self@.slots;
            let ghost added = slot@;
            proof {
                assert(slot@.vaults =~= Seq::empty());
                assert(added == wanted[k as int]);
            }
            self.slots.push(slot);
            proof {
                let goal = held + wanted.take(k + 1);
                assert(prior.len() == held.len() + k);
                assert(self@.slots.len() == prior.len() + 1);
                assert(self@.slots.len() == goal.len());
                assert forall|j: int| 0 <= j < goal.len() implies self@.slots[j] == goal[j] by {
                    if j < prior.len() {
                        assert(self@.slots[j] == prior[j]);
                        assert(prior[j] == (held + wanted.take(k as int))[j]);
                    } else {
                        assert(self@.slots[j] == added);
                    }
                }
                assert(self@.slots =~= goal);
            }
            k += 1;
        }
        assert(wanted.take(present.len() as int) =~= wanted);
        match next {
            Some(cursor) => only(DiscoveryAction::FetchSubscriptions { cursor: Some(cursor) }),
            None => {
                if self.slots.len() == 0 {
                    self.phase = Phase::Fallback;
                    only(DiscoveryAction::RunFallback)
                } else {
                    self.phase = Phase::Vaults;
                    self.fan()
                }
            },
        }
    }

    /// Whether a page for `slot` is awaited.
    fn is_awaited(&self, slot: usize) -> (yes: bool)
        ensures
            yes == awaits(self@, slot),
    {
        match self.phase {
            Phase::Vaults => {
                if slot < self.slots.len() {
                    match self.slots[slot].state {
                        SlotState::Open => true,
                        _ => false,
                    }
                } else {
                    false
                }
            },
            _ => false,
        }
    }

    /// Takes a page of vaults of the subscription in `slot`: the descriptors
    /// on it, and the cursor of the next page where there is one. Returns the
    /// requests to make next.
    pub fn on_vaults_page(&mut self, slot: usize, items: Vec<RawVault>, next: Option<String>) -> (actions:
        Vec<DiscoveryAction>)
        ensures
            (final(self)@, actions_view(actions@)) == vaults_step(
                old(self)@,
                slot,
                raw_view(items@),
                field_view(next),
            ),
    {
        if !self.is_awaited(slot) {
            return nothing();
        }
        let ghost held = self@.slots;
        let mut taken = self.slots.remove(slot);
        let mut found = complete_vaults(&items);
        let ghost before = taken.vaults@;
        let ghost extra = found@;
        taken.vaults.append(&mut found);
        assert(pairs_view(taken.vaults@) =~= pairs_view(before) + pairs_view(extra));
        match next {
            Some(cursor) => {
                let action = DiscoveryAction::FetchVaults {
                    slot,
                    subscription: taken.subscription.clone(),
                    cursor: Some(cursor),
                };
                let ghost grown = taken@;
                self.slots.insert(slot, taken);
                assert(self@.slots =~= held.update(slot as int, grown));
                only(action)
            },
            None => {
                taken.state = SlotState::Done;
                let ghost grown = taken@;
                self.slots.insert(slot, taken);
                assert(self@.slots =~= held.update(slot as int, grown));
                self.settle()
            },
        }
    }

    /// Takes the failure of a request for vaults of the subscription in
    /// `slot`. Returns the requests to make next.
    pub fn on_vaults_failed(&mut self, slot: usize) -> (actions: Vec<DiscoveryAction>)
        ensures
            (final(self)@, actions_view(actions@)) == failure_step(old(self)@, slot),
    {
        if !self.is_awaited(slot) {
            return nothing();
        }
        let ghost held = self@.slots;
        let mut taken = self.slots.remove(slot);
        taken.state = SlotState::Failed;
        let ghost failed = taken@;
        self.slots.insert(slot, taken);
        assert(self@.slots =~= held.update(slot as int, failed));
        self.settle()
    }

    /// Takes the end of the fallback: the descriptors it listed, or `None`
    /// where it failed. Returns the end of the discovery.
    pub fn on_fallback(&mut self, listing: Option<Vec<RawVault>>) -> (actions: Vec<DiscoveryAction>)
        ensures
            (final(self)@, actions_view(actions@)) == fallback_step(old(self)@, listing_view(listing)),
    {
        match self.phase {
            Phase::Fallback => {},
            _ => {
                return nothing();
            },
        }
        self.phase = Phase::Finished;
        let vaults = match listing {
            Some(raw) => complete_vaults(&raw),
            None => {
                let none: Vec<(String, String)> = Vec::new();
                assert(pairs_view(none@) =~= Seq::empty());
                none
            },
        };
        only(DiscoveryAction::Finish { vaults })
    }

    /// Takes what the command-line tool printed and whether it exited with
    /// success. A tool that failed, output that is no JSON document and a
    /// document that is no array all count as no listing.
    pub fn on_fallback_output(&mut self, success: bool, output: &[u8]) -> (actions: Vec<
        DiscoveryAction,
    >)
        ensures
            (final(self)@, actions_view(actions@)) == fallback_step(
                old(self)@,
                if success {
                    json_records(output@, "name"@, "properties"@, "vaultUri"@)
                } else {
                    None
                },
            ),
    {
        let listing = if success {
            read_records(output, "name", "properties", "vaultUri")
        } else {
            None
        };
        self.on_fallback(listing)
    }
}

/// The descriptors of a run of pages, one page after the other.
pub open spec fn all_items(
    pages: Seq<(Seq<(Option<Seq<char>>, Option<Seq<char>>)>, Option<Seq<char>>)>,
) -> Seq<(Option<Seq<char>>, Option<Seq<char>>)>
    decreases pages.len(),
{
    if pages.len() == 0 {
        Seq::empty()
    } else {
        all_items(pages.drop_last()) + pages.last().0
    }
}

/// The state after a run of pages, each with its cursor, has arrived for
/// `slot`.
pub open spec fn after_pages(
    d: DiscoveryView,
    slot: usize,
    pages: Seq<(Seq<(Option<Seq<char>>, Option<Seq<char>>)>, Option<Seq<char>>)>,
) -> DiscoveryView
    decreases pages.len(),
{
    if pages.len() == 0 {
        d
    } else {
        vaults_step(after_pages(d, slot, pages.drop_last()), slot, pages.last().0, pages.last().1).0
    }
}

/// A run of pages ends with its last page: every page before it carries a
/// cursor, and the last carries none.
pub open spec fn ends_with_last(
    pages: Seq<(Seq<(Option<Seq<char>>, Option<Seq<char>>)>, Option<Seq<char>>)>,
) -> bool {
    &&& pages.len() > 0
    &&& pages.last().1.is_none()
    &&& forall|i: int| 0 <= i < pages.len() - 1 ==> (#[trigger] pages[i]).1.is_some()
}

/// The vaults of two runs of descriptors are those of the first run followed
/// by those of the second.
pub proof fn lemma_complete_of_concat(
    a: Seq<(Option<Seq<char>>, Option<Seq<char>>)>,
    b: Seq<(Option<Seq<char>>, Option<Seq<char>>)>,
)
    ensures
        complete_of(a + b) == complete_of(a) + complete_of(b),
    decreases b.len(),
{
    if b.len() == 0 {
        assert(a + b =~= a);
        assert(complete_of(a) + complete_of(b) =~= complete_of(a));
    } else {
        lemma_complete_of_concat(a, b.drop_last());
        assert((a + b).drop_last() =~= a + b.drop_last());
        assert((a + b).last() == b.last());
        match b.last() {
            (Some(name), Some(uri)) => {
                assert(complete_of(a + b) =~= complete_of(a) + complete_of(b));
            },
            _ => {},
        }
    }
}

/// While pages with a cursor arrive for a slot that awaits them, the slot
/// stays open and gathers the vaults of all of them in order; the other slots
/// and the stage stay as they are.
pub proof fn lemma_pages_gather(
    d: DiscoveryView,
    slot: usize,
    pages: Seq<(Seq<(Option<Seq<char>>, Option<Seq<char>>)>, Option<Seq<char>>)>,
)
    requires
        awaits(d, slot),
        forall|i: int| 0 <= i < pages.len() ==> (#[trigger] pages[i]).1.is_some(),
    ensures
        awaits(after_pages(d, slot, pages), slot),
        after_pages(d, slot, pages).slots == d.slots.update(
            slot as int,
            SlotView {
                vaults: d.slots[slot as int].vaults + complete_of(all_items(pages)),
                ..d.slots[slot as int]
            },
        ),
    decreases pages.len(),
{
    let start = d.slots[slot as int];
    if pages.len() == 0 {
        assert(start.vaults + complete_of(all_items(pages)) =~= start.vaults);
        assert(d.slots.update(slot as int, start) =~= d.slots);
    } else {
        let shorter = pages.drop_last();
        assert forall|i: int| 0 <= i < shorter.len() implies (#[trigger] shorter[i]).1.is_some() by {
            assert(shorter[i] == pages[i]);
        }
        lemma_pages_gather(d, slot, shorter);
        let mid = after_pages(d, slot, shorter);
        assert(pages.last() == pages[pages.len() - 1]);
        lemma_complete_of_concat(all_items(shorter), pages.last().0);
        let grown = SlotView {
            vaults: start.vaults + complete_of(all_items(pages)),
            ..start
        };
        assert(mid.slots[slot as int].vaults + complete_of(pages.last().0) =~= grown.vaults);
        assert(after_pages(d, slot, pages).slots =~= d.slots.update(slot as int, grown));
    }
}

/// A subscription whose vault list is split across pages contributes the
/// vaults of all its pages, in order and each once: after the run of pages up
/// to the last has arrived for a slot that awaited them, the slot is complete
/// and holds what it held before followed by the vaults of every page, and
/// no other slot has changed.
pub proof fn law_pages_accumulate(
    d: DiscoveryView,
    slot: usize,
    pages: Seq<(Seq<(Option<Seq<char>>, Option<Seq<char>>)>, Option<Seq<char>>)>,
)
    requires
        awaits(d, slot),
        ends_with_last(pages),
    ensures
        after_pages(d, slot, pages).slots == d.slots.update(
            slot as int,
            SlotView {
                vaults: d.slots[slot as int].vaults + complete_of(all_items(pages)),
                state: SlotState::Done,
                ..d.slots[slot as int]
            },
        ),
        contribution(after_pages(d, slot, pages).slots[slot as int]) == d.slots[slot as int].vaults
            + complete_of(all_items(pages)),
{
    let shorter = pages.drop_last();
    assert forall|i: int| 0 <= i < shorter.len() implies (#[trigger] shorter[i]).1.is_some() by {
        assert(shorter[i] == pages[i]);
    }
    lemma_pages_gather(d, slot, shorter);
    let start = d.slots[slot as int];
    let mid = after_pages(d, slot, shorter);
    lemma_complete_of_concat(all_items(shorter), pages.last().0);
    let done = SlotView {
        vaults: start.vaults + complete_of(all_items(pages)),
        state: SlotState::Done,
        ..start
    };
    assert(mid.slots[slot as int].vaults + complete_of(pages.last().0) =~= done.vaults);
    assert(after_pages(d, slot, pages).slots =~= d.slots.update(slot as int, done));
}

/// The merged result is the contributions of the slots laid end to end: the
/// contribution of each slot stands in it once, right after those of the
/// slots before it.
pub proof fn law_merged_holds_each_once(slots: Seq<SlotView>, i: int)
    requires
        0 <= i < slots.len(),
    ensures
        merged(slots.take(i)).len() + contribution(slots[i]).len() <= merged(slots).len(),
        merged(slots).subrange(
            merged(slots.take(i)).len() as int,
            (merged(slots.take(i)).len() + contribution(slots[i]).len()) as int,
        ) == contribution(slots[i]),
        merged(slots.take(i + 1)) == merged(slots.take(i)) + contribution(slots[i]),
    decreases slots.len(),
{
    let before = merged(slots.take(i));
    let own = contribution(slots[i]);
    assert(slots.take(i + 1).drop_last() =~= slots.take(i));
    assert(slots.take(i + 1).last() == slots[i]);
    if i == slots.len() - 1 {
        assert(slots.take(i) =~= slots.drop_last());
        assert(slots.last() == slots[i]);
        assert((before + own).subrange(before.len() as int, (before.len() + own.len()) as int) =~= own);
    } else {
        let shorter = slots.drop_last();
        law_merged_holds_each_once(shorter, i);
        assert(shorter.take(i) =~= slots.take(i));
        assert(shorter[i] == slots[i]);
        let rest = contribution(slots.last());
        assert((merged(shorter) + rest).subrange(before.len() as int, (before.len() + own.len()) as int)
            =~= merged(shorter).subrange(before.len() as int, (before.len() + own.len()) as int));
    }
}

/// Something that arrives at a discovery during its primary stage.
pub enum Arrival {
    /// A page of subscriptions.
    Subscriptions { ids: Seq<Option<Seq<char>>>, next: Option<Seq<char>> },
    /// A page of the vaults of the subscription in `slot`.
    Vaults { slot: usize, items: Seq<(Option<Seq<char>>, Option<Seq<char>>)>, next: Option<Seq<char>> },
    /// The failure of a request for vaults of the subscription in `slot`.
    Failure { slot: usize },
}

/// The step that an arrival brings about.
pub open spec fn arrival_step(d: DiscoveryView, arrival: Arrival) -> (DiscoveryView, Seq<ActionView>) {
    match arrival {
        Arrival::Subscriptions { ids, next } => subscriptions_step(d, ids, next),
        Arrival::Vaults { slot, items, next } => vaults_step(d, slot, items, next),
        Arrival::Failure { slot } => failure_step(d, slot),
    }
}

/// The state after a run of arrivals, in the order in which they came.
pub open spec fn after_arrivals(d: DiscoveryView, arrivals: Seq<Arrival>) -> DiscoveryView
    decreases arrivals.len(),
{
    if arrivals.len() == 0 {
        d
    } else {
        arrival_step(after_arrivals(d, arrivals.drop_last()), arrivals.last()).0
    }
}

/// The descriptors on the pages of a run that were taken for `slot`: those of
/// every page of vaults that came for the slot while it awaited one, in the
/// order in which they came.
pub open spec fn taken_for(d: DiscoveryView, arrivals: Seq<Arrival>, slot: usize) -> Seq<
    (Option<Seq<char>>, Option<Seq<char>>),
>
    decreases arrivals.len(),
{
    if arrivals.len() == 0 {
        Seq::empty()
    } else {
        let before = taken_for(d, arrivals.drop_last(), slot);
        match arrivals.last() {
            Arrival::Vaults { slot: at, items, .. } => if at == slot && awaits(
                after_arrivals(d, arrivals.drop_last()),
                slot,
            ) {
                before + items
            } else {
                before
            },
            _ => before,
        }
    }
}

/// The vaults that a slot holds at the start of a run: none for a slot that
/// is not there yet.
pub open spec fn held_at_start(d: DiscoveryView, slot: usize) -> Seq<(Seq<char>, Seq<char>)> {
    if slot < d.slots.len() {
        d.slots[slot as int].vaults
    } else {
        Seq::empty()
    }
}

/// One arrival never removes a slot, changes the vaults of no slot but the
/// one it is a page for, and adds to that slot the vaults of the page.
pub proof fn lemma_arrival_step(d: DiscoveryView, arrival: Arrival, slot: usize)
    ensures
        d.slots.len() <= arrival_step(d, arrival).0.slots.len(),
        slot < d.slots.len() ==> arrival_step(d, arrival).0.slots[slot as int].vaults == (
        match arrival {
            Arrival::Vaults { slot: at, items, .. } => if at == slot && awaits(d, slot) {
                d.slots[slot as int].vaults + complete_of(items)
            } else {
                d.slots[slot as int].vaults
            },
            _ => d.slots[slot as int].vaults,
        }),
        d.slots.len() <= slot < arrival_step(d, arrival).0.slots.len() ==> arrival_step(
            d,
            arrival,
        ).0.slots[slot as int].vaults == Seq::<(Seq<char>, Seq<char>)>::empty(),
{
}

/// Discovery returns every vault of every page, once: after any run of
/// arrivals, in whatever order the pages of the subscriptions came, each slot
/// holds what it held at the start followed by the vaults of exactly the
/// pages that were taken for it, in the order in which they came. No run
/// removes a slot.
pub proof fn law_run_gathers_every_page(d: DiscoveryView, arrivals: Seq<Arrival>, slot: usize)
    ensures
        d.slots.len() <= after_arrivals(d, arrivals).slots.len(),
        slot < after_arrivals(d, arrivals).slots.len() ==> after_arrivals(d, arrivals).slots[slot as int].vaults
            == held_at_start(d, slot) + complete_of(taken_for(d, arrivals, slot)),
        slot >= after_arrivals(d, arrivals).slots.len() ==> taken_for(d, arrivals, slot)
            == Seq::<(Option<Seq<char>>, Option<Seq<char>>)>::empty(),
    decreases arrivals.len(),
{
    let none = Seq::<(Seq<char>, Seq<char>)>::empty();
    if arrivals.len() == 0 {
        assert(held_at_start(d, slot) + complete_of(taken_for(d, arrivals, slot)) =~= held_at_start(
            d,
            slot,
        ));
    } else {
        let shorter = arrivals.drop_last();
        let last = arrivals.last();
        let mid = after_arrivals(d, shorter);
        let end = after_arrivals(d, arrivals);
        law_run_gathers_every_page(d, shorter, slot);
        lemma_arrival_step(mid, last, slot);
        let taken_before = taken_for(d, shorter, slot);
        if slot < mid.slots.len() {
            match last {
                Arrival::Vaults { slot: at, items, .. } => {
                    if at == slot && awaits(mid, slot) {
                        lemma_complete_of_concat(taken_before, items);
                        assert(held_at_start(d, slot) + complete_of(taken_before) + complete_of(items)
                            =~= held_at_start(d, slot) + (complete_of(taken_before) + complete_of(
                            items,
                        )));
                    }
                },
                _ => {},
            }
        } else if slot < end.slots.len() {
            assert(taken_for(d, arrivals, slot) =~= taken_before);
            assert(held_at_start(d, slot) =~= none);
            assert(none + complete_of(taken_before) =~= none);
        }
    }
}

/// When the primary stage ends with a result, the result is the vaults of
/// the subscriptions whose listing is complete, and every listing has ended.
pub proof fn law_primary_result_is_merged(d: DiscoveryView, arrival: Arrival)
    requires
        d.phase == Phase::Vaults,
        arrival_step(d, arrival).0.phase == Phase::Finished,
    ensures
        arrival_step(d, arrival).1 == seq![
            ActionView::Finish { vaults: merged(arrival_step(d, arrival).0.slots) },
        ],
        !any_open(arrival_step(d, arrival).0.slots),
        merged(arrival_step(d, arrival).0.slots).len() > 0,
{
}

/// Discovery returns the union of the vaults of all pages, each once: after
/// any run of arrivals from the start, a subscription whose listing is
/// complete contributes the vaults of exactly the pages taken for it, and
/// that contribution stands in the merged result once, right after those of
/// the subscriptions before it.
pub proof fn law_discovery_returns_every_vault(arrivals: Seq<Arrival>, slot: usize)
    requires
        slot < after_arrivals(fresh(), arrivals).slots.len(),
        after_arrivals(fresh(), arrivals).slots[slot as int].state == SlotState::Done,
    ensures
        contribution(after_arrivals(fresh(), arrivals).slots[slot as int]) == complete_of(
            taken_for(fresh(), arrivals, slot),
        ),
        merged(after_arrivals(fresh(), arrivals).slots.take(slot + 1)) == merged(
            after_arrivals(fresh(), arrivals).slots.take(slot as int),
        ) + complete_of(taken_for(fresh(), arrivals, slot)),
        merged(after_arrivals(fresh(), arrivals).slots).subrange(
            merged(after_arrivals(fresh(), arrivals).slots.take(slot as int)).len() as int,
            (merged(after_arrivals(fresh(), arrivals).slots.take(slot as int)).len() + complete_of(
                taken_for(fresh(), arrivals, slot),
            ).len()) as int,
        ) == complete_of(taken_for(fresh(), arrivals, slot)),
{
    let end = after_arrivals(fresh(), arrivals);
    law_run_gathers_every_page(fresh(), arrivals, slot);
    assert(held_at_start(fresh(), slot) + complete_of(taken_for(fresh(), arrivals, slot))
        =~= complete_of(taken_for(fresh(), arrivals, slot)));
    law_merged_holds_each_once(end.slots, slot as int);
}

/// The number of vaults in the merged result is the sum of what the slots
/// contribute: nothing is merged twice and nothing is left out.
pub proof fn law_merged_length_is_the_sum(slots: Seq<SlotView>)
    ensures
        merged(slots).len() == contributed(slots),
    decreases slots.len(),
{
    if slots.len() > 0 {
        law_merged_length_is_the_sum(slots.drop_last());
    }
}

/// How many vaults the slots contribute together.
pub open spec fn contributed(slots: Seq<SlotView>) -> nat
    decreases slots.len(),
{
    if slots.len() == 0 {
        0
    } else {
        contributed(slots.drop_last()) + contribution(slots.last()).len()
    }
}

/// While subscriptions are still being listed, no listing of vaults has
/// ended: every slot is open.
pub open spec fn orderly(d: DiscoveryView) -> bool {
    d.phase == Phase::Subscriptions ==> forall|i: int|
        0 <= i < d.slots.len() ==> (#[trigger] d.slots[i]).state == SlotState::Open
}

/// Whether an arrival is a page, or a failure, for `slot`.
pub open spec fn is_for(arrival: Arrival, slot: usize) -> bool {
    match arrival {
        Arrival::Subscriptions { .. } => false,
        Arrival::Vaults { slot: at, .. } => at == slot,
        Arrival::Failure { slot: at } => at == slot,
    }
}

/// A discovery is orderly at its start and stays so.
pub proof fn law_discovery_stays_orderly(d: DiscoveryView, arrival: Arrival)
    requires
        orderly(d),
    ensures
        orderly(fresh()),
        orderly(arrival_step(d, arrival).0),
{
    let after = arrival_step(d, arrival).0;
    if after.phase == Phase::Subscriptions {
        match arrival {
            Arrival::Subscriptions { ids, next } => {
                assert forall|i: int| 0 <= i < after.slots.len() implies (#[trigger] after.slots[i]).state
                    == SlotState::Open by {
                    if i < d.slots.len() {
                        assert(after.slots[i] == d.slots[i]);
                    }
                }
            },
            _ => {},
        }
    }
}

/// Every page of vaults that a step asks for is awaited from then on: the
/// slot that a request names is there and open, and the discovery is in the
/// stage that takes pages of vaults.
pub proof fn law_requested_page_is_awaited(d: DiscoveryView, arrival: Arrival, i: int)
    requires
        orderly(d),
        0 <= i < arrival_step(d, arrival).1.len(),
        arrival_step(d, arrival).1[i] is FetchVaults,
    ensures
        awaits(arrival_step(d, arrival).0, arrival_step(d, arrival).1[i]->FetchVaults_slot),
{
    let after = arrival_step(d, arrival).0;
    match arrival {
        Arrival::Subscriptions { ids, next } => {
            assert(after.slots[i].state == SlotState::Open) by {
                if i < d.slots.len() {
                    assert(after.slots[i] == d.slots[i]);
                }
            }
        },
        _ => {},
    }
}

/// A slot that awaits a page goes on awaiting it until a page or a failure
/// for that slot arrives: what arrives for other slots neither closes it nor
/// ends the stage.
pub proof fn law_awaited_until_its_page(d: DiscoveryView, arrival: Arrival, slot: usize)
    requires
        awaits(d, slot),
        !is_for(arrival, slot),
    ensures
        awaits(arrival_step(d, arrival).0, slot),
{
    match arrival {
        Arrival::Vaults { slot: at, items, next } => {
            if awaits(d, at) {
                let old = d.slots[at as int];
                let grown = SlotView { vaults: old.vaults + complete_of(items), ..old };
                if next.is_none() {
                    let closed = d.slots.update(
                        at as int,
                        SlotView { state: SlotState::Done, ..grown },
                    );
                    assert(closed[slot as int].state == SlotState::Open);
                    assert(any_open(closed));
                }
            }
        },
        Arrival::Failure { slot: at } => {
            if awaits(d, at) {
                let old = d.slots[at as int];
                let closed = d.slots.update(
                    at as int,
                    SlotView { state: SlotState::Failed, ..old },
                );
                assert(closed[slot as int].state == SlotState::Open);
                assert(any_open(closed));
            }
        },
        _ => {},
    }
}

} // verus!
