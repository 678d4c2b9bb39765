//! The preload scheduler: after a discovery, the secret names of every vault
//! are listed in the background, never more than a fixed number at a time.

use crate::model::vault_view;
use crate::text::pairs_view;
use vstd::prelude::*;

verus! {

/// The number of listings that run at a time unless told otherwise.
pub const DEFAULT_LIMIT: usize = 4;

/// The vaults still to list and the number of listings under way.
#[derive(Debug)]
pub struct Preload {
    limit: usize,
    waiting: Vec<(String, String)>,
    in_flight: usize,
}

/// The view of a [`Preload`].
pub struct PreloadView {
    /// How many listings may run at a time.
    pub limit: nat,
    /// The vaults that no listing has started for, first in line first.
    pub waiting: Seq<(Seq<char>, Seq<char>)>,
    /// How many listings have started and not ended.
    pub in_flight: nat,
}

/// Whether no more listings run than may.
pub open spec fn bounded(p: PreloadView) -> bool {
    p.in_flight <= p.limit
}

/// Whether a listing may start: a vault waits and a place is free.
pub open spec fn can_start(p: PreloadView) -> bool {
    p.waiting.len() > 0 && p.in_flight < p.limit
}

/// The state after the next listing has started, and its vault; nothing
/// starts where none may.
pub open spec fn start_step(p: PreloadView) -> (PreloadView, Option<(Seq<char>, Seq<char>)>) {
    if can_start(p) {
        (
            PreloadView { waiting: p.waiting.drop_first(), in_flight: p.in_flight + 1, ..p },
            Some(p.waiting[0]),
        )
    } else {
        (p, None)
    }
}

/// The state after a listing has ended, whether it succeeded or not.
pub open spec fn end_step(p: PreloadView) -> PreloadView {
    if p.in_flight > 0 {
        PreloadView { in_flight: (p.in_flight - 1) as nat, ..p }
    } else {
        p
    }
}

impl Preload {
    /// The scheduler as a plain value.
    pub closed spec fn view(&self) -> PreloadView {
        PreloadView {
            limit: self.limit as nat,
            waiting: pairs_view(self.waiting@),
            in_flight: self.in_flight as nat,
        }
    }

    /// A preload of `vaults` with at most `limit` listings at a time. None has
    /// started yet.
    pub fn new(vaults: Vec<(String, String)>, limit: usize) -> (preload: Preload)
        ensures
            preload@ == (PreloadView {
                limit: limit as nat,
                waiting: pairs_view(vaults@),
                in_flight: 0,
            }),
            bounded(preload@),
    {
        Preload { limit, waiting: vaults, in_flight: 0 }
    }

    /// Starts the next listing if one may start, and returns its vault.
    pub fn start_next(&mut self) -> (vault: Option<(String, String)>)
        requires
            bounded(old(self)@),
        ensures
            bounded(final(self)@),
            (final(self)@, vault_view(vault)) == start_step(old(self)@),
    {
        if self.waiting.len() > 0 && self.in_flight < self.limit {
            let ghost before = pairs_view(self.waiting@);
            let vault = self.waiting.remove(0);
            self.in_flight = self.in_flight + 1;
            assert(pairs_view(self.waiting@) =~= before.drop_first());
            Some(vault)
        } else {
            None
        }
    }

    /// Records that a listing has ended.
    pub fn finished(&mut self)
        requires
            bounded(old(self)@),
        ensures
            bounded(final(self)@),
            final(self)@ == end_step(old(self)@),
    {
        if self.in_flight > 0 {
            self.in_flight = self.in_flight - 1;
        }
    }

    /// How many listings are under way.
    pub fn in_flight(&self) -> (n: usize)
        ensures
            n == self@.in_flight,
    {
        self.in_flight
    }

    /// Whether every vault has been listed: none waits and no listing runs.
    pub fn is_done(&self) -> (done: bool)
        ensures
            done == (self@.waiting.len() == 0 && self@.in_flight == 0),
    {
        assert(pairs_view(self.waiting@).len() == self.waiting@.len());
        self.waiting.len() == 0 && self.in_flight == 0
    }
}

/// What a scheduler has gone through: `true` for an attempt to start a
/// listing, `false` for the end of one.
pub open spec fn after_steps(p: PreloadView, steps: Seq<bool>) -> PreloadView
    decreases steps.len(),
{
    if steps.len() == 0 {
        p
    } else {
        let before = after_steps(p, steps.drop_last());
        if steps.last() {
            start_step(before).0
        } else {
            end_step(before)
        }
    }
}

/// At no instant do more listings run than the limit allows: whatever starts
/// are attempted and whatever listings end, in whatever order, a scheduler
/// that began within its limit stays within it, and its limit stays the same.
pub proof fn law_preload_stays_bounded(p: PreloadView, steps: Seq<bool>)
    requires
        bounded(p),
    ensures
        bounded(after_steps(p, steps)),
        after_steps(p, steps).limit == p.limit,
    decreases steps.len(),
{
    if steps.len() > 0 {
        law_preload_stays_bounded(p, steps.drop_last());
    }
}

} // verus!
