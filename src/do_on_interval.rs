//! A timer that allows an action at most once per interval.
//!
//! Times are milliseconds on a monotonic clock that the caller reads and
//! hands in; the timer itself never reads a clock.
use vstd::prelude::*;

use crate::crate_private::Sealed;
use crate::either::Either;

verus! {

/// How a `DoOnInterval` restarts its interval.
pub trait DoOnIntervalMode: Sealed {}

/// The interval restarts when the caller finishes the action it was allowed.
#[derive(Copy, Clone, PartialEq, Eq, Debug)]
pub struct GiveUpdaters;

/// The interval restarts as soon as a check allows the action.
#[derive(Copy, Clone, PartialEq, Eq, Debug)]
pub struct UpdateOnCheck;

impl Sealed for GiveUpdaters {}

impl Sealed for UpdateOnCheck {}

impl DoOnIntervalMode for GiveUpdaters {}

impl DoOnIntervalMode for UpdateOnCheck {}

/// Whether more than `gap` milliseconds lie between `last` and `now`; an
/// action never done is always due. A `now` before `last` counts as no time.
pub open spec fn interval_elapsed(last: Option<u64>, gap: u64, now: u64) -> bool {
    match last {
        None => true,
        Some(l) => now > l && now - l > gap,
    }
}

/// A timer that allows an action only once `gap` milliseconds have passed
/// since it was last done.
#[derive(Debug)]
pub struct DoOnInterval<MODE: DoOnIntervalMode> {
    /// When the action was last done; `None` before the first time.
    last_did: Option<u64>,
    /// Milliseconds between actions.
    gap: u64,
    /// Whether an updater handed out by `get_updater` is still outstanding.
    updater_exists: bool,
    /// The mode marker.
    mode: core::marker::PhantomData<MODE>,
}

/// Handed out when a `DoOnInterval<GiveUpdaters>` allows the action; give it
/// back to `finish_update` when the action is done.
#[derive(Debug)]
pub struct DOIUpdate {
    /// Only this module makes one.
    token: (),
}

impl<MODE: DoOnIntervalMode> View for DoOnInterval<MODE> {
    /// When last done, the gap, and whether an updater is outstanding.
    type V = (Option<u64>, u64, bool);

    closed spec fn view(&self) -> (Option<u64>, u64, bool) {
        (self.last_did, self.gap, self.updater_exists)
    }
}

impl<MODE: DoOnIntervalMode> DoOnInterval<MODE> {
    /// A timer with the given gap in milliseconds; the first action is due at once.
    pub fn new(gap: u64) -> (r: Self)
        ensures
            r@ == (None::<u64>, gap, false),
    {
        DoOnInterval { last_did: None, gap, updater_exists: false, mode: core::marker::PhantomData }
    }

    /// Whether the interval has passed at time `now`.
    pub open spec fn due_at(&self, now: u64) -> bool {
        interval_elapsed(self@.0, self@.1, now)
    }

    /// Whether the interval has passed at time `now`.
    pub fn is_due(&self, now: u64) -> (r: bool)
        ensures
            r == self.due_at(now),
    {
        match self.last_did {
            None => true,
            Some(l) => now > l && now - l > self.gap,
        }
    }
}

impl DoOnInterval<UpdateOnCheck> {
    /// If the interval has passed at `now`, restarts it and returns true;
    /// otherwise returns false and changes nothing.
    pub fn can_do(&mut self, now: u64) -> (r: bool)
        ensures
            r == old(self).due_at(now),
            final(self)@ == (if r {
                (Some(now), old(self)@.1, old(self)@.2)
            } else {
                old(self)@
            }),
    {
        if self.is_due(now) {
            self.last_did = Some(now);
            true
        } else {
            false
        }
    }

    /// Restarts the interval at `now`.
    pub fn update_timer(&mut self, now: u64)
        ensures
            final(self)@ == (Some(now), old(self)@.1, old(self)@.2),
    {
        self.last_did = Some(now);
    }

    /// The same timer in the mode that hands out updaters.
    pub fn to_give_updaters(self) -> (r: DoOnInterval<GiveUpdaters>)
        ensures
            r@ == (self@.0, self@.1, false),
    {
        DoOnInterval { last_did: self.last_did, gap: self.gap, updater_exists: false, mode: core::marker::PhantomData }
    }
}

impl DoOnInterval<GiveUpdaters> {
    /// Allows the action if no updater is outstanding and the interval has
    /// passed at `now`; the interval restarts when the updater is finished.
    pub fn get_updater(&mut self, now: u64) -> (r: Option<DOIUpdate>)
        ensures
            r is Some == (!old(self)@.2 && old(self).due_at(now)),
            final(self)@ == (if r is Some {
                (old(self)@.0, old(self)@.1, true)
            } else {
                old(self)@
            }),
    {
        if !self.updater_exists && self.is_due(now) {
            self.updater_exists = true;
            Some(DOIUpdate { token: () })
        } else {
            None
        }
    }

    /// The allowed action is done at `now`: the interval restarts then.
    pub fn finish_update(&mut self, update: DOIUpdate, now: u64)
        ensures
            final(self)@ == (Some(now), old(self)@.1, false),
    {
        let DOIUpdate { token: _ } = update;
        self.last_did = Some(now);
        self.updater_exists = false;
    }

    /// The same timer in the mode that restarts on a check; refused, with the
    /// timer handed back, while an updater is outstanding.
    pub fn to_update_on_check(self) -> (r: Either<DoOnInterval<GiveUpdaters>, DoOnInterval<UpdateOnCheck>>)
        ensures
            match r {
                Either::Left(t) => self@.2 && t@ == self@,
                Either::Right(t) => !self@.2 && t@ == self@,
            },
    {
        if self.updater_exists {
            Either::Left(self)
        } else {
            Either::Right(DoOnInterval { last_did: self.last_did, gap: self.gap, updater_exists: false, mode: core::marker::PhantomData })
        }
    }
}

} // verus!
