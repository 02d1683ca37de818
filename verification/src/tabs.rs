//! The catalog of time controls the user can pick from.
//!
//! A time control is a pair `(base, increment)` of durations, both in
//! milliseconds: each player starts with `base` on the clock and receives
//! `increment` whenever they complete a move. The catalog is an ordered
//! list of four controls; the picker walks it left and right, clamping at
//! both ends.

use vstd::prelude::*;

use crate::event::Key;

verus! {

/// A `(base, increment)` pair, both in milliseconds.
pub type CtrlOption = (u64, u64);

/// One entry of the ordered time-control catalog.
///
/// The entries, in order: 3 minutes + 2 seconds, 1 minute + 0,
/// 5 minutes + 2 seconds, 10 minutes + 0.
#[derive(Debug, Clone, Copy, PartialEq, Eq, Structural)]
pub enum TimeCtrl {
    Tab1,
    Tab2,
    Tab3,
    Tab4,
}

impl Default for TimeCtrl {
    /// The catalog opens on its first entry.
    fn default() -> (r: Self)
        ensures
            r == TimeCtrl::Tab1,
    {
        TimeCtrl::Tab1
    }
}

impl TimeCtrl {
    /// The entry one step to the left; the first entry is its own neighbour.
    pub open spec fn spec_previous(self) -> TimeCtrl {
        match self {
            TimeCtrl::Tab1 => TimeCtrl::Tab1,
            TimeCtrl::Tab2 => TimeCtrl::Tab1,
            TimeCtrl::Tab3 => TimeCtrl::Tab2,
            TimeCtrl::Tab4 => TimeCtrl::Tab3,
        }
    }

    /// The entry one step to the right; the last entry is its own neighbour.
    pub open spec fn spec_next(self) -> TimeCtrl {
        match self {
            TimeCtrl::Tab1 => TimeCtrl::Tab2,
            TimeCtrl::Tab2 => TimeCtrl::Tab3,
            TimeCtrl::Tab3 => TimeCtrl::Tab4,
            TimeCtrl::Tab4 => TimeCtrl::Tab4,
        }
    }

    /// The `(base, increment)` pair of this entry, in milliseconds.
    pub open spec fn spec_to_duration(self) -> CtrlOption {
        match self {
            TimeCtrl::Tab1 => (180_000u64, 2_000u64),
            TimeCtrl::Tab2 => (60_000u64, 0u64),
            TimeCtrl::Tab3 => (300_000u64, 2_000u64),
            TimeCtrl::Tab4 => (600_000u64, 0u64),
        }
    }

    /// Step the picker one entry to the left, clamping at the first entry.
    pub fn previous(&mut self)
        ensures
            *final(self) == old(self).spec_previous(),
    {
        *self = match *self {
            TimeCtrl::Tab1 => TimeCtrl::Tab1,
            TimeCtrl::Tab2 => TimeCtrl::Tab1,
            TimeCtrl::Tab3 => TimeCtrl::Tab2,
            TimeCtrl::Tab4 => TimeCtrl::Tab3,
        };
    }

    /// Step the picker one entry to the right, clamping at the last entry.
    pub fn next(&mut self)
        ensures
            *final(self) == old(self).spec_next(),
    {
        *self = match *self {
            TimeCtrl::Tab1 => TimeCtrl::Tab2,
            TimeCtrl::Tab2 => TimeCtrl::Tab3,
            TimeCtrl::Tab3 => TimeCtrl::Tab4,
            TimeCtrl::Tab4 => TimeCtrl::Tab4,
        };
    }

    /// The picker after a key press: the arrow keys step through the
    /// catalog, every other key changes nothing.
    pub open spec fn spec_handle_key(self, key: Key) -> TimeCtrl {
        match key {
            Key::Right => self.spec_next(),
            Key::Left => self.spec_previous(),
            _ => self,
        }
    }

    /// Route a key press to the picker, as [`TimeCtrl::spec_handle_key`]
    /// says.
    pub fn handle_key_events(&mut self, key: Key)
        ensures
            *final(self) == old(self).spec_handle_key(key),
    {
        match key {
            Key::Right => self.next(),
            Key::Left => self.previous(),
            _ => {},
        }
    }

    /// The `(base, increment)` pair of this entry, in milliseconds.
    pub fn to_duration(&self) -> (r: CtrlOption)
        ensures
            r == self.spec_to_duration(),
    {
        match self {
            TimeCtrl::Tab1 => (180_000, 2_000),
            TimeCtrl::Tab2 => (60_000, 0),
            TimeCtrl::Tab3 => (300_000, 2_000),
            TimeCtrl::Tab4 => (600_000, 0),
        }
    }

    /// Every catalog entry grants each player a positive base time.
    pub proof fn lemma_base_positive(self)
        ensures
            self.spec_to_duration().0 > 0,
    {
    }
}

} // verus!
