//! The clock model: per-player remaining time, active turn, increment.
//!
//! All durations are in milliseconds. The model is pure state: it is
//! mutated only by the controller loop, one event at a time, and it emits
//! no events itself. Once either player's remaining time reaches zero the
//! model is in a terminal timed-out condition: countdown ticks, hits and
//! pause toggles change nothing until the clock is configured anew.

use vstd::prelude::*;

use crate::event::TIMER_TICK;
use crate::tabs::TimeCtrl;

verus! {

/// Remaining time flashes as "burning" strictly below this many milliseconds.
pub const BURNING_LIMIT: u64 = 21_000;

/// A duration in milliseconds.
#[derive(Debug, Clone, Copy, PartialEq, Eq, Structural)]
pub struct Time(pub u64);

impl Time {
    /// Hours, minutes, seconds and tenths of a second of this duration,
    /// as the display shows them.
    pub open spec fn spec_parts(self) -> (u64, u64, u64, u64) {
        (
            ((self.0 / 1_000) / 3_600) as u64,
            (((self.0 / 1_000) % 3_600) / 60) as u64,
            ((self.0 / 1_000) % 60) as u64,
            ((self.0 % 1_000) / 100) as u64,
        )
    }

    /// The parts are a faithful decomposition: minutes and seconds lie
    /// below sixty, tenths below ten, and hours, minutes and seconds
    /// reassemble to the duration's whole seconds.
    pub proof fn lemma_parts(self)
        ensures
            self.spec_parts().1 < 60,
            self.spec_parts().2 < 60,
            self.spec_parts().3 < 10,
            3_600 * self.spec_parts().0 + 60 * self.spec_parts().1 + self.spec_parts().2
                == self.0 / 1_000,
    {
        let s = (self.0 / 1_000) as int;
        vstd::arithmetic::div_mod::lemma_fundamental_div_mod(s, 3_600);
        vstd::arithmetic::div_mod::lemma_fundamental_div_mod(s % 3_600, 60);
        vstd::arithmetic::div_mod::lemma_mod_mod(s, 60, 60);
    }

    /// Split the duration into hours, minutes, seconds and tenths of a
    /// second for display.
    pub fn parts(&self) -> (r: (u64, u64, u64, u64))
        ensures
            r == self.spec_parts(),
    {
        let total_s = self.0 / 1_000;
        let hh = total_s / 3_600;
        let mm = (total_s % 3_600) / 60;
        let ss = total_s % 60;
        let tenths = (self.0 % 1_000) / 100;
        (hh, mm, ss, tenths)
    }
}

/// One of the two players sharing the clock.
#[derive(Debug, Clone, Copy, PartialEq, Eq, Structural)]
pub enum Player {
    Player1,
    Player2,
}

impl Player {
    /// The opponent.
    pub open spec fn spec_other(self) -> Player {
        match self {
            Player::Player1 => Player::Player2,
            Player::Player2 => Player::Player1,
        }
    }

    /// The opponent.
    pub fn other(self) -> (r: Player)
        ensures
            r == self.spec_other(),
    {
        match self {
            Player::Player1 => Player::Player2,
            Player::Player2 => Player::Player1,
        }
    }

    /// The turn in which this player's clock runs.
    pub open spec fn spec_turn(self) -> ClockTurn {
        match self {
            Player::Player1 => ClockTurn::Player1,
            Player::Player2 => ClockTurn::Player2,
        }
    }

    /// The turn in which this player's clock runs.
    pub fn turn(self) -> (r: ClockTurn)
        ensures
            r == self.spec_turn(),
    {
        match self {
            Player::Player1 => ClockTurn::Player1,
            Player::Player2 => ClockTurn::Player2,
        }
    }
}

/// Whose clock is running, if any.
#[derive(Debug, Clone, Copy, PartialEq, Eq, Structural)]
pub enum ClockTurn {
    /// No move has been made yet; neither clock runs.
    NotStarted,
    /// Player 1's clock runs.
    Player1,
    /// Player 2's clock runs.
    Player2,
    /// The clock is paused; the payload remembers whose turn resumes.
    Paused(Player),
}

/// The chess clock: both players' remaining time and the active turn.
#[derive(Debug, Clone, Copy, PartialEq, Eq, Structural)]
pub struct Clock {
    /// Player 1's remaining time.
    pub player1: Time,
    /// Player 2's remaining time.
    pub player2: Time,
    /// Whose clock is running, if any.
    pub turn: ClockTurn,
    /// Milliseconds granted to a player each time they complete a move.
    pub increment: u64,
    /// The catalog entry the clock was last configured with.
    pub time_ctrl: TimeCtrl,
    /// The player whose clock starts running on the first hit.
    pub first_to_move: Player,
}

impl Clock {
    /// True iff either player has run out of time; the terminal condition.
    pub open spec fn spec_timed_out(self) -> bool {
        self.player1.0 == 0 || self.player2.0 == 0
    }

    /// Timeout report: whether a player timed out, and which (1 or 2, 0 for
    /// none); player 1 is reported when both are out.
    pub open spec fn spec_timed_out_player(self) -> (bool, usize) {
        if self.player1.0 == 0 {
            (true, 1usize)
        } else if self.player2.0 == 0 {
            (true, 2usize)
        } else {
            (false, 0usize)
        }
    }

    /// The clock after being configured with `base` and `increment`
    /// milliseconds: both players hold `base`, no move has been made.
    pub open spec fn spec_configure(self, base: u64, increment: u64) -> Clock {
        Clock {
            player1: Time(base),
            player2: Time(base),
            increment: increment,
            turn: ClockTurn::NotStarted,
            ..self
        }
    }

    /// The clock after being configured with a catalog entry.
    pub open spec fn spec_set(self, ctrl: TimeCtrl) -> Clock {
        Clock {
            time_ctrl: ctrl,
            ..self.spec_configure(ctrl.spec_to_duration().0, ctrl.spec_to_duration().1)
        }
    }

    /// The clock after a hit. Timed out or paused: unchanged. Not started:
    /// the first mover's clock starts. Otherwise the active player banks the
    /// increment (saturating at the type's limit) and the turn passes.
    pub open spec fn spec_hit(self) -> Clock {
        if self.spec_timed_out() {
            self
        } else {
            match self.turn {
                ClockTurn::NotStarted => Clock { turn: self.first_to_move.spec_turn(), ..self },
                ClockTurn::Player1 => Clock {
                    turn: ClockTurn::Player2,
                    player1: Time(self.player1.0.saturating_add(self.increment)),
                    ..self
                },
                ClockTurn::Player2 => Clock {
                    turn: ClockTurn::Player1,
                    player2: Time(self.player2.0.saturating_add(self.increment)),
                    ..self
                },
                ClockTurn::Paused(_) => self,
            }
        }
    }

    /// The clock after `elapsed` milliseconds of countdown. Only the active
    /// player's remaining time decreases, saturating at zero; not started,
    /// paused or timed out, nothing changes.
    pub open spec fn spec_tick(self, elapsed: u64) -> Clock {
        if self.spec_timed_out() {
            self
        } else {
            match self.turn {
                ClockTurn::Player1 => Clock {
                    player1: Time(self.player1.0.saturating_sub(elapsed)),
                    ..self
                },
                ClockTurn::Player2 => Clock {
                    player2: Time(self.player2.0.saturating_sub(elapsed)),
                    ..self
                },
                _ => self,
            }
        }
    }

    /// The clock after a pause toggle: a running turn is parked, a parked
    /// turn resumes to the remembered player; not started or timed out,
    /// nothing changes.
    pub open spec fn spec_pause(self) -> Clock {
        if self.spec_timed_out() {
            self
        } else {
            match self.turn {
                ClockTurn::NotStarted => self,
                ClockTurn::Player1 => Clock { turn: ClockTurn::Paused(Player::Player1), ..self },
                ClockTurn::Player2 => Clock { turn: ClockTurn::Paused(Player::Player2), ..self },
                ClockTurn::Paused(p) => Clock { turn: p.spec_turn(), ..self },
            }
        }
    }

    /// The clock after flipping who moves first; only meaningful, and only
    /// effective, before the first move.
    pub open spec fn spec_flip_first_to_move(self) -> Clock {
        if self.turn is NotStarted {
            Clock { first_to_move: self.first_to_move.spec_other(), ..self }
        } else {
            self
        }
    }

    /// True iff `time` (in milliseconds) is low enough to flash as burning.
    pub fn burning(time: u64) -> (r: bool)
        ensures
            r == (time < BURNING_LIMIT),
    {
        time < BURNING_LIMIT
    }

    /// Configure the clock: both players receive `base` milliseconds, the
    /// increment becomes `increment` milliseconds, and no move is made.
    pub fn configure(&mut self, base: u64, increment: u64)
        ensures
            *final(self) == old(self).spec_configure(base, increment),
    {
        self.player1.0 = base;
        self.player2.0 = base;
        self.increment = increment;
        self.turn = ClockTurn::NotStarted;
    }

    /// Configure the clock from a catalog entry, remembering the entry.
    pub fn set(&mut self, ctrl: TimeCtrl)
        ensures
            *final(self) == old(self).spec_set(ctrl),
    {
        self.time_ctrl = ctrl;
        let (base, increment) = ctrl.to_duration();
        self.configure(base, increment);
    }

    /// End the current player's move: start the first mover's clock from
    /// `NotStarted`, or bank the increment and pass the turn. A no-op while
    /// paused or timed out.
    pub fn hit(&mut self)
        ensures
            *final(self) == old(self).spec_hit(),
    {
        if self.is_time_out() {
            return;
        }
        match self.turn {
            ClockTurn::NotStarted => {
                self.turn = self.first_to_move.turn();
            },
            ClockTurn::Player1 => {
                self.turn = ClockTurn::Player2;
                self.player1.0 = self.player1.0.saturating_add(self.increment);
            },
            ClockTurn::Player2 => {
                self.turn = ClockTurn::Player1;
                self.player2.0 = self.player2.0.saturating_add(self.increment);
            },
            ClockTurn::Paused(_) => {},
        }
    }

    /// Subtract `elapsed` milliseconds from the active player's remaining
    /// time, saturating at zero. A no-op when not started, paused or timed
    /// out.
    pub fn tick(&mut self, elapsed: u64)
        ensures
            *final(self) == old(self).spec_tick(elapsed),
    {
        if self.is_time_out() {
            return;
        }
        match self.turn {
            ClockTurn::Player1 => {
                self.player1.0 = self.player1.0.saturating_sub(elapsed);
            },
            ClockTurn::Player2 => {
                self.player2.0 = self.player2.0.saturating_sub(elapsed);
            },
            _ => {},
        }
    }

    /// Apply one countdown tick of [`TIMER_TICK`] milliseconds.
    pub fn tick_timer(&mut self)
        ensures
            *final(self) == old(self).spec_tick(TIMER_TICK),
    {
        self.tick(TIMER_TICK);
    }

    /// Toggle the pause state: park a running turn, or resume to the player
    /// remembered when the clock was parked. A single toggle operation, so
    /// the remembered player cannot be lost. A no-op when not started or
    /// timed out.
    pub fn pause(&mut self)
        ensures
            *final(self) == old(self).spec_pause(),
    {
        if self.is_time_out() {
            return;
        }
        match self.turn {
            ClockTurn::NotStarted => {},
            ClockTurn::Player1 => {
                self.turn = ClockTurn::Paused(Player::Player1);
            },
            ClockTurn::Player2 => {
                self.turn = ClockTurn::Paused(Player::Player2);
            },
            ClockTurn::Paused(p) => {
                self.turn = p.turn();
            },
        }
    }

    /// Flip which player moves first; effective only before the first move.
    pub fn flip_first_to_move(&mut self)
        ensures
            *final(self) == old(self).spec_flip_first_to_move(),
    {
        if matches!(self.turn, ClockTurn::NotStarted) {
            self.first_to_move = self.first_to_move.other();
        }
    }

    /// True iff either player has run out of time.
    pub fn is_time_out(&self) -> (r: bool)
        ensures
            r == self.spec_timed_out(),
    {
        self.player1.0 == 0 || self.player2.0 == 0
    }

    /// Whether a player timed out, and which: `(true, 1)` or `(true, 2)`
    /// for a timeout (player 1 reported when both are out), `(false, 0)`
    /// otherwise.
    pub fn is_time_out_player(&self) -> (r: (bool, usize))
        ensures
            r == self.spec_timed_out_player(),
            r.0 == self.spec_timed_out(),
    {
        if self.player1.0 == 0 {
            (true, 1)
        } else if self.player2.0 == 0 {
            (true, 2)
        } else {
            (false, 0)
        }
    }
}

impl Clock {
    /// The clock after `n` successive hits.
    pub open spec fn spec_hits(self, n: nat) -> Clock
        decreases n,
    {
        if n == 0 {
            self
        } else {
            self.spec_hits((n - 1) as nat).spec_hit()
        }
    }

    /// Saturation: a countdown tick never drives a remaining time below
    /// zero; a tick that overshoots the active player's time lands exactly
    /// on zero; and a tick changes neither the turn, nor the first mover,
    /// nor the inactive player's time.
    pub proof fn lemma_tick_saturation(self, elapsed: u64)
        ensures
            self.spec_tick(elapsed).player1.0 >= 0,
            self.spec_tick(elapsed).player2.0 >= 0,
            self.turn is Player1 && !self.spec_timed_out() && self.player1.0 <= elapsed
                ==> self.spec_tick(elapsed).player1.0 == 0,
            self.turn is Player2 && !self.spec_timed_out() && self.player2.0 <= elapsed
                ==> self.spec_tick(elapsed).player2.0 == 0,
            self.spec_tick(elapsed).turn == self.turn,
            self.spec_tick(elapsed).first_to_move == self.first_to_move,
            self.turn is Player1 ==> self.spec_tick(elapsed).player2 == self.player2,
            self.turn is Player2 ==> self.spec_tick(elapsed).player1 == self.player1,
    {
    }

    /// Repeated ticks past zero keep the remaining time at exactly zero:
    /// a tick from a timed-out clock changes nothing at all.
    pub proof fn lemma_tick_past_zero(self, elapsed: u64, more: u64)
        requires
            self.spec_tick(elapsed).spec_timed_out(),
        ensures
            self.spec_tick(elapsed).spec_tick(more) == self.spec_tick(elapsed),
    {
    }

    /// Turn alternation: from `NotStarted`, successive hits hand the turn
    /// to the first mover, the opponent, the first mover, and so on; hits
    /// never change who moves first, and never time a player out.
    pub proof fn lemma_turn_alternation(self, n: nat)
        requires
            self.turn is NotStarted,
            !self.spec_timed_out(),
        ensures
            self.spec_hits(n).first_to_move == self.first_to_move,
            !self.spec_hits(n).spec_timed_out(),
            n == 0 ==> self.spec_hits(n).turn == self.turn,
            n % 2 == 1 ==> self.spec_hits(n).turn == self.first_to_move.spec_turn(),
            n > 0 && n % 2 == 0 ==> self.spec_hits(n).turn
                == self.first_to_move.spec_other().spec_turn(),
        decreases n,
    {
        if n > 0 {
            self.lemma_turn_alternation((n - 1) as nat);
        }
    }

    /// Increment correctness: a hit while a player is active adds exactly
    /// the increment to that player's time (short of the type's limit),
    /// leaves the opponent's time unchanged, and passes the turn.
    pub proof fn lemma_hit_increment(self)
        requires
            !self.spec_timed_out(),
        ensures
            self.turn is Player1 && self.player1.0 + self.increment <= u64::MAX ==> {
                &&& self.spec_hit().player1.0 == self.player1.0 + self.increment
                &&& self.spec_hit().player2 == self.player2
                &&& self.spec_hit().turn is Player2
            },
            self.turn is Player2 && self.player2.0 + self.increment <= u64::MAX ==> {
                &&& self.spec_hit().player2.0 == self.player2.0 + self.increment
                &&& self.spec_hit().player1 == self.player1
                &&& self.spec_hit().turn is Player1
            },
    {
    }

    /// Timeout freezes the state: once a player's time is zero, hits,
    /// countdown ticks and pause toggles all change nothing.
    pub proof fn lemma_timeout_freezes(self, elapsed: u64)
        requires
            self.spec_timed_out(),
        ensures
            self.spec_tick(elapsed) == self,
            self.spec_hit() == self,
            self.spec_pause() == self,
    {
    }

    /// Pause is an involution: toggling pause twice restores the clock
    /// exactly, in particular the player who was active before the first
    /// toggle.
    pub proof fn lemma_pause_involution(self)
        ensures
            self.spec_pause().spec_pause() == self,
    {
    }

    /// Confirming any catalog entry leaves a clock that is not timed out:
    /// a fresh configuration always has time on both sides.
    pub proof fn lemma_set_not_timed_out(self, ctrl: TimeCtrl)
        ensures
            !self.spec_set(ctrl).spec_timed_out(),
            self.spec_set(ctrl).turn is NotStarted,
    {
        ctrl.lemma_base_positive();
    }
}

impl Clock {
    /// The fresh clock: one second on each side, one second of increment,
    /// the first catalog entry remembered, player 1 to move first.
    pub open spec fn spec_default() -> Clock {
        Clock {
            player1: Time(1_000),
            player2: Time(1_000),
            turn: ClockTurn::NotStarted,
            increment: 1_000,
            time_ctrl: TimeCtrl::Tab1,
            first_to_move: Player::Player1,
        }
    }
}

impl Default for Clock {
    /// A fresh clock, as [`Clock::spec_default`] describes it.
    fn default() -> (r: Self)
        ensures
            r == Clock::spec_default(),
    {
        Clock {
            player1: Time(1_000),
            player2: Time(1_000),
            turn: ClockTurn::NotStarted,
            increment: 1_000,
            time_ctrl: TimeCtrl::Tab1,
            first_to_move: Player::Player1,
        }
    }
}

} // verus!
