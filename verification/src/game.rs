//! The match lifecycle: a state machine driven once per simulation tick.
//!
//! A game moves from idle through a pre-match countdown into play, and ends
//! when a winner is declared. Pausing is an orthogonal flag that freezes
//! every time-dependent effect of `update` without touching the underlying
//! state. All times are whole milliseconds.

use vstd::prelude::*;

use crate::board;
use crate::board::Jewel;
use crate::timer::lemma_total_time_nonneg;
use crate::timer::total_time;
use crate::timer::Timer;

verus! {

/// Board height fixed at construction.
pub const BOARD_ROWS: u16 = 8;

/// Board width fixed at construction.
pub const BOARD_COLS: u16 = 8;

/// Length of the pre-match countdown, in milliseconds.
pub const COUNTDOWN_MILLIS: u64 = 5000;

/// `a + b`, capped at the top of `u64`.
pub open spec fn sat_add_u64(a: u64, b: u64) -> u64 {
    if a + b > u64::MAX {
        u64::MAX
    } else {
        (a + b) as u64
    }
}

/// The orchestrator of one two-board match.
///
/// The boards themselves are external collaborators; the game owns only the
/// countdown timer, the lifecycle flags and the gameplay clock.
#[derive(Debug)]
pub struct Game {
    /// Name of the game mode, chosen by the surrounding application.
    pub mode: String,
    /// While true, `update` has no effect at all.
    pub is_paused: bool,
    /// True from the tick the countdown ends until the next reset.
    pub is_started: bool,
    /// True once a winner has been declared; terminal until reset.
    pub is_over: bool,
    /// The declared winner's player id, set exactly when `is_over`.
    pub winner: Option<String>,
    /// Board width handed to the layout generator.
    pub cols: u16,
    /// Board height handed to the layout generator.
    pub rows: u16,
    /// Milliseconds of unpaused play since the game started.
    pub time_elapsed: u64,
    /// The pre-match countdown; the game transitions to started on the tick
    /// this timer ends.
    pub countdown_timer: Timer,
}

impl Game {
    /// Well-formedness: a finished game always has a winner, and the
    /// countdown timer is itself well-formed.
    pub open spec fn wf(self) -> bool {
        &&& self.is_over ==> self.winner is Some
        &&& self.countdown_timer.wf()
    }

    /// The freshly constructed game for a mode: unpaused, not started, not
    /// over, no winner, an 8 x 8 board, no elapsed time, and a stopped
    /// five-second countdown.
    pub open spec fn spec_init(mode: String) -> Game {
        Game {
            mode,
            is_paused: false,
            is_started: false,
            is_over: false,
            winner: None,
            cols: BOARD_COLS,
            rows: BOARD_ROWS,
            time_elapsed: 0,
            countdown_timer: Timer::spec_new(COUNTDOWN_MILLIS),
        }
    }

    /// Constructs the initial game state for a mode.
    pub fn new(mode: String) -> (g: Game)
        ensures
            g == Game::spec_init(mode),
            g.wf(),
    {
        Game {
            mode,
            is_paused: false,
            is_started: false,
            is_over: false,
            winner: None,
            cols: BOARD_COLS,
            rows: BOARD_ROWS,
            time_elapsed: 0,
            countdown_timer: Timer::new(COUNTDOWN_MILLIS),
        }
    }

    /// Sets or clears the pause flag; nothing else changes, whatever the
    /// current state.
    pub fn set_pause(&mut self, val: bool)
        ensures
            *final(self) == (Game { is_paused: val, ..*old(self) }),
    {
        self.is_paused = val;
    }

    /// `self` after `reset`: the construction-time defaults, with the mode,
    /// the board dimensions and the countdown duration kept.
    pub open spec fn spec_reset(self) -> Game {
        Game {
            time_elapsed: 0,
            is_over: false,
            winner: None,
            is_started: false,
            is_paused: false,
            countdown_timer: self.countdown_timer.spec_reset(),
            ..self
        }
    }

    /// Restores the construction-time defaults: not over, no winner, not
    /// started, unpaused, no elapsed time, countdown timer reset. Safe to
    /// call from any state.
    pub fn reset(&mut self)
        ensures
            *final(self) == old(self).spec_reset(),
            final(self).wf(),
    {
        self.time_elapsed = 0;
        self.is_over = false;
        self.winner = None;
        self.is_started = false;
        self.is_paused = false;
        self.countdown_timer.reset();
    }

    /// `self` after `start_game`: fully reset, with the countdown running.
    pub open spec fn spec_start_game(self) -> Game {
        Game { countdown_timer: self.countdown_timer.spec_start(), ..self.spec_reset() }
    }

    /// Begins a match: performs a full reset, generates a validated board
    /// layout and starts the countdown.
    ///
    /// The returned layout is meant to be applied identically to both
    /// opposing boards by the external board engine; it is `None` only when
    /// the generator exhausted its retry cap, which the caller must treat
    /// as fatal.
    pub fn start_game(&mut self) -> (layout: Option<Vec<Jewel>>)
        ensures
            *final(self) == old(self).spec_start_game(),
            final(self).wf(),
            layout matches Some(cells) ==> board::layout_valid(
                cells@,
                old(self).rows as int,
                old(self).cols as int,
            ),
            layout matches Some(cells) ==> cells@.len() == old(self).rows * old(self).cols,
    {
        self.reset();
        let layout = board::generate(self.rows, self.cols);
        self.countdown_timer.start();
        layout
    }

    /// `self` after `game_over`: the winner recorded and the game over,
    /// unless a winner already stood — then nothing changes.
    pub open spec fn spec_game_over(self, winner: String) -> Game {
        if self.is_over {
            self
        } else {
            Game { winner: Some(winner), is_over: true, ..self }
        }
    }

    /// Declares a winner and ends the match. Once the game is over, further
    /// calls are no-ops: an existing winner is never overwritten.
    pub fn game_over(&mut self, winner: String)
        ensures
            *final(self) == old(self).spec_game_over(winner),
            !old(self).is_over ==> final(self).winner == Some(winner) && final(self).is_over,
            old(self).is_over ==> *final(self) == *old(self),
            old(self).wf() ==> final(self).wf(),
    {
        if self.is_over {
            return;
        }
        self.winner = Some(winner);
        self.is_over = true;
    }

    /// Renames the game mode; no other state is touched.
    pub fn set_game_mode(&mut self, mode: String)
        ensures
            *final(self) == (Game { mode, ..*old(self) }),
    {
        self.mode = mode;
    }

    /// `self` after one unpaused-or-not tick of `dt` milliseconds.
    ///
    /// A paused game is left untouched. Otherwise, within the one tick and
    /// in this order: the countdown advances while the game has not
    /// started; the game becomes started on the tick the countdown ends
    /// (a one-time edge — the countdown is no longer ticked afterwards);
    /// and a started game accumulates `dt` into its gameplay clock, capped
    /// at the top of `u64`.
    pub open spec fn spec_update(self, dt: u64) -> Game {
        if self.is_paused {
            self
        } else {
            let ticked = if !self.is_started && !self.countdown_timer.is_ended {
                self.countdown_timer.spec_update(dt)
            } else {
                self.countdown_timer
            };
            let started = self.is_started || ticked.is_ended;
            let time_elapsed = if started {
                sat_add_u64(self.time_elapsed, dt)
            } else {
                self.time_elapsed
            };
            Game { countdown_timer: ticked, is_started: started, time_elapsed, ..self }
        }
    }

    /// The per-tick entry point: `t` is the driver's absolute simulation
    /// time (unused — only deltas matter), `dt` the milliseconds elapsed
    /// since the previous tick.
    pub fn update(&mut self, t: u64, dt: u64)
        ensures
            *final(self) == old(self).spec_update(dt),
            old(self).is_paused ==> *final(self) == *old(self),
            old(self).is_started ==> final(self).is_started,
            final(self).time_elapsed >= old(self).time_elapsed,
            final(self).is_over == old(self).is_over,
            final(self).winner == old(self).winner,
            old(self).wf() ==> final(self).wf(),
    {
        if self.is_paused {
            return;
        }
        if !self.is_started && !self.countdown_timer.is_ended {
            let _ = self.countdown_timer.update(t, dt);
        }
        if self.countdown_timer.is_ended && !self.is_started {
            self.is_started = true;
        }
        if self.is_started {
            self.time_elapsed = if dt > u64::MAX - self.time_elapsed {
                u64::MAX
            } else {
                self.time_elapsed + dt
            };
        }
    }
}

/// The game that results from feeding the ticks of `dts`, in order, into
/// `update`.
pub open spec fn run_game(g: Game, dts: Seq<u64>) -> Game
    decreases dts.len(),
{
    if dts.len() == 0 {
        g
    } else {
        run_game(g.spec_update(dts[0]), dts.drop_first())
    }
}

/// While a game is paused, ticks change nothing at all: in particular,
/// `time_elapsed` and the countdown's `time_left` are exactly what they
/// were, however many ticks arrive and whatever their deltas.
pub proof fn lemma_paused_game_unchanged(g: Game, dts: Seq<u64>)
    requires
        g.is_paused,
    ensures
        run_game(g, dts) == g,
    decreases dts.len(),
{
    if dts.len() > 0 {
        lemma_paused_game_unchanged(g.spec_update(dts[0]), dts.drop_first());
    }
}

/// `reset` restores the exact construction-time defaults: not over, no
/// winner, not started, unpaused, zero elapsed time, and a full, stopped
/// countdown.
pub proof fn lemma_reset_restores_defaults(g: Game)
    ensures
        !g.spec_reset().is_over,
        g.spec_reset().winner is None,
        !g.spec_reset().is_started,
        !g.spec_reset().is_paused,
        g.spec_reset().time_elapsed == 0,
        g.spec_reset().countdown_timer == g.countdown_timer.spec_reset(),
        g.spec_reset().mode == g.mode,
{
}

/// Declaring a game over is idempotent: after a first `game_over`, any
/// second call — with the same winner or another — changes nothing, so the
/// first winner stands.
pub proof fn lemma_game_over_idempotent(g: Game, w1: String, w2: String)
    ensures
        g.spec_game_over(w1).spec_game_over(w2) == g.spec_game_over(w1),
        !g.is_over ==> g.spec_game_over(w1).spec_game_over(w2).winner == Some(w1),
{
}

/// Once started, a game stays started through any sequence of ticks, and
/// its gameplay clock never runs backwards.
pub proof fn lemma_started_is_monotone(g: Game, dts: Seq<u64>)
    ensures
        g.is_started ==> run_game(g, dts).is_started,
        run_game(g, dts).time_elapsed >= g.time_elapsed,
    decreases dts.len(),
{
    if dts.len() > 0 {
        lemma_started_is_monotone(g.spec_update(dts[0]), dts.drop_first());
    }
}

/// The countdown gates the start, and never early: while the deltas fed to
/// an unpaused, counting game sum to less than the countdown's remaining
/// time, the game is not started, the countdown has dropped by exactly the
/// time fed, and no gameplay time has accumulated.
pub proof fn lemma_countdown_never_starts_early(g: Game, dts: Seq<u64>)
    requires
        !g.is_paused,
        !g.is_started,
        g.countdown_timer.is_going,
        !g.countdown_timer.is_ended,
        total_time(dts) < g.countdown_timer.time_left,
    ensures
        !run_game(g, dts).is_started,
        run_game(g, dts).countdown_timer.time_left == g.countdown_timer.time_left - total_time(
            dts,
        ),
        run_game(g, dts).time_elapsed == g.time_elapsed,
    decreases dts.len(),
{
    if dts.len() > 0 {
        lemma_total_time_nonneg(dts.drop_first());
        lemma_countdown_never_starts_early(g.spec_update(dts[0]), dts.drop_first());
    }
}

/// The countdown starts the game on time: once the deltas fed to an
/// unpaused, counting game sum to at least the countdown's remaining time,
/// the game is started.
pub proof fn lemma_countdown_starts_game(g: Game, dts: Seq<u64>)
    requires
        !g.is_paused,
        !g.is_started,
        g.countdown_timer.is_going,
        !g.countdown_timer.is_ended,
        g.countdown_timer.time_left > 0,
        total_time(dts) >= g.countdown_timer.time_left,
    ensures
        run_game(g, dts).is_started,
    decreases dts.len(),
{
    if dts[0] >= g.countdown_timer.time_left {
        lemma_started_is_monotone(g.spec_update(dts[0]), dts.drop_first());
    } else {
        lemma_countdown_starts_game(g.spec_update(dts[0]), dts.drop_first());
    }
}

/// Every lifecycle operation preserves well-formedness (a finished game
/// has a winner), and construction establishes it.
pub proof fn lemma_lifecycle_preserves_wf(g: Game, mode: String, w: String, v: bool, dt: u64)
    ensures
        Game::spec_init(mode).wf(),
        g.wf() ==> g.spec_reset().wf(),
        g.wf() ==> g.spec_start_game().wf(),
        g.wf() ==> g.spec_game_over(w).wf(),
        g.wf() ==> g.spec_update(dt).wf(),
        g.wf() ==> (Game { is_paused: v, ..g }).wf(),
        g.wf() ==> (Game { mode, ..g }).wf(),
{
}

} // verus!
