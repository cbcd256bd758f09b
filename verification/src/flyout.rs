//! One shared open/close lifecycle for the shell's pop-up surfaces (Quick
//! Settings, calendar, session menu, tray overflow). A zero effective
//! duration (reduced motion) collapses `Opening`/`Closing` straight to
//! their resting state, so there is never a stuck half-open frame. Times
//! are milliseconds on the caller's monotonic clock; the caller supplies
//! the effective duration (the named duration scaled by the user's
//! animation speed) and applies easing to the linear progress.

use vstd::prelude::*;

verus! {

/// Duration for small, snappy transitions (hover highlights, presses).
pub const FAST_MS: u32 = 180;
/// Duration for larger transitions (flyouts opening, dock reveal).
pub const BASE_MS: u32 = 250;
/// Progress of a finished (or resting) transition, in thousandths.
pub const PROGRESS_DONE: u32 = 1000;

/// A flyout at rest (`Hidden`, `Open`) or in transition (`Opening`, `Closing`).
#[derive(Clone, Copy, PartialEq, Eq, Debug, Structural)]
pub enum FlyoutPhase {
    Hidden,
    Opening,
    Open,
    Closing,
}

/// A flyout's phase plus when its current transition started and how long
/// it lasts.
#[derive(Clone, Copy, Debug)]
pub struct Flyout {
    pub phase: FlyoutPhase,
    pub started_ms: u64,
    pub duration_ms: u64,
}

/// Linear progress of a transition started at `started` lasting
/// `duration`, at `now`, in thousandths, clamped to `[0, 1000]`.
pub open spec fn linear_progress(started: u64, duration: u64, now: u64) -> int {
    if duration == 0 || now >= started + duration {
        1000
    } else if now <= started {
        0
    } else {
        (now - started) * 1000 / (duration as int)
    }
}

/// Whether a transition started at `started` lasting `duration` is over at `now`.
pub open spec fn transition_done(started: u64, duration: u64, now: u64) -> bool {
    duration == 0 || now >= started + duration
}

/// The flyout after beginning a transition at `now` lasting `ms`.
pub open spec fn flyout_begin_spec(f: Flyout, transient: FlyoutPhase, terminal: FlyoutPhase, now: u64, ms: u32) -> Flyout {
    Flyout { phase: if ms == 0 { terminal } else { transient }, started_ms: now, duration_ms: ms as u64 }
}

/// The flyout after `tick(now)`: a finished transition lands in its resting phase.
pub open spec fn flyout_tick_spec(f: Flyout, now: u64) -> Flyout {
    match f.phase {
        FlyoutPhase::Opening => if transition_done(f.started_ms, f.duration_ms, now) {
            Flyout { phase: FlyoutPhase::Open, ..f }
        } else {
            f
        },
        FlyoutPhase::Closing => if transition_done(f.started_ms, f.duration_ms, now) {
            Flyout { phase: FlyoutPhase::Hidden, ..f }
        } else {
            f
        },
        _ => f,
    }
}

impl Flyout {
    /// A hidden flyout.
    pub fn new() -> (r: Self)
        ensures
            r.phase == FlyoutPhase::Hidden,
            r.duration_ms == 0,
    {
        Flyout { phase: FlyoutPhase::Hidden, started_ms: 0, duration_ms: 0 }
    }

    /// Starts a transition at `now` lasting `ms`: `transient` while it runs,
    /// or straight to `terminal` when the duration is zero.
    pub fn begin(&mut self, transient: FlyoutPhase, terminal: FlyoutPhase, now: u64, ms: u32)
        ensures
            *final(self) == flyout_begin_spec(*old(self), transient, terminal, now, ms),
    {
        self.started_ms = now;
        self.duration_ms = ms as u64;
        self.phase = if ms == 0 { terminal } else { transient };
    }

    /// Begins opening; with a zero duration this lands directly in `Open`.
    pub fn open(&mut self, now: u64, ms: u32)
        ensures
            *final(self) == flyout_begin_spec(*old(self), FlyoutPhase::Opening, FlyoutPhase::Open, now, ms),
    {
        self.begin(FlyoutPhase::Opening, FlyoutPhase::Open, now, ms);
    }

    /// Begins closing; a no-op when already hidden. With a zero duration
    /// this lands directly in `Hidden`.
    pub fn close(&mut self, now: u64, ms: u32)
        ensures
            old(self).phase == FlyoutPhase::Hidden ==> *final(self) == *old(self),
            old(self).phase != FlyoutPhase::Hidden ==> *final(self) == flyout_begin_spec(
                *old(self),
                FlyoutPhase::Closing,
                FlyoutPhase::Hidden,
                now,
                ms,
            ),
    {
        if self.phase == FlyoutPhase::Hidden {
            return;
        }
        self.begin(FlyoutPhase::Closing, FlyoutPhase::Hidden, now, ms);
    }

    /// Opens with no animation regardless of configuration.
    pub fn open_instant(&mut self)
        ensures
            final(self).phase == FlyoutPhase::Open,
            final(self).duration_ms == 0,
            final(self).started_ms == old(self).started_ms,
    {
        self.phase = FlyoutPhase::Open;
        self.duration_ms = 0;
    }

    /// Whether the flyout should be drawn at all.
    pub fn is_visible(&self) -> (r: bool)
        ensures
            r == (self.phase != FlyoutPhase::Hidden),
    {
        self.phase != FlyoutPhase::Hidden
    }

    /// Whether an animation is still in flight.
    pub fn is_animating(&self) -> (r: bool)
        ensures
            r == (self.phase == FlyoutPhase::Opening || self.phase == FlyoutPhase::Closing),
    {
        match self.phase {
            FlyoutPhase::Opening | FlyoutPhase::Closing => true,
            _ => false,
        }
    }

    /// Advances to `now`: a finished `Opening` becomes `Open`, a finished
    /// `Closing` becomes `Hidden`. Returns the linear progress of the
    /// current transition in thousandths (1000 when resting or finished).
    pub fn tick(&mut self, now: u64) -> (p: u32)
        ensures
            *final(self) == flyout_tick_spec(*old(self), now),
            old(self).phase == FlyoutPhase::Opening || old(self).phase == FlyoutPhase::Closing ==> p
                == linear_progress(old(self).started_ms, old(self).duration_ms, now),
            !(old(self).phase == FlyoutPhase::Opening || old(self).phase == FlyoutPhase::Closing) ==> p
                == PROGRESS_DONE,
    {
        match self.phase {
            FlyoutPhase::Opening | FlyoutPhase::Closing => {
                let p = progress_at(self.started_ms, self.duration_ms, now);
                if p >= PROGRESS_DONE {
                    self.phase = if self.phase == FlyoutPhase::Opening {
                        FlyoutPhase::Open
                    } else {
                        FlyoutPhase::Hidden
                    };
                }
                p
            },
            _ => PROGRESS_DONE,
        }
    }

    /// Jumps the current transition to its end.
    pub fn force_complete(&mut self)
        ensures
            final(self).duration_ms == 0,
            final(self).phase == (match old(self).phase {
                FlyoutPhase::Opening => FlyoutPhase::Open,
                FlyoutPhase::Closing => FlyoutPhase::Hidden,
                other => other,
            }),
    {
        self.duration_ms = 0;
        let now = self.started_ms;
        let _ = self.tick(now);
    }
}

/// Linear progress in thousandths of a transition (see [`linear_progress`]).
pub fn progress_at(started: u64, duration: u64, now: u64) -> (p: u32)
    ensures
        p == linear_progress(started, duration, now),
        p <= PROGRESS_DONE,
        p == PROGRESS_DONE <==> transition_done(started, duration, now),
{
    if duration == 0 || now <= started {
        return if duration == 0 { PROGRESS_DONE } else { 0 };
    }
    let elapsed: u64 = now - started;
    if elapsed >= duration {
        return PROGRESS_DONE;
    }
    let q: u128 = (elapsed as u128) * 1000 / (duration as u128);
    assert(q < 1000) by (nonlinear_arith)
        requires
            q == (elapsed as int) * 1000 / (duration as int),
            elapsed < duration,
            duration > 0,
    ;
    q as u32
}

/// Opening always makes the flyout visible, and a close that is allowed to
/// run its full duration always ends hidden.
pub proof fn lemma_flyout_lifecycle(f: Flyout, now: u64, ms: u32, later: u64)
    requires
        later >= now + ms,
    ensures
        flyout_begin_spec(f, FlyoutPhase::Opening, FlyoutPhase::Open, now, ms).phase != FlyoutPhase::Hidden,
        flyout_tick_spec(flyout_begin_spec(f, FlyoutPhase::Opening, FlyoutPhase::Open, now, ms), later).phase
            == FlyoutPhase::Open,
        f.phase != FlyoutPhase::Hidden ==> flyout_tick_spec(
            flyout_begin_spec(f, FlyoutPhase::Closing, FlyoutPhase::Hidden, now, ms),
            later,
        ).phase == FlyoutPhase::Hidden,
{
}

} // verus!
