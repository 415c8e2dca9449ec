use vstd::prelude::*;
use crate::config::Config;

verus! {

/// The current interval type.
#[derive(Clone, Copy, Debug, PartialEq, Eq, Structural)]
pub enum Phase {
    Work,
    ShortBreak,
    LongBreak,
}

/// Milliseconds in one minute.
pub const MS_PER_MINUTE: u64 = 60000;

/// The countdown state machine: current phase, completed work cycles since
/// the last long break, remaining time in milliseconds, the pause flag, and
/// the instant (in milliseconds) at which elapsed time was last measured.
#[derive(Clone, Copy, Debug, PartialEq, Eq, Structural)]
pub struct Timer {
    pub phase: Phase,
    pub cycle_count: u32,
    pub remaining_ms: u64,
    pub last_tick_ms: u64,
    pub paused: bool,
}

/// The configured duration of a phase, in milliseconds.
pub open spec fn spec_phase_duration_ms(c: Config, p: Phase) -> u64 {
    match p {
        Phase::Work => (c.work_duration * MS_PER_MINUTE) as u64,
        Phase::ShortBreak => (c.short_break * MS_PER_MINUTE) as u64,
        Phase::LongBreak => (c.long_break * MS_PER_MINUTE) as u64,
    }
}

/// The timer that starts a fresh session: a paused work phase with the full
/// configured work duration remaining and no completed cycles.
pub open spec fn spec_initial_timer(c: Config, now_ms: u64) -> Timer {
    Timer {
        phase: Phase::Work,
        cycle_count: 0,
        remaining_ms: spec_phase_duration_ms(c, Phase::Work),
        last_tick_ms: now_ms,
        paused: true,
    }
}

/// The deterministic phase-transition table. From Work the timer moves to a
/// long break once the incremented cycle count reaches the configured
/// threshold (resetting the count to 0) and to a short break otherwise
/// (incrementing the count); from either break it returns to Work with the
/// count unchanged. Every transition reseeds the remaining time to the new
/// phase's configured duration and forces the timer into the paused state.
pub open spec fn spec_phase_advance(t: Timer, c: Config) -> Timer {
    match t.phase {
        Phase::Work => {
            if t.cycle_count + 1 >= c.cycles_before_long {
                Timer {
                    phase: Phase::LongBreak,
                    cycle_count: 0,
                    remaining_ms: spec_phase_duration_ms(c, Phase::LongBreak),
                    paused: true,
                    ..t
                }
            } else {
                Timer {
                    phase: Phase::ShortBreak,
                    cycle_count: (t.cycle_count + 1) as u32,
                    remaining_ms: spec_phase_duration_ms(c, Phase::ShortBreak),
                    paused: true,
                    ..t
                }
            }
        },
        _ => Timer {
            phase: Phase::Work,
            remaining_ms: spec_phase_duration_ms(c, Phase::Work),
            paused: true,
            ..t
        },
    }
}

/// The elapsed time a tick charges: the clock is treated as monotonic, so a
/// reading earlier than the last one counts as no elapsed time.
pub open spec fn spec_elapsed_ms(t: Timer, now_ms: u64) -> u64 {
    if now_ms >= t.last_tick_ms {
        (now_ms - t.last_tick_ms) as u64
    } else {
        0
    }
}

/// One tick of the countdown. A paused timer is left completely unchanged.
/// A running timer charges the wall-clock time elapsed since the last tick:
/// if less than the remaining time, it is subtracted; otherwise the phase
/// expires and the transition table applies.
pub open spec fn spec_advance(t: Timer, c: Config, now_ms: u64) -> Timer {
    if t.paused {
        t
    } else {
        let elapsed = spec_elapsed_ms(t, now_ms);
        if elapsed < t.remaining_ms {
            Timer {
                remaining_ms: (t.remaining_ms - elapsed) as u64,
                last_tick_ms: now_ms,
                ..t
            }
        } else {
            spec_phase_advance(Timer { remaining_ms: 0, last_tick_ms: now_ms, ..t }, c)
        }
    }
}

/// The timer after a manual reset: the same fixed state whatever the timer
/// held before (only the tick instant is kept, which a paused timer ignores).
pub open spec fn spec_reset(t: Timer, c: Config) -> Timer {
    Timer {
        phase: Phase::Work,
        cycle_count: 0,
        remaining_ms: spec_phase_duration_ms(c, Phase::Work),
        paused: true,
        ..t
    }
}

/// The timer after a pause toggle. Resuming re-bases the tick instant on
/// `now_ms` so that time spent paused is never charged to the countdown.
pub open spec fn spec_toggle_pause(t: Timer, now_ms: u64) -> Timer {
    if t.paused {
        Timer { paused: false, last_tick_ms: now_ms, ..t }
    } else {
        Timer { paused: true, ..t }
    }
}

/// Proves that a phase duration in milliseconds fits in `u64`.
proof fn lemma_duration_fits(minutes: u32)
    ensures
        minutes * MS_PER_MINUTE <= 0xffff_ffffu64 * MS_PER_MINUTE,
{
    assert(minutes * MS_PER_MINUTE <= 0xffff_ffffu64 * MS_PER_MINUTE) by (nonlinear_arith)
        requires
            minutes <= 0xffff_ffffu64,
    ;
}

/// The configured duration of a phase, in milliseconds.
pub fn phase_duration_ms(c: &Config, p: Phase) -> (r: u64)
    ensures
        r == spec_phase_duration_ms(*c, p),
{
    let minutes: u32 = match p {
        Phase::Work => c.work_duration,
        Phase::ShortBreak => c.short_break,
        Phase::LongBreak => c.long_break,
    };
    proof {
        lemma_duration_fits(minutes);
    }
    (minutes as u64) * MS_PER_MINUTE
}

impl Timer {
    /// A fresh session: paused at the start of a work phase with the full
    /// configured work duration remaining.
    pub fn new(c: &Config, now_ms: u64) -> (t: Timer)
        ensures
            t == spec_initial_timer(*c, now_ms),
    {
        Timer {
            phase: Phase::Work,
            cycle_count: 0,
            remaining_ms: phase_duration_ms(c, Phase::Work),
            last_tick_ms: now_ms,
            paused: true,
        }
    }

    /// Move to the next phase according to the transition table, reseeding
    /// the remaining time and pausing; also the effect of a manual skip.
    pub fn phase_advance(&mut self, c: &Config)
        ensures
            *final(self) == spec_phase_advance(*old(self), *c),
    {
        match self.phase {
            Phase::Work => {
                if self.cycle_count as u64 + 1 >= c.cycles_before_long as u64 {
                    self.phase = Phase::LongBreak;
                    self.cycle_count = 0;
                    self.remaining_ms = phase_duration_ms(c, Phase::LongBreak);
                } else {
                    self.phase = Phase::ShortBreak;
                    self.cycle_count = self.cycle_count + 1;
                    self.remaining_ms = phase_duration_ms(c, Phase::ShortBreak);
                }
            },
            Phase::ShortBreak | Phase::LongBreak => {
                self.phase = Phase::Work;
                self.remaining_ms = phase_duration_ms(c, Phase::Work);
            },
        }
        self.paused = true;
    }

    /// One tick: charge the wall-clock time since the last measurement to the
    /// countdown, expiring the phase when the charge covers what remained.
    /// A paused timer is left untouched.
    pub fn advance(&mut self, c: &Config, now_ms: u64)
        ensures
            *final(self) == spec_advance(*old(self), *c, now_ms),
    {
        if !self.paused {
            let elapsed: u64 = if now_ms >= self.last_tick_ms {
                now_ms - self.last_tick_ms
            } else {
                0
            };
            self.last_tick_ms = now_ms;
            if elapsed < self.remaining_ms {
                self.remaining_ms = self.remaining_ms - elapsed;
            } else {
                self.remaining_ms = 0;
                self.phase_advance(c);
            }
        }
    }

    /// Manual reset: back to a paused work phase with a zero cycle count and
    /// the full configured work duration, whatever the current state.
    pub fn reset(&mut self, c: &Config)
        ensures
            *final(self) == spec_reset(*old(self), *c),
    {
        self.phase = Phase::Work;
        self.cycle_count = 0;
        self.remaining_ms = phase_duration_ms(c, Phase::Work);
        self.paused = true;
    }

    /// Flip the pause flag. On resume the tick instant is re-based on
    /// `now_ms`, so the paused interval is not charged as elapsed time.
    pub fn toggle_pause(&mut self, now_ms: u64)
        ensures
            *final(self) == spec_toggle_pause(*old(self), now_ms),
    {
        if self.paused {
            self.paused = false;
            self.last_tick_ms = now_ms;
        } else {
            self.paused = true;
        }
    }
}

} // verus!
