use vstd::prelude::*;
use crate::config::Config;
use crate::timer::{Phase, Timer, spec_advance, spec_phase_advance, spec_phase_duration_ms,
    spec_reset, spec_toggle_pause};

verus! {

/// The countdown applied over a whole sequence of tick instants.
pub open spec fn spec_advance_seq(t: Timer, c: Config, nows: Seq<u64>) -> Timer
    decreases nows.len(),
{
    if nows.len() == 0 {
        t
    } else {
        spec_advance_seq(spec_advance(t, c, nows[0]), c, nows.drop_first())
    }
}

/// A paused timer stands still under any sequence of ticks.
pub proof fn lemma_advance_seq_paused(t: Timer, c: Config, nows: Seq<u64>)
    requires
        t.paused,
    ensures
        spec_advance_seq(t, c, nows) == t,
    decreases nows.len(),
{
    if nows.len() > 0 {
        lemma_advance_seq_paused(t, c, nows.drop_first());
    }
}

/// One tick of a running timer never increases the remaining time while the
/// phase stands, and a phase transition always changes the phase.
pub proof fn lemma_advance_monotone(t: Timer, c: Config, now_ms: u64)
    requires
        !t.paused,
    ensures
        spec_advance(t, c, now_ms).phase == t.phase ==> spec_advance(t, c, now_ms).remaining_ms
            <= t.remaining_ms,
{
}

/// Over any sequence of ticks of a running timer, the remaining time is
/// monotonically non-increasing as long as the phase has not changed (and it
/// can never go below zero, its type being unsigned).
pub proof fn lemma_advance_seq_monotone(t: Timer, c: Config, nows: Seq<u64>)
    requires
        !t.paused,
    ensures
        spec_advance_seq(t, c, nows).phase == t.phase ==> spec_advance_seq(t, c, nows).remaining_ms
            <= t.remaining_ms,
    decreases nows.len(),
{
    if nows.len() > 0 {
        let t1 = spec_advance(t, c, nows[0]);
        if t1.paused {
            lemma_advance_seq_paused(t1, c, nows.drop_first());
        } else {
            lemma_advance_seq_monotone(t1, c, nows.drop_first());
        }
    }
}

/// The transition out of Work: below the threshold the timer moves to a
/// short break and the cycle count grows by exactly one; at or above it, to
/// a long break with the cycle count reset to zero. Either way the new
/// phase's configured duration is reseeded and the timer is paused.
pub proof fn lemma_phase_advance_from_work(t: Timer, c: Config)
    requires
        t.phase == Phase::Work,
    ensures
        t.cycle_count + 1 < c.cycles_before_long ==> spec_phase_advance(t, c) == (Timer {
            phase: Phase::ShortBreak,
            cycle_count: (t.cycle_count + 1) as u32,
            remaining_ms: spec_phase_duration_ms(c, Phase::ShortBreak),
            paused: true,
            ..t
        }),
        t.cycle_count + 1 >= c.cycles_before_long ==> spec_phase_advance(t, c) == (Timer {
            phase: Phase::LongBreak,
            cycle_count: 0,
            remaining_ms: spec_phase_duration_ms(c, Phase::LongBreak),
            paused: true,
            ..t
        }),
{
}

/// The transition out of either break: always back to Work with the full
/// configured work duration, the cycle count untouched, and the timer
/// paused.
pub proof fn lemma_phase_advance_from_break(t: Timer, c: Config)
    requires
        t.phase == Phase::ShortBreak || t.phase == Phase::LongBreak,
    ensures
        spec_phase_advance(t, c) == (Timer {
            phase: Phase::Work,
            remaining_ms: spec_phase_duration_ms(c, Phase::Work),
            paused: true,
            ..t
        }),
{
}

/// Manual reset lands on the same paused work-phase state whatever the
/// timer held before, and applying it twice is the same as applying it
/// once.
pub proof fn lemma_reset_total(t: Timer, c: Config)
    ensures
        spec_reset(t, c).phase == Phase::Work,
        spec_reset(t, c).cycle_count == 0,
        spec_reset(t, c).remaining_ms == spec_phase_duration_ms(c, Phase::Work),
        spec_reset(t, c).paused,
        spec_reset(spec_reset(t, c), c) == spec_reset(t, c),
{
}

/// A pause toggle followed at once by a tick at the same instant leaves the
/// remaining time exactly as it was: no phantom time is charged across the
/// pause/resume boundary. (Only a timer whose countdown has already hit
/// zero is excluded: a tick on such a timer expires the phase instead.)
pub proof fn lemma_toggle_then_advance(t: Timer, c: Config, now_ms: u64)
    requires
        t.remaining_ms > 0,
    ensures
        spec_advance(spec_toggle_pause(t, now_ms), c, now_ms).remaining_ms == t.remaining_ms,
{
}

} // verus!
