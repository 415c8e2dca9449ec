use vstd::prelude::*;
use crate::timer::Phase;

verus! {

/// Width of the whole MM:SS block in terminal cells: four 6-cell digits, a
/// 2-cell colon, and 2-cell gaps around the colon and between digit pairs.
pub const CLOCK_WIDTH: u16 = 34;

/// Horizontal offsets of the four digits and the colon within the block.
pub const DIGIT_0_X: u16 = 0;

pub const DIGIT_1_X: u16 = 8;

pub const COLON_X: u16 = 16;

pub const DIGIT_2_X: u16 = 20;

pub const DIGIT_3_X: u16 = 28;

/// Minutes shown on the clock: the countdown's whole minutes, saturated at
/// the largest two-digit value the MM:SS face can show.
pub open spec fn spec_clock_minutes(remaining_ms: u64) -> u64 {
    let mins = remaining_ms / 60000;
    if mins > 99 {
        99
    } else {
        mins
    }
}

/// Seconds shown on the clock: the countdown's seconds within the minute.
pub open spec fn spec_clock_seconds(remaining_ms: u64) -> u64 {
    (remaining_ms / 1000) % 60
}

/// The four digits of the MM:SS face, most significant first.
pub open spec fn spec_clock_digits(remaining_ms: u64) -> (u8, u8, u8, u8) {
    let mins = spec_clock_minutes(remaining_ms);
    let secs = spec_clock_seconds(remaining_ms);
    (
        (mins / 10) as u8,
        (mins % 10) as u8,
        (secs / 10) as u8,
        (secs % 10) as u8,
    )
}

/// Split the remaining time into the four MM:SS digits, each below 10, with
/// the minutes saturated at 99.
pub fn clock_digits(remaining_ms: u64) -> (r: (u8, u8, u8, u8))
    ensures
        r == spec_clock_digits(remaining_ms),
        r.0 < 10 && r.1 < 10 && r.2 < 10 && r.3 < 10,
{
    let total_secs: u64 = remaining_ms / 1000;
    let mins_raw: u64 = total_secs / 60;
    let mins: u64 = if mins_raw > 99 {
        99
    } else {
        mins_raw
    };
    let secs: u64 = total_secs % 60;
    proof {
        vstd::arithmetic::div_mod::lemma_div_denominator(remaining_ms as int, 1000, 60);
        assert(total_secs / 60 == remaining_ms / 60000);
    }
    ((mins / 10) as u8, (mins % 10) as u8, (secs / 10) as u8, (secs % 10) as u8)
}

/// Leftmost column of a centred clock block: half the block width to the
/// left of the centre, stopping at the screen edge.
pub fn clock_start_x(center_x: u16) -> (r: u16)
    ensures
        r == if center_x >= CLOCK_WIDTH / 2 {
            (center_x - CLOCK_WIDTH / 2) as u16
        } else {
            0u16
        },
{
    if center_x >= CLOCK_WIDTH / 2 {
        center_x - CLOCK_WIDTH / 2
    } else {
        0
    }
}

/// The status-line label of a phase.
pub open spec fn spec_phase_label(p: Phase) -> Seq<char> {
    match p {
        Phase::Work => "work"@,
        Phase::ShortBreak => "break"@,
        Phase::LongBreak => "long break"@,
    }
}

/// The phase name shown on the left of the status line.
pub fn phase_label(p: Phase) -> (r: &'static str)
    ensures
        r@ == spec_phase_label(p),
{
    match p {
        Phase::Work => "work",
        Phase::ShortBreak => "break",
        Phase::LongBreak => "long break",
    }
}

/// The running/paused indicator beside the phase name.
pub fn run_state_label(paused: bool) -> (r: &'static str)
    ensures
        paused ==> r@ == "paused"@,
        !paused ==> r@ == "running"@,
{
    if paused {
        "paused"
    } else {
        "running"
    }
}

} // verus!
