use rpomodoro::render::{clock_digits, clock_start_x, phase_label, run_state_label, CLOCK_WIDTH};
use rpomodoro::timer::Phase;

#[test]
fn digits_of_a_fresh_work_phase() {
    // 25 minutes exactly
    assert_eq!(clock_digits(25 * 60_000), (2, 5, 0, 0));
}

#[test]
fn digits_count_down_within_a_minute() {
    // 4 minutes 7 seconds
    assert_eq!(clock_digits(247_000), (0, 4, 0, 7));
    // 59 seconds
    assert_eq!(clock_digits(59_000), (0, 0, 5, 9));
    // sub-second remainders truncate
    assert_eq!(clock_digits(999), (0, 0, 0, 0));
    assert_eq!(clock_digits(0), (0, 0, 0, 0));
}

#[test]
fn minutes_saturate_at_ninety_nine() {
    // 120 minutes: the MM face shows 99, the seconds stay real
    assert_eq!(clock_digits(120 * 60_000), (9, 9, 0, 0));
    assert_eq!(clock_digits(100 * 60_000 + 30_000), (9, 9, 3, 0));
    // 99 minutes still shows exactly
    assert_eq!(clock_digits(99 * 60_000 + 59_000), (9, 9, 5, 9));
}

#[test]
fn clock_block_centres_and_clamps() {
    assert_eq!(CLOCK_WIDTH, 34);
    assert_eq!(clock_start_x(40), 23);
    assert_eq!(clock_start_x(17), 0);
    assert_eq!(clock_start_x(5), 0);
}

#[test]
fn status_labels() {
    assert_eq!(phase_label(Phase::Work), "work");
    assert_eq!(phase_label(Phase::ShortBreak), "break");
    assert_eq!(phase_label(Phase::LongBreak), "long break");
    assert_eq!(run_state_label(true), "paused");
    assert_eq!(run_state_label(false), "running");
}
