use rpomodoro::config::Config;
use rpomodoro::timer::{Phase, Timer};

fn cfg() -> Config {
    Config::default()
}

#[test]
fn new_timer_is_paused_work_phase() {
    let c = cfg();
    let t = Timer::new(&c, 1000);
    assert_eq!(t.phase, Phase::Work);
    assert_eq!(t.cycle_count, 0);
    assert_eq!(t.remaining_ms, 25 * 60_000);
    assert_eq!(t.last_tick_ms, 1000);
    assert!(t.paused);
}

#[test]
fn advance_paused_changes_nothing() {
    let c = cfg();
    let mut t = Timer::new(&c, 0);
    let before = t;
    t.advance(&c, 99_999);
    assert_eq!(t, before);
}

#[test]
fn advance_running_subtracts_elapsed() {
    let c = cfg();
    let mut t = Timer::new(&c, 0);
    t.toggle_pause(1000);
    t.advance(&c, 4000);
    assert_eq!(t.remaining_ms, 25 * 60_000 - 3000);
    assert_eq!(t.last_tick_ms, 4000);
    assert_eq!(t.phase, Phase::Work);
    assert!(!t.paused);
}

#[test]
fn advance_is_monotone_across_ticks() {
    let c = cfg();
    let mut t = Timer::new(&c, 0);
    t.toggle_pause(0);
    let mut prev = t.remaining_ms;
    for now in [10, 500, 500, 1200, 60_000, 61_000] {
        t.advance(&c, now);
        assert!(t.remaining_ms <= prev);
        prev = t.remaining_ms;
    }
}

#[test]
fn advance_with_clock_going_backwards_charges_nothing() {
    let c = cfg();
    let mut t = Timer::new(&c, 5000);
    t.toggle_pause(5000);
    t.advance(&c, 2000);
    assert_eq!(t.remaining_ms, 25 * 60_000);
    assert_eq!(t.last_tick_ms, 2000);
}

#[test]
fn expiry_moves_to_short_break_and_pauses() {
    let c = cfg();
    let mut t = Timer::new(&c, 0);
    t.toggle_pause(0);
    t.advance(&c, 25 * 60_000 + 1);
    assert_eq!(t.phase, Phase::ShortBreak);
    assert_eq!(t.cycle_count, 1);
    assert_eq!(t.remaining_ms, 5 * 60_000);
    assert!(t.paused);
}

#[test]
fn exactly_consumed_remaining_expires_the_phase() {
    let c = cfg();
    let mut t = Timer::new(&c, 0);
    t.toggle_pause(0);
    t.advance(&c, 25 * 60_000);
    assert_eq!(t.phase, Phase::ShortBreak);
    assert!(t.paused);
}

#[test]
fn phase_advance_below_threshold_increments_cycles() {
    let c = cfg();
    let mut t = Timer::new(&c, 0);
    t.phase_advance(&c);
    assert_eq!(t.phase, Phase::ShortBreak);
    assert_eq!(t.cycle_count, 1);
    assert_eq!(t.remaining_ms, 5 * 60_000);
    assert!(t.paused);
}

#[test]
fn phase_advance_at_threshold_resets_cycles_to_long_break() {
    let c = cfg();
    let mut t = Timer::new(&c, 0);
    t.cycle_count = 3;
    t.phase_advance(&c);
    assert_eq!(t.phase, Phase::LongBreak);
    assert_eq!(t.cycle_count, 0);
    assert_eq!(t.remaining_ms, 15 * 60_000);
    assert!(t.paused);
}

#[test]
fn phase_advance_from_breaks_returns_to_work() {
    let c = cfg();
    let mut t = Timer::new(&c, 0);
    t.phase = Phase::ShortBreak;
    t.cycle_count = 2;
    t.phase_advance(&c);
    assert_eq!(t.phase, Phase::Work);
    assert_eq!(t.cycle_count, 2);
    assert_eq!(t.remaining_ms, 25 * 60_000);

    t.phase = Phase::LongBreak;
    t.phase_advance(&c);
    assert_eq!(t.phase, Phase::Work);
    assert_eq!(t.cycle_count, 2);
    assert_eq!(t.remaining_ms, 25 * 60_000);
}

#[test]
fn reset_is_total_and_idempotent() {
    let c = cfg();
    let mut t = Timer::new(&c, 0);
    t.phase = Phase::LongBreak;
    t.cycle_count = 3;
    t.remaining_ms = 17;
    t.paused = false;
    t.reset(&c);
    let after_one = t;
    assert_eq!(t.phase, Phase::Work);
    assert_eq!(t.cycle_count, 0);
    assert_eq!(t.remaining_ms, 25 * 60_000);
    assert!(t.paused);
    t.reset(&c);
    assert_eq!(t, after_one);
}

#[test]
fn toggle_then_advance_charges_no_phantom_time() {
    let c = cfg();
    let mut t = Timer::new(&c, 0);
    // Run a little, pause for a long while, resume, tick at once.
    t.toggle_pause(0);
    t.advance(&c, 2000);
    let remaining = t.remaining_ms;
    t.toggle_pause(2000); // pause at 2 s
    t.advance(&c, 500_000); // idle ticks while paused change nothing
    assert_eq!(t.remaining_ms, remaining);
    t.toggle_pause(500_000); // resume much later
    t.advance(&c, 500_000); // no further time has passed
    assert_eq!(t.remaining_ms, remaining);
}

#[test]
fn four_work_expiries_land_on_long_break() {
    // work_duration=25, cycles_before_long=4, starting at Work/cycle=0.
    let c = cfg();
    let mut t = Timer::new(&c, 0);
    let mut now = 0u64;
    let mut short_break_cycles = Vec::new();
    for i in 0..4 {
        // run the work phase down to expiry
        t.toggle_pause(now);
        now += t.remaining_ms + 1;
        t.advance(&c, now);
        if i < 3 {
            assert_eq!(t.phase, Phase::ShortBreak);
            short_break_cycles.push(t.cycle_count);
            // run the break down to expiry, back to work
            t.toggle_pause(now);
            now += t.remaining_ms + 1;
            t.advance(&c, now);
            assert_eq!(t.phase, Phase::Work);
        }
    }
    assert_eq!(short_break_cycles, vec![1, 2, 3]);
    assert_eq!(t.phase, Phase::LongBreak);
    assert_eq!(t.cycle_count, 0);
}
