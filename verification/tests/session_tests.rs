use rpomodoro::config::{Config, ThemeName};
use rpomodoro::session::{App, Effect, Key};
use rpomodoro::timer::Phase;

fn app() -> App {
    App::new(Config::default(), 0, 80, 24)
}

#[test]
fn new_app_shows_the_clock_screen() {
    let a = app();
    assert!(!a.config_mode);
    assert_eq!(a.config_cursor, 0);
    assert!(a.timer.paused);
    assert_eq!(a.timer.phase, Phase::Work);
    assert_eq!((a.width, a.height), (80, 24));
}

#[test]
fn quit_keys_quit() {
    let mut a = app();
    assert_eq!(a.handle_key(Key::Char('q'), 0), Effect::Quit);
    assert_eq!(a.handle_key(Key::Char('Q'), 0), Effect::Quit);
    assert_eq!(a.handle_key(Key::CtrlC, 0), Effect::Quit);
    // the interrupt combination quits from the config screen too
    a.handle_key(Key::Char('c'), 0);
    assert!(a.config_mode);
    assert_eq!(a.handle_key(Key::CtrlC, 0), Effect::Quit);
}

#[test]
fn space_toggles_pause_and_rebases_the_tick() {
    let mut a = app();
    assert_eq!(a.handle_key(Key::Char(' '), 7000), Effect::Nothing);
    assert!(!a.timer.paused);
    assert_eq!(a.timer.last_tick_ms, 7000);
    assert_eq!(a.handle_key(Key::Char(' '), 8000), Effect::Nothing);
    assert!(a.timer.paused);
}

#[test]
fn reset_key_restores_the_work_phase() {
    let mut a = app();
    a.handle_key(Key::Char(' '), 0);
    a.tick(10_000);
    a.handle_key(Key::Char('s'), 10_000);
    assert_eq!(a.timer.phase, Phase::ShortBreak);
    a.handle_key(Key::Char('r'), 11_000);
    assert_eq!(a.timer.phase, Phase::Work);
    assert_eq!(a.timer.cycle_count, 0);
    assert_eq!(a.timer.remaining_ms, 25 * 60_000);
    assert!(a.timer.paused);
}

#[test]
fn skip_key_advances_the_phase_without_expiry() {
    let mut a = app();
    assert_eq!(a.handle_key(Key::Char('S'), 0), Effect::Nothing);
    assert_eq!(a.timer.phase, Phase::ShortBreak);
    assert_eq!(a.timer.cycle_count, 1);
}

#[test]
fn unknown_keys_do_nothing() {
    let mut a = app();
    let before = a;
    assert_eq!(a.handle_key(Key::Char('x'), 5), Effect::Nothing);
    assert_eq!(a.handle_key(Key::Other, 5), Effect::Nothing);
    assert_eq!(a, before);
}

#[test]
fn config_screen_cursor_clamps_at_both_ends() {
    let mut a = app();
    a.handle_key(Key::Char('c'), 0);
    assert!(a.config_mode);
    assert_eq!(a.handle_key(Key::Char('k'), 0), Effect::Nothing);
    assert_eq!(a.config_cursor, 0);
    for _ in 0..10 {
        a.handle_key(Key::Char('j'), 0);
    }
    assert_eq!(a.config_cursor, 4);
    a.handle_key(Key::Up, 0);
    assert_eq!(a.config_cursor, 3);
    a.handle_key(Key::Down, 0);
    assert_eq!(a.config_cursor, 4);
}

#[test]
fn config_screen_edits_the_selected_field() {
    let mut a = app();
    a.handle_key(Key::Char('c'), 0);
    a.handle_key(Key::Char('j'), 0); // work_duration
    a.handle_key(Key::Char('l'), 0);
    assert_eq!(a.config.work_duration, 26);
    a.handle_key(Key::Left, 0);
    a.handle_key(Key::Char('h'), 0);
    assert_eq!(a.config.work_duration, 24);
    a.handle_key(Key::Char('k'), 0); // back to the theme row
    a.handle_key(Key::Right, 0);
    assert_eq!(a.config.theme, ThemeName::Purple);
}

#[test]
fn leaving_the_config_screen_saves() {
    let mut a = app();
    a.handle_key(Key::Char('c'), 0);
    assert_eq!(a.handle_key(Key::Char('q'), 0), Effect::SaveConfig);
    assert!(!a.config_mode);
    let mut a = app();
    a.handle_key(Key::Char('c'), 0);
    assert_eq!(a.handle_key(Key::Esc, 0), Effect::SaveConfig);
    assert!(!a.config_mode);
}

#[test]
fn time_on_the_config_screen_is_not_charged() {
    let mut a = app();
    a.handle_key(Key::Char(' '), 0); // running
    a.tick(1000);
    let remaining = a.timer.remaining_ms;
    a.handle_key(Key::Char('c'), 1000);
    // ticks while the config screen is open leave the timer alone
    a.tick(50_000);
    a.tick(90_000);
    assert_eq!(a.timer.remaining_ms, remaining);
    // leaving the screen much later re-bases the tick instant
    a.handle_key(Key::Esc, 120_000);
    a.tick(120_000);
    assert_eq!(a.timer.remaining_ms, remaining);
    // and the countdown then resumes from there
    a.tick(121_000);
    assert_eq!(a.timer.remaining_ms, remaining - 1000);
}

#[test]
fn resize_updates_only_the_dimensions() {
    let mut a = app();
    let before = a;
    a.resize(120, 40);
    assert_eq!((a.width, a.height), (120, 40));
    assert_eq!(a.config, before.config);
    assert_eq!(a.timer, before.timer);
    assert_eq!(a.config_mode, before.config_mode);
    assert_eq!(a.config_cursor, before.config_cursor);
}
