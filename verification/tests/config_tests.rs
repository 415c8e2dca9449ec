use rpomodoro::config::{Config, Theme, ThemeName, MAX_CYCLES, MAX_DURATION_MINUTES,
    MAX_SHORT_MINUTES};

#[test]
fn default_values() {
    let c = Config::default();
    assert_eq!(c.theme, ThemeName::Blue);
    assert_eq!(c.work_duration, 25);
    assert_eq!(c.short_break, 5);
    assert_eq!(c.long_break, 15);
    assert_eq!(c.cycles_before_long, 4);
}

#[test]
fn decrement_saturates_at_one() {
    let mut c = Config::default();
    c.work_duration = 1;
    c.decrement_field(1);
    assert_eq!(c.work_duration, 1);
    c.short_break = 1;
    c.decrement_field(2);
    assert_eq!(c.short_break, 1);
    c.long_break = 1;
    c.decrement_field(3);
    assert_eq!(c.long_break, 1);
    c.cycles_before_long = 1;
    c.decrement_field(4);
    assert_eq!(c.cycles_before_long, 1);
}

#[test]
fn increment_saturates_at_field_maximum() {
    let mut c = Config::default();
    c.work_duration = MAX_DURATION_MINUTES;
    c.increment_field(1);
    assert_eq!(c.work_duration, 120);
    c.short_break = MAX_SHORT_MINUTES;
    c.increment_field(2);
    assert_eq!(c.short_break, 60);
    c.long_break = MAX_DURATION_MINUTES;
    c.increment_field(3);
    assert_eq!(c.long_break, 120);
    c.cycles_before_long = MAX_CYCLES;
    c.increment_field(4);
    assert_eq!(c.cycles_before_long, 10);
}

#[test]
fn ordinary_edits_move_by_one() {
    let mut c = Config::default();
    c.increment_field(1);
    assert_eq!(c.work_duration, 26);
    c.decrement_field(1);
    assert_eq!(c.work_duration, 25);
}

#[test]
fn cursor_past_the_field_list_edits_nothing() {
    let mut c = Config::default();
    let before = c;
    c.increment_field(5);
    c.decrement_field(99);
    assert_eq!(c, before);
}

#[test]
fn theme_cycling_wraps_both_ways() {
    // Decrementing from the first theme yields the last.
    assert_eq!(ThemeName::Blue.prev(), ThemeName::Cyan);
    // Incrementing from the last yields the first.
    assert_eq!(ThemeName::Cyan.next(), ThemeName::Blue);
    // A full forward cycle returns to the start.
    let mut t = ThemeName::Blue;
    for _ in 0..6 {
        t = t.next();
    }
    assert_eq!(t, ThemeName::Blue);
    // prev and next are inverses on every theme.
    for t in [ThemeName::Blue, ThemeName::Purple, ThemeName::Green, ThemeName::Red,
        ThemeName::Orange, ThemeName::Cyan] {
        assert_eq!(t.next().prev(), t);
        assert_eq!(t.prev().next(), t);
    }
}

#[test]
fn theme_edit_through_config_fields() {
    let mut c = Config::default();
    c.decrement_field(0);
    assert_eq!(c.theme, ThemeName::Cyan);
    c.increment_field(0);
    assert_eq!(c.theme, ThemeName::Blue);
}

#[test]
fn theme_colors_match_the_palette() {
    let t = Theme::from_name(ThemeName::Blue);
    assert_eq!((t.primary.r, t.primary.g, t.primary.b), (96, 165, 250));
    assert_eq!((t.dim.r, t.dim.g, t.dim.b), (147, 197, 253));
    let t = Theme::from_name(ThemeName::Red);
    assert_eq!((t.primary.r, t.primary.g, t.primary.b), (248, 113, 113));
    let t = Theme::from_name(ThemeName::Cyan);
    assert_eq!((t.dim.r, t.dim.g, t.dim.b), (103, 232, 249));
}
