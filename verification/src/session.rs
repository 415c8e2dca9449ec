use vstd::prelude::*;
use crate::config::{Config, FIELD_COUNT, spec_dec_field, spec_inc_field};
use crate::timer::{Timer, spec_advance, spec_initial_timer, spec_phase_advance, spec_reset,
    spec_toggle_pause};

verus! {

/// A keyboard event reduced to what the dispatch tables distinguish.
#[derive(Clone, Copy, Debug, PartialEq, Eq, Structural)]
pub enum Key {
    Char(char),
    Up,
    Down,
    Left,
    Right,
    Esc,
    CtrlC,
    Other,
}

/// What the caller must do after a keystroke was dispatched.
#[derive(Clone, Copy, Debug, PartialEq, Eq, Structural)]
pub enum Effect {
    /// Nothing beyond the state change already applied.
    Nothing,
    /// End the main loop.
    Quit,
    /// Persist the configuration to storage.
    SaveConfig,
}

/// The whole application state the loop threads through its handlers.
#[derive(Clone, Copy, Debug, PartialEq, Eq, Structural)]
pub struct App {
    pub config: Config,
    pub timer: Timer,
    pub width: u16,
    pub height: u16,
    pub config_mode: bool,
    pub config_cursor: usize,
}

impl App {
    /// The edit cursor always points at one of the configuration fields.
    pub open spec fn wf(self) -> bool {
        self.config_cursor < FIELD_COUNT
    }
}

/// A keystroke on the normal (clock) screen: quit, pause toggle, manual
/// reset, manual skip, or entering the configuration screen.
pub open spec fn spec_handle_normal_key(a: App, key: Key, now_ms: u64) -> (App, Effect) {
    match key {
        Key::Char(ch) => {
            if ch == 'q' || ch == 'Q' {
                (a, Effect::Quit)
            } else if ch == ' ' {
                (App { timer: spec_toggle_pause(a.timer, now_ms), ..a }, Effect::Nothing)
            } else if ch == 'r' || ch == 'R' {
                (App { timer: spec_reset(a.timer, a.config), ..a }, Effect::Nothing)
            } else if ch == 's' || ch == 'S' {
                (App { timer: spec_phase_advance(a.timer, a.config), ..a }, Effect::Nothing)
            } else if ch == 'c' || ch == 'C' {
                (App { config_mode: true, ..a }, Effect::Nothing)
            } else {
                (a, Effect::Nothing)
            }
        },
        _ => (a, Effect::Nothing),
    }
}

/// A keystroke on the configuration screen: leave-and-save, cursor movement
/// clamped to the field list, or an edit of the selected field. Leaving the
/// screen re-bases the timer's tick instant on `now_ms`, so the countdown
/// stands still while the screen is open.
pub open spec fn spec_handle_config_key(a: App, key: Key, now_ms: u64) -> (App, Effect) {
    match key {
        Key::Char(ch) => {
            if ch == 'q' {
                (
                    App {
                        config_mode: false,
                        timer: Timer { last_tick_ms: now_ms, ..a.timer },
                        ..a
                    },
                    Effect::SaveConfig,
                )
            } else if ch == 'j' {
                (App { config_cursor: spec_cursor_down(a.config_cursor), ..a }, Effect::Nothing)
            } else if ch == 'k' {
                (App { config_cursor: spec_cursor_up(a.config_cursor), ..a }, Effect::Nothing)
            } else if ch == 'h' {
                (App { config: spec_dec_field(a.config, a.config_cursor), ..a }, Effect::Nothing)
            } else if ch == 'l' {
                (App { config: spec_inc_field(a.config, a.config_cursor), ..a }, Effect::Nothing)
            } else {
                (a, Effect::Nothing)
            }
        },
        Key::Esc => (
            App { config_mode: false, timer: Timer { last_tick_ms: now_ms, ..a.timer }, ..a },
            Effect::SaveConfig,
        ),
        Key::Down => (App { config_cursor: spec_cursor_down(a.config_cursor), ..a },
            Effect::Nothing),
        Key::Up => (App { config_cursor: spec_cursor_up(a.config_cursor), ..a }, Effect::Nothing),
        Key::Left => (App { config: spec_dec_field(a.config, a.config_cursor), ..a },
            Effect::Nothing),
        Key::Right => (App { config: spec_inc_field(a.config, a.config_cursor), ..a },
            Effect::Nothing),
        _ => (a, Effect::Nothing),
    }
}

/// Cursor moved one field down, stopping at the last field.
pub open spec fn spec_cursor_down(cursor: usize) -> usize {
    if cursor + 1 < FIELD_COUNT {
        (cursor + 1) as usize
    } else {
        (FIELD_COUNT - 1) as usize
    }
}

/// Cursor moved one field up, stopping at the first field.
pub open spec fn spec_cursor_up(cursor: usize) -> usize {
    if cursor > 0 {
        (cursor - 1) as usize
    } else {
        0
    }
}

/// The full dispatch: the interrupt combination quits from either screen;
/// any other key goes to the table of the screen that is open.
pub open spec fn spec_handle_key(a: App, key: Key, now_ms: u64) -> (App, Effect) {
    if key == Key::CtrlC {
        (a, Effect::Quit)
    } else if a.config_mode {
        spec_handle_config_key(a, key, now_ms)
    } else {
        spec_handle_normal_key(a, key, now_ms)
    }
}

/// One loop iteration's timer tick: the countdown runs only while the normal
/// screen is shown; the configuration screen freezes it.
pub open spec fn spec_app_tick(a: App, now_ms: u64) -> App {
    if a.config_mode {
        a
    } else {
        App { timer: spec_advance(a.timer, a.config, now_ms), ..a }
    }
}

impl App {
    /// The startup state: the given configuration, a fresh paused work-phase
    /// timer, the given terminal size, and the normal screen.
    pub fn new(config: Config, now_ms: u64, width: u16, height: u16) -> (a: App)
        ensures
            a == (App {
                config,
                timer: spec_initial_timer(config, now_ms),
                width,
                height,
                config_mode: false,
                config_cursor: 0,
            }),
            a.wf(),
    {
        let timer = Timer::new(&config, now_ms);
        App { config, timer, width, height, config_mode: false, config_cursor: 0 }
    }

    /// Dispatch one keystroke and report what the caller still has to do.
    pub fn handle_key(&mut self, key: Key, now_ms: u64) -> (effect: Effect)
        requires
            old(self).wf(),
        ensures
            (*final(self), effect) == spec_handle_key(*old(self), key, now_ms),
            final(self).wf(),
    {
        if matches!(key, Key::CtrlC) {
            return Effect::Quit;
        }
        if self.config_mode {
            self.handle_config_key(key, now_ms)
        } else {
            self.handle_normal_key(key, now_ms)
        }
    }

    fn handle_normal_key(&mut self, key: Key, now_ms: u64) -> (effect: Effect)
        requires
            old(self).wf(),
            !old(self).config_mode,
        ensures
            (*final(self), effect) == spec_handle_normal_key(*old(self), key, now_ms),
            final(self).wf(),
    {
        match key {
            Key::Char(ch) => {
                if ch == 'q' || ch == 'Q' {
                    Effect::Quit
                } else if ch == ' ' {
                    self.timer.toggle_pause(now_ms);
                    Effect::Nothing
                } else if ch == 'r' || ch == 'R' {
                    self.timer.reset(&self.config);
                    Effect::Nothing
                } else if ch == 's' || ch == 'S' {
                    self.timer.phase_advance(&self.config);
                    Effect::Nothing
                } else if ch == 'c' || ch == 'C' {
                    self.config_mode = true;
                    Effect::Nothing
                } else {
                    Effect::Nothing
                }
            },
            _ => Effect::Nothing,
        }
    }

    fn handle_config_key(&mut self, key: Key, now_ms: u64) -> (effect: Effect)
        requires
            old(self).wf(),
            old(self).config_mode,
        ensures
            (*final(self), effect) == spec_handle_config_key(*old(self), key, now_ms),
            final(self).wf(),
    {
        match key {
            Key::Char(ch) => {
                if ch == 'q' {
                    self.leave_config(now_ms);
                    Effect::SaveConfig
                } else if ch == 'j' {
                    self.cursor_down();
                    Effect::Nothing
                } else if ch == 'k' {
                    self.cursor_up();
                    Effect::Nothing
                } else if ch == 'h' {
                    let cursor = self.config_cursor;
                    self.config.decrement_field(cursor);
                    Effect::Nothing
                } else if ch == 'l' {
                    let cursor = self.config_cursor;
                    self.config.increment_field(cursor);
                    Effect::Nothing
                } else {
                    Effect::Nothing
                }
            },
            Key::Esc => {
                self.leave_config(now_ms);
                Effect::SaveConfig
            },
            Key::Down => {
                self.cursor_down();
                Effect::Nothing
            },
            Key::Up => {
                self.cursor_up();
                Effect::Nothing
            },
            Key::Left => {
                let cursor = self.config_cursor;
                self.config.decrement_field(cursor);
                Effect::Nothing
            },
            Key::Right => {
                let cursor = self.config_cursor;
                self.config.increment_field(cursor);
                Effect::Nothing
            },
            _ => Effect::Nothing,
        }
    }

    /// Close the configuration screen. The tick instant is re-based on
    /// `now_ms` so the time the screen was open is not charged later.
    fn leave_config(&mut self, now_ms: u64)
        ensures
            *final(self) == (App {
                config_mode: false,
                timer: Timer { last_tick_ms: now_ms, ..old(self).timer },
                ..*old(self)
            }),
    {
        self.config_mode = false;
        self.timer.last_tick_ms = now_ms;
    }

    fn cursor_down(&mut self)
        requires
            old(self).wf(),
        ensures
            *final(self) == (App { config_cursor: spec_cursor_down(old(self).config_cursor),
                ..*old(self) }),
            final(self).wf(),
    {
        if self.config_cursor + 1 < FIELD_COUNT {
            self.config_cursor = self.config_cursor + 1;
        } else {
            self.config_cursor = FIELD_COUNT - 1;
        }
    }

    fn cursor_up(&mut self)
        requires
            old(self).wf(),
        ensures
            *final(self) == (App { config_cursor: spec_cursor_up(old(self).config_cursor),
                ..*old(self) }),
            final(self).wf(),
    {
        if self.config_cursor > 0 {
            self.config_cursor = self.config_cursor - 1;
        }
    }

    /// Advance the countdown by real elapsed time, unless the configuration
    /// screen is open: while it is, time is deliberately frozen.
    pub fn tick(&mut self, now_ms: u64)
        requires
            old(self).wf(),
        ensures
            *final(self) == spec_app_tick(*old(self), now_ms),
            final(self).wf(),
    {
        if !self.config_mode {
            self.timer.advance(&self.config, now_ms);
        }
    }

    /// Record a new terminal size; nothing else changes.
    pub fn resize(&mut self, width: u16, height: u16)
        requires
            old(self).wf(),
        ensures
            *final(self) == (App { width, height, ..*old(self) }),
            final(self).wf(),
    {
        self.width = width;
        self.height = height;
    }
}

} // verus!
