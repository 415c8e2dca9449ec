use vstd::prelude::*;

verus! {

/// The closed set of colour themes, in the order the config editor cycles
/// through them.
#[derive(Clone, Copy, Debug, PartialEq, Eq, Structural)]
pub enum ThemeName {
    Blue,
    Purple,
    Green,
    Red,
    Orange,
    Cyan,
}

/// An RGB colour as three 8-bit channels.
#[derive(Clone, Copy, Debug, PartialEq, Eq, Structural)]
pub struct Rgb {
    pub r: u8,
    pub g: u8,
    pub b: u8,
}

/// A theme's pair of display colours.
#[derive(Clone, Copy, Debug, PartialEq, Eq, Structural)]
pub struct Theme {
    pub primary: Rgb,
    pub dim: Rgb,
}

pub open spec fn spec_theme_prev(t: ThemeName) -> ThemeName {
    match t {
        ThemeName::Blue => ThemeName::Cyan,
        ThemeName::Purple => ThemeName::Blue,
        ThemeName::Green => ThemeName::Purple,
        ThemeName::Red => ThemeName::Green,
        ThemeName::Orange => ThemeName::Red,
        ThemeName::Cyan => ThemeName::Orange,
    }
}

pub open spec fn spec_theme_next(t: ThemeName) -> ThemeName {
    match t {
        ThemeName::Blue => ThemeName::Purple,
        ThemeName::Purple => ThemeName::Green,
        ThemeName::Green => ThemeName::Red,
        ThemeName::Red => ThemeName::Orange,
        ThemeName::Orange => ThemeName::Cyan,
        ThemeName::Cyan => ThemeName::Blue,
    }
}

impl ThemeName {
    /// The previous theme in the cycle, wrapping from the first to the last.
    pub fn prev(self) -> (r: ThemeName)
        ensures
            r == spec_theme_prev(self),
    {
        match self {
            ThemeName::Blue => ThemeName::Cyan,
            ThemeName::Purple => ThemeName::Blue,
            ThemeName::Green => ThemeName::Purple,
            ThemeName::Red => ThemeName::Green,
            ThemeName::Orange => ThemeName::Red,
            ThemeName::Cyan => ThemeName::Orange,
        }
    }

    /// The next theme in the cycle, wrapping from the last to the first.
    pub fn next(self) -> (r: ThemeName)
        ensures
            r == spec_theme_next(self),
    {
        match self {
            ThemeName::Blue => ThemeName::Purple,
            ThemeName::Purple => ThemeName::Green,
            ThemeName::Green => ThemeName::Red,
            ThemeName::Red => ThemeName::Orange,
            ThemeName::Orange => ThemeName::Cyan,
            ThemeName::Cyan => ThemeName::Blue,
        }
    }
}

pub open spec fn spec_theme_colors(t: ThemeName) -> Theme {
    match t {
        ThemeName::Blue => Theme {
            primary: Rgb { r: 96, g: 165, b: 250 },
            dim: Rgb { r: 147, g: 197, b: 253 },
        },
        ThemeName::Purple => Theme {
            primary: Rgb { r: 192, g: 132, b: 252 },
            dim: Rgb { r: 233, g: 213, b: 255 },
        },
        ThemeName::Green => Theme {
            primary: Rgb { r: 74, g: 222, b: 128 },
            dim: Rgb { r: 134, g: 239, b: 172 },
        },
        ThemeName::Red => Theme {
            primary: Rgb { r: 248, g: 113, b: 113 },
            dim: Rgb { r: 254, g: 202, b: 202 },
        },
        ThemeName::Orange => Theme {
            primary: Rgb { r: 251, g: 191, b: 36 },
            dim: Rgb { r: 253, g: 224, b: 71 },
        },
        ThemeName::Cyan => Theme {
            primary: Rgb { r: 34, g: 211, b: 238 },
            dim: Rgb { r: 103, g: 232, b: 249 },
        },
    }
}

impl Theme {
    /// The colour pair that a theme name selects.
    pub fn from_name(name: ThemeName) -> (r: Theme)
        ensures
            r == spec_theme_colors(name),
    {
        match name {
            ThemeName::Blue => Theme {
                primary: Rgb { r: 96, g: 165, b: 250 },
                dim: Rgb { r: 147, g: 197, b: 253 },
            },
            ThemeName::Purple => Theme {
                primary: Rgb { r: 192, g: 132, b: 252 },
                dim: Rgb { r: 233, g: 213, b: 255 },
            },
            ThemeName::Green => Theme {
                primary: Rgb { r: 74, g: 222, b: 128 },
                dim: Rgb { r: 134, g: 239, b: 172 },
            },
            ThemeName::Red => Theme {
                primary: Rgb { r: 248, g: 113, b: 113 },
                dim: Rgb { r: 254, g: 202, b: 202 },
            },
            ThemeName::Orange => Theme {
                primary: Rgb { r: 251, g: 191, b: 36 },
                dim: Rgb { r: 253, g: 224, b: 71 },
            },
            ThemeName::Cyan => Theme {
                primary: Rgb { r: 34, g: 211, b: 238 },
                dim: Rgb { r: 103, g: 232, b: 249 },
            },
        }
    }
}

/// Upper bound for work and long-break durations, in minutes.
pub const MAX_DURATION_MINUTES: u32 = 120;

/// Upper bound for the short-break duration, in minutes.
pub const MAX_SHORT_MINUTES: u32 = 60;

/// Upper bound for the number of work cycles before a long break.
pub const MAX_CYCLES: u32 = 10;

/// Number of editable configuration fields; the edit cursor stays below it.
pub const FIELD_COUNT: usize = 5;

/// The persisted user preferences: a theme and the four interval settings.
#[derive(Clone, Copy, Debug, PartialEq, Eq, Structural)]
pub struct Config {
    pub theme: ThemeName,
    pub work_duration: u32,
    pub short_break: u32,
    pub long_break: u32,
    pub cycles_before_long: u32,
}

pub open spec fn spec_default_config() -> Config {
    Config {
        theme: ThemeName::Blue,
        work_duration: 25,
        short_break: 5,
        long_break: 15,
        cycles_before_long: 4,
    }
}

impl Default for Config {
    /// The built-in defaults used on first run and after a failed load.
    fn default() -> (c: Config)
        ensures
            c == spec_default_config(),
    {
        Config {
            theme: ThemeName::Blue,
            work_duration: 25,
            short_break: 5,
            long_break: 15,
            cycles_before_long: 4,
        }
    }
}

/// One numeric field decremented, saturating at 1.
pub open spec fn spec_dec_setting(v: u32) -> u32 {
    if v > 1 {
        (v - 1) as u32
    } else {
        1
    }
}

/// One numeric field incremented, saturating at `cap`.
pub open spec fn spec_inc_setting(v: u32, cap: u32) -> u32 {
    if v < cap {
        (v + 1) as u32
    } else {
        cap
    }
}

/// The configuration after a "decrement" keystroke on the field at `cursor`.
pub open spec fn spec_dec_field(c: Config, cursor: usize) -> Config {
    if cursor == 0 {
        Config { theme: spec_theme_prev(c.theme), ..c }
    } else if cursor == 1 {
        Config { work_duration: spec_dec_setting(c.work_duration), ..c }
    } else if cursor == 2 {
        Config { short_break: spec_dec_setting(c.short_break), ..c }
    } else if cursor == 3 {
        Config { long_break: spec_dec_setting(c.long_break), ..c }
    } else if cursor == 4 {
        Config { cycles_before_long: spec_dec_setting(c.cycles_before_long), ..c }
    } else {
        c
    }
}

/// The configuration after an "increment" keystroke on the field at `cursor`.
pub open spec fn spec_inc_field(c: Config, cursor: usize) -> Config {
    if cursor == 0 {
        Config { theme: spec_theme_next(c.theme), ..c }
    } else if cursor == 1 {
        Config { work_duration: spec_inc_setting(c.work_duration, MAX_DURATION_MINUTES), ..c }
    } else if cursor == 2 {
        Config { short_break: spec_inc_setting(c.short_break, MAX_SHORT_MINUTES), ..c }
    } else if cursor == 3 {
        Config { long_break: spec_inc_setting(c.long_break, MAX_DURATION_MINUTES), ..c }
    } else if cursor == 4 {
        Config { cycles_before_long: spec_inc_setting(c.cycles_before_long, MAX_CYCLES), ..c }
    } else {
        c
    }
}

fn dec_setting(v: u32) -> (r: u32)
    ensures
        r == spec_dec_setting(v),
{
    if v > 1 {
        v - 1
    } else {
        1
    }
}

fn inc_setting(v: u32, cap: u32) -> (r: u32)
    ensures
        r == spec_inc_setting(v, cap),
{
    if v < cap {
        v + 1
    } else {
        cap
    }
}

impl Config {
    /// Apply a "decrement" edit to the field selected by `cursor`: the theme
    /// cycles backwards with wrap-around, numeric fields saturate at 1, and a
    /// cursor past the field list leaves the configuration unchanged.
    pub fn decrement_field(&mut self, cursor: usize)
        ensures
            *final(self) == spec_dec_field(*old(self), cursor),
    {
        if cursor == 0 {
            self.theme = self.theme.prev();
        } else if cursor == 1 {
            self.work_duration = dec_setting(self.work_duration);
        } else if cursor == 2 {
            self.short_break = dec_setting(self.short_break);
        } else if cursor == 3 {
            self.long_break = dec_setting(self.long_break);
        } else if cursor == 4 {
            self.cycles_before_long = dec_setting(self.cycles_before_long);
        }
    }

    /// Apply an "increment" edit to the field selected by `cursor`: the theme
    /// cycles forwards with wrap-around and each numeric field saturates at
    /// its own documented maximum.
    pub fn increment_field(&mut self, cursor: usize)
        ensures
            *final(self) == spec_inc_field(*old(self), cursor),
    {
        if cursor == 0 {
            self.theme = self.theme.next();
        } else if cursor == 1 {
            self.work_duration = inc_setting(self.work_duration, MAX_DURATION_MINUTES);
        } else if cursor == 2 {
            self.short_break = inc_setting(self.short_break, MAX_SHORT_MINUTES);
        } else if cursor == 3 {
            self.long_break = inc_setting(self.long_break, MAX_DURATION_MINUTES);
        } else if cursor == 4 {
            self.cycles_before_long = inc_setting(self.cycles_before_long, MAX_CYCLES);
        }
    }
}

} // verus!
