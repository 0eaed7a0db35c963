use vstd::prelude::*;

verus! {

/// Fewest bars the visualizer shows.
pub const MIN_BARS: usize = 8;
/// Most bars the visualizer shows.
pub const MAX_BARS: usize = 128;
/// How many bars one adjustment adds or removes.
pub const BAR_STEP: usize = 8;
/// Shortest refresh delay, in milliseconds.
pub const MIN_REFRESH_MS: u64 = 8;
/// Longest refresh delay, in milliseconds.
pub const MAX_REFRESH_MS: u64 = 100;
/// How many milliseconds one refresh adjustment moves the delay.
pub const REFRESH_STEP_MS: u64 = 4;

/// Colour schemes for the bars, in the order in which they are cycled.
#[derive(Debug, Clone, Copy, PartialEq, Eq, Structural)]
pub enum ColorScheme {
    Rainbow,
    Blue,
    Green,
    Red,
    Purple,
    Cyan,
    Yellow,
}

/// The display name of a colour scheme.
pub open spec fn scheme_name(c: ColorScheme) -> Seq<char> {
    match c {
        ColorScheme::Rainbow => "Rainbow"@,
        ColorScheme::Blue => "Blue"@,
        ColorScheme::Green => "Green"@,
        ColorScheme::Red => "Red"@,
        ColorScheme::Purple => "Purple"@,
        ColorScheme::Cyan => "Cyan"@,
        ColorScheme::Yellow => "Yellow"@,
    }
}

/// The scheme that follows `c` in the cycle; the last one wraps to the first.
pub open spec fn scheme_after(c: ColorScheme) -> ColorScheme {
    match c {
        ColorScheme::Rainbow => ColorScheme::Blue,
        ColorScheme::Blue => ColorScheme::Green,
        ColorScheme::Green => ColorScheme::Red,
        ColorScheme::Red => ColorScheme::Purple,
        ColorScheme::Purple => ColorScheme::Cyan,
        ColorScheme::Cyan => ColorScheme::Yellow,
        ColorScheme::Yellow => ColorScheme::Rainbow,
    }
}

impl ColorScheme {
    /// The name of the scheme for display.
    pub fn name(self) -> (r: &'static str)
        ensures
            r@ == scheme_name(self),
    {
        match self {
            ColorScheme::Rainbow => "Rainbow",
            ColorScheme::Blue => "Blue",
            ColorScheme::Green => "Green",
            ColorScheme::Red => "Red",
            ColorScheme::Purple => "Purple",
            ColorScheme::Cyan => "Cyan",
            ColorScheme::Yellow => "Yellow",
        }
    }

    /// The next scheme in the cycle.
    pub fn next(self) -> (r: ColorScheme)
        ensures
            r == scheme_after(self),
    {
        match self {
            ColorScheme::Rainbow => ColorScheme::Blue,
            ColorScheme::Blue => ColorScheme::Green,
            ColorScheme::Green => ColorScheme::Red,
            ColorScheme::Red => ColorScheme::Purple,
            ColorScheme::Purple => ColorScheme::Cyan,
            ColorScheme::Cyan => ColorScheme::Yellow,
            ColorScheme::Yellow => ColorScheme::Rainbow,
        }
    }
}

/// Bar count after one increase: one step more, capped at the maximum; a count
/// already at or above the maximum is left alone.
pub open spec fn bars_increased(n: int) -> int {
    if n < MAX_BARS as int {
        if n + BAR_STEP as int <= MAX_BARS as int { n + BAR_STEP as int } else { MAX_BARS as int }
    } else {
        n
    }
}

/// Bar count after one decrease: one step fewer, floored at the minimum; a count
/// already at or below the minimum is left alone.
pub open spec fn bars_decreased(n: int) -> int {
    if n > MIN_BARS as int {
        if n - BAR_STEP as int >= MIN_BARS as int { n - BAR_STEP as int } else { MIN_BARS as int }
    } else {
        n
    }
}

/// Refresh delay after speeding up: one step shorter, floored at the minimum.
pub open spec fn refresh_sped_up(ms: int) -> int {
    if ms > MIN_REFRESH_MS as int {
        if ms - REFRESH_STEP_MS as int >= MIN_REFRESH_MS as int {
            ms - REFRESH_STEP_MS as int
        } else {
            MIN_REFRESH_MS as int
        }
    } else {
        ms
    }
}

/// Refresh delay after slowing down: one step longer, capped at the maximum.
pub open spec fn refresh_slowed(ms: int) -> int {
    if ms < MAX_REFRESH_MS as int {
        if ms + REFRESH_STEP_MS as int <= MAX_REFRESH_MS as int {
            ms + REFRESH_STEP_MS as int
        } else {
            MAX_REFRESH_MS as int
        }
    } else {
        ms
    }
}

/// Presentation settings: how many bars, which colours, how often to redraw.
#[derive(Debug, Clone, Copy, PartialEq, Eq, Structural)]
pub struct Config {
    /// Number of frequency bars to display.
    pub bar_count: usize,
    /// Colour scheme for the bars.
    pub color_scheme: ColorScheme,
    /// Delay between redraws, in milliseconds.
    pub refresh_rate: u64,
}

impl Default for Config {
    fn default() -> (r: Config)
        ensures
            r.bar_count == 32,
            r.color_scheme == ColorScheme::Rainbow,
            r.refresh_rate == 16,
    {
        Config { bar_count: 32, color_scheme: ColorScheme::Rainbow, refresh_rate: 16 }
    }
}

impl Config {
    /// Show more bars.
    pub fn increase_bar_count(&mut self)
        ensures
            final(self).bar_count as int == bars_increased(old(self).bar_count as int),
            final(self).color_scheme == old(self).color_scheme,
            final(self).refresh_rate == old(self).refresh_rate,
    {
        if self.bar_count < MAX_BARS {
            let n = self.bar_count + BAR_STEP;
            self.bar_count = if n <= MAX_BARS { n } else { MAX_BARS };
        }
    }

    /// Show fewer bars.
    pub fn decrease_bar_count(&mut self)
        ensures
            final(self).bar_count as int == bars_decreased(old(self).bar_count as int),
            final(self).color_scheme == old(self).color_scheme,
            final(self).refresh_rate == old(self).refresh_rate,
    {
        if self.bar_count > MIN_BARS {
            let n = self.bar_count - BAR_STEP;
            self.bar_count = if n >= MIN_BARS { n } else { MIN_BARS };
        }
    }

    /// Redraw more often (shorter delay).
    pub fn increase_refresh_rate(&mut self)
        ensures
            final(self).refresh_rate as int == refresh_sped_up(old(self).refresh_rate as int),
            final(self).bar_count == old(self).bar_count,
            final(self).color_scheme == old(self).color_scheme,
    {
        if self.refresh_rate > MIN_REFRESH_MS {
            let ms = self.refresh_rate - REFRESH_STEP_MS;
            self.refresh_rate = if ms >= MIN_REFRESH_MS { ms } else { MIN_REFRESH_MS };
        }
    }

    /// Redraw less often (longer delay).
    pub fn decrease_refresh_rate(&mut self)
        ensures
            final(self).refresh_rate as int == refresh_slowed(old(self).refresh_rate as int),
            final(self).bar_count == old(self).bar_count,
            final(self).color_scheme == old(self).color_scheme,
    {
        if self.refresh_rate < MAX_REFRESH_MS {
            let ms = self.refresh_rate + REFRESH_STEP_MS;
            self.refresh_rate = if ms <= MAX_REFRESH_MS { ms } else { MAX_REFRESH_MS };
        }
    }

    /// Move on to the next colour scheme.
    pub fn next_color_scheme(&mut self)
        ensures
            final(self).color_scheme == scheme_after(old(self).color_scheme),
            final(self).bar_count == old(self).bar_count,
            final(self).refresh_rate == old(self).refresh_rate,
    {
        self.color_scheme = self.color_scheme.next();
    }
}

} // verus!
