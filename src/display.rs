use crate::config::{
    bars_decreased, bars_increased, refresh_slowed, refresh_sped_up, scheme_after, Config,
};
use vstd::prelude::*;

verus! {

/// How many spectrum bins one bar averages: an equal share of the bins, and at
/// least one.
pub open spec fn bins_per_bar(bin_count: int, bar_count: int) -> int {
    if bin_count / bar_count >= 1 {
        bin_count / bar_count
    } else {
        1
    }
}

/// The bins that bar `i` averages, as a start and an end index.  A bar whose
/// start lies at or past `bin_count` averages nothing and is drawn empty.
pub open spec fn bar_range(bin_count: int, bar_count: int, i: int) -> (int, int) {
    let per = bins_per_bar(bin_count, bar_count);
    let start = i * per;
    (start, if start + per <= bin_count { start + per } else { bin_count })
}

/// The bin range of each of `bar_count` bars over a spectrum of `bin_count`
/// bins, lowest frequencies first.
pub fn bar_ranges(bin_count: usize, bar_count: usize) -> (r: Vec<(usize, usize)>)
    requires
        bar_count > 0,
    ensures
        r@.len() == bar_count,
        forall|i: int|
            0 <= i < bar_count ==> (r@[i].0 as int, r@[i].1 as int) == #[trigger] bar_range(
                bin_count as int,
                bar_count as int,
                i,
            ),
{
    let share = bin_count / bar_count;
    let per: usize = if share >= 1 { share } else { 1 };
    let mut r: Vec<(usize, usize)> = Vec::new();
    let mut i: usize = 0;
    while i < bar_count
        invariant
            bar_count > 0,
            share == bin_count / bar_count,
            per as int == bins_per_bar(bin_count as int, bar_count as int),
            0 <= i <= bar_count,
            r@.len() == i,
            forall|k: int|
                0 <= k < i ==> (r@[k].0 as int, r@[k].1 as int) == #[trigger] bar_range(
                    bin_count as int,
                    bar_count as int,
                    k,
                ),
        decreases bar_count - i,
    {
        proof {
            if share >= 1 {
                assert((i + 1) * per <= bar_count * per) by (nonlinear_arith)
                    requires
                        i < bar_count,
                ;
                assert(bar_count * (bin_count / bar_count) <= bin_count) by (nonlinear_arith)
                    requires
                        bar_count > 0,
                ;
            } else {
                assert((i + 1) * per <= bar_count) by (nonlinear_arith)
                    requires
                        i < bar_count,
                        per == 1,
                ;
            }
            assert((i + 1) * per == i * per + per) by (nonlinear_arith);
        }
        let start = i * per;
        let end = if start + per <= bin_count { start + per } else { bin_count };
        r.push((start, end));
        i = i + 1;
    }
    r
}

/// A key press, as far as the controls tell keys apart.
#[derive(Debug, Clone, Copy, PartialEq, Eq, Structural)]
pub enum Key {
    Esc,
    Char(char),
    Other,
}

/// What a key press asks for.
#[derive(Debug, Clone, Copy, PartialEq, Eq, Structural)]
pub enum KeyAction {
    Quit,
    ShowHelp,
    CloseHelp,
    NextScheme,
    MoreBars,
    FewerBars,
    FasterRefresh,
    SlowerRefresh,
    LessSensitive,
    MoreSensitive,
    SwitchSource,
    Ignore,
}

/// The binding of each key; `ctrl` says that Control was the only modifier.
pub open spec fn binding(key: Key, ctrl: bool) -> KeyAction {
    match key {
        Key::Esc => KeyAction::Quit,
        Key::Char(c) => if c == 'q' || (ctrl && (c == 'c' || c == 'C')) {
            KeyAction::Quit
        } else if c == 'h' || c == 'H' {
            KeyAction::ShowHelp
        } else if c == 'c' || c == 'C' {
            KeyAction::NextScheme
        } else if c == '+' || c == '=' {
            KeyAction::MoreBars
        } else if c == '-' || c == '_' {
            KeyAction::FewerBars
        } else if c == 'r' {
            KeyAction::FasterRefresh
        } else if c == 'R' {
            KeyAction::SlowerRefresh
        } else if c == '[' {
            KeyAction::LessSensitive
        } else if c == ']' {
            KeyAction::MoreSensitive
        } else if c == 's' || c == 'S' {
            KeyAction::SwitchSource
        } else {
            KeyAction::Ignore
        },
        Key::Other => KeyAction::Ignore,
    }
}

/// The action bound to a key.
pub fn key_action(key: Key, ctrl: bool) -> (a: KeyAction)
    ensures
        a == binding(key, ctrl),
{
    match key {
        Key::Esc => KeyAction::Quit,
        Key::Char(c) => {
            if c == 'q' || (ctrl && (c == 'c' || c == 'C')) {
                KeyAction::Quit
            } else if c == 'h' || c == 'H' {
                KeyAction::ShowHelp
            } else if c == 'c' || c == 'C' {
                KeyAction::NextScheme
            } else if c == '+' || c == '=' {
                KeyAction::MoreBars
            } else if c == '-' || c == '_' {
                KeyAction::FewerBars
            } else if c == 'r' {
                KeyAction::FasterRefresh
            } else if c == 'R' {
                KeyAction::SlowerRefresh
            } else if c == '[' {
                KeyAction::LessSensitive
            } else if c == ']' {
                KeyAction::MoreSensitive
            } else if c == 's' || c == 'S' {
                KeyAction::SwitchSource
            } else {
                KeyAction::Ignore
            }
        },
        Key::Other => KeyAction::Ignore,
    }
}

/// The interactive state of the visualizer: whether it runs, whether the help
/// overlay shows, and the presentation settings.
#[derive(Debug, Clone, Copy, PartialEq, Eq, Structural)]
pub struct Controls {
    pub running: bool,
    pub show_help: bool,
    pub config: Config,
}

impl Controls {
    /// Running, with no help shown and the given settings.
    pub fn new(config: Config) -> (r: Controls)
        ensures
            r.running,
            !r.show_help,
            r.config == config,
    {
        Controls { running: true, show_help: false, config }
    }

    /// Handles one key press.  While help shows, any key only closes it.
    /// Otherwise the bound action is applied to the state where it belongs
    /// there; the action is returned so that the host carries out the rest
    /// (sensitivity and the audio source).
    pub fn on_key(&mut self, key: Key, ctrl: bool) -> (a: KeyAction)
        ensures
            old(self).show_help ==> a == KeyAction::CloseHelp && *final(self) == (Controls {
                show_help: false,
                ..*old(self)
            }),
            !old(self).show_help ==> a == binding(key, ctrl) && final(self).running == (
            old(self).running && a != KeyAction::Quit) && final(self).show_help == (a
                == KeyAction::ShowHelp) && final(self).config.bar_count as int == (match a {
                KeyAction::MoreBars => bars_increased(old(self).config.bar_count as int),
                KeyAction::FewerBars => bars_decreased(old(self).config.bar_count as int),
                _ => old(self).config.bar_count as int,
            }) && final(self).config.refresh_rate as int == (match a {
                KeyAction::FasterRefresh => refresh_sped_up(old(self).config.refresh_rate as int),
                KeyAction::SlowerRefresh => refresh_slowed(old(self).config.refresh_rate as int),
                _ => old(self).config.refresh_rate as int,
            }) && final(self).config.color_scheme == (if a == KeyAction::NextScheme {
                scheme_after(old(self).config.color_scheme)
            } else {
                old(self).config.color_scheme
            }),
    {
        if self.show_help {
            self.show_help = false;
            return KeyAction::CloseHelp;
        }
        let a = key_action(key, ctrl);
        match a {
            KeyAction::Quit => {
                self.running = false;
            },
            KeyAction::ShowHelp => {
                self.show_help = true;
            },
            KeyAction::NextScheme => {
                self.config.next_color_scheme();
            },
            KeyAction::MoreBars => {
                self.config.increase_bar_count();
            },
            KeyAction::FewerBars => {
                self.config.decrease_bar_count();
            },
            KeyAction::FasterRefresh => {
                self.config.increase_refresh_rate();
            },
            KeyAction::SlowerRefresh => {
                self.config.decrease_refresh_rate();
            },
            _ => {},
        }
        a
    }
}

} // verus!
