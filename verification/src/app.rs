//! The application state and the decisions of the event loop.
//!
//! The loop itself — rendering, raw-mode input, timers — lives outside the
//! library.  It hands each decoded key press to [`App::on_key`] and calls
//! [`App::on_tick`] when the tick interval has elapsed; both mutate the
//! state atomically between renders.

use vstd::prelude::*;

use crate::system::{
    spec_init, spec_toggle_network, spec_toggle_orbital, spec_update, DeltasModel, SystemState,
};
use crate::tabs::{next_index, prev_index, TabsState};

verus! {

/// Fixed tick interval of the event loop, in milliseconds.
pub const TICK_INTERVAL_MS: u64 = 250;

/// A decoded key press, as the event loop hands it to [`App::on_key`].
#[derive(Clone, Copy, Debug, PartialEq, Eq, Structural)]
pub enum Key {
    Char(char),
    Tab,
    BackTab,
    Left,
    Right,
    Esc,
}

/// Tab ordinal selected by a digit key: `'1'` through `'9'` select
/// ordinals 0 through 8, and `'0'` selects ordinal 9 — never the first
/// tab.  Other characters select nothing.
pub open spec fn spec_digit_ordinal(c: char) -> Option<usize> {
    if c == '1' {
        Some(0usize)
    } else if c == '2' {
        Some(1usize)
    } else if c == '3' {
        Some(2usize)
    } else if c == '4' {
        Some(3usize)
    } else if c == '5' {
        Some(4usize)
    } else if c == '6' {
        Some(5usize)
    } else if c == '7' {
        Some(6usize)
    } else if c == '8' {
        Some(7usize)
    } else if c == '9' {
        Some(8usize)
    } else if c == '0' {
        Some(9usize)
    } else {
        None
    }
}

/// Maps a digit key to the tab ordinal it selects.
pub fn digit_ordinal(c: char) -> (r: Option<usize>)
    ensures
        r == spec_digit_ordinal(c),
{
    match c {
        '1' => Some(0),
        '2' => Some(1),
        '3' => Some(2),
        '4' => Some(3),
        '5' => Some(4),
        '6' => Some(5),
        '7' => Some(6),
        '8' => Some(7),
        '9' => Some(8),
        '0' => Some(9),
        _ => None,
    }
}

/// How long the event loop may wait for input before the next tick is due:
/// the remainder of the tick budget, and nothing once it is spent.
pub fn poll_timeout_ms(elapsed_ms: u64) -> (r: u64)
    ensures
        r == if elapsed_ms >= TICK_INTERVAL_MS {
            0u64
        } else {
            (TICK_INTERVAL_MS - elapsed_ms) as u64
        },
{
    if elapsed_ms >= TICK_INTERVAL_MS {
        0
    } else {
        TICK_INTERVAL_MS - elapsed_ms
    }
}

/// Whether the tick interval has elapsed, so the next sampling round is due.
pub fn tick_due(elapsed_ms: u64) -> (r: bool)
    ensures
        r == (elapsed_ms >= TICK_INTERVAL_MS),
{
    elapsed_ms >= TICK_INTERVAL_MS
}

/// The single mutable object of the process: the snapshot, the tab
/// selector, and the view-style flag.
pub struct App {
    pub tabs: TabsState,
    pub system: SystemState,
    pub enhanced_view: bool,
}

impl App {
    /// The tab selector and the snapshot are both well formed.
    pub open spec fn wf(&self) -> bool {
        self.tabs.wf() && self.system.wf()
    }

    /// Builds the starting state: the fixed list of ten views with the
    /// first one selected, and a freshly seeded snapshot.
    pub fn new() -> (r: App)
        ensures
            r.wf(),
            r.tabs.index == 0,
            r.tabs.titles@.len() == 10,
            r.tabs.titles.deep_view() =~= seq![
                "Overview"@,
                "Kernel"@,
                "Filesystem"@,
                "Processes"@,
                "Network"@,
                "Security"@,
                "Packages"@,
                "DevTools"@,
                "Plugins"@,
                "Config"@,
            ],
            r.enhanced_view,
            exists|boot: u64, up: u64| r.system@ == #[trigger] spec_init(boot, up),
    {
        let mut titles: Vec<String> = Vec::new();
        titles.push("Overview".to_owned());
        titles.push("Kernel".to_owned());
        titles.push("Filesystem".to_owned());
        titles.push("Processes".to_owned());
        titles.push("Network".to_owned());
        titles.push("Security".to_owned());
        titles.push("Packages".to_owned());
        titles.push("DevTools".to_owned());
        titles.push("Plugins".to_owned());
        titles.push("Config".to_owned());
        let r = App { tabs: TabsState::new(titles), system: SystemState::new(), enhanced_view: true };
        proof {
            assert(r.tabs.titles.deep_view() =~= seq![
                "Overview"@,
                "Kernel"@,
                "Filesystem"@,
                "Processes"@,
                "Network"@,
                "Security"@,
                "Packages"@,
                "DevTools"@,
                "Plugins"@,
                "Config"@,
            ]);
        }
        r
    }

    /// Advances the tab selector, leaving the snapshot alone.
    pub fn next_tab(&mut self)
        requires
            old(self).wf(),
        ensures
            final(self).wf(),
            final(self).system == old(self).system,
            final(self).enhanced_view == old(self).enhanced_view,
            final(self).tabs.titles@ == old(self).tabs.titles@,
            final(self).tabs.index == next_index(
                old(self).tabs.index as int,
                old(self).tabs.titles@.len() as int,
            ),
    {
        self.tabs.next();
    }

    /// Moves the tab selector back, leaving the snapshot alone.
    pub fn previous_tab(&mut self)
        requires
            old(self).wf(),
        ensures
            final(self).wf(),
            final(self).system == old(self).system,
            final(self).enhanced_view == old(self).enhanced_view,
            final(self).tabs.titles@ == old(self).tabs.titles@,
            final(self).tabs.index == prev_index(
                old(self).tabs.index as int,
                old(self).tabs.titles@.len() as int,
            ),
    {
        self.tabs.previous();
    }

    /// Runs one periodic sampling round, leaving the tab selector alone.
    pub fn on_tick(&mut self)
        requires
            old(self).wf(),
        ensures
            final(self).wf(),
            final(self).tabs == old(self).tabs,
            final(self).enhanced_view == old(self).enhanced_view,
            exists|d: DeltasModel, t: u64|
                d.in_range() && d.proc_cpu.len() == old(self).system@.processes.len() && final(self).system@ == #[trigger] spec_update(old(self).system@, d, t),
    {
        self.system.update();
    }

    /// Dispatches one key press and says whether the loop must terminate.
    ///
    /// `q` and Escape quit and change nothing.  Tab and the right arrow
    /// advance the selector; BackTab and the left arrow move it back.
    /// Digits select the tab at their ordinal and are a no-op when fewer
    /// views exist.  `r` forces a sampling round, `n` toggles the network
    /// subsystem, `o` toggles the display subsystem.  Anything else is
    /// ignored.  Each press is handled atomically.
    pub fn on_key(&mut self, key: Key) -> (quit: bool)
        requires
            old(self).wf(),
        ensures
            final(self).wf(),
            final(self).enhanced_view == old(self).enhanced_view,
            final(self).tabs.titles@ == old(self).tabs.titles@,
            quit == (key == Key::Esc || key == Key::Char('q')),
            quit ==> *final(self) == *old(self),
            key == Key::Tab || key == Key::Right ==> final(self).system == old(self).system
                && final(self).tabs.index == next_index(
                old(self).tabs.index as int,
                old(self).tabs.titles@.len() as int,
            ),
            key == Key::BackTab || key == Key::Left ==> final(self).system == old(self).system
                && final(self).tabs.index == prev_index(
                old(self).tabs.index as int,
                old(self).tabs.titles@.len() as int,
            ),
            key matches Key::Char(c) ==> (spec_digit_ordinal(c) matches Some(t)
                ==> final(self).system == old(self).system && final(self).tabs.index == (if (
            t as int) < old(self).tabs.titles@.len() {
                t as int
            } else {
                old(self).tabs.index as int
            })),
            key == Key::Char('r') ==> final(self).tabs == old(self).tabs && (exists|
                d: DeltasModel,
                t: u64,
            |
                d.in_range() && d.proc_cpu.len() == old(self).system@.processes.len() && final(self).system@ == #[trigger] spec_update(old(self).system@, d, t)),
            key == Key::Char('n') ==> final(self).tabs == old(self).tabs && final(self).system@
                == spec_toggle_network(old(self).system@),
            key == Key::Char('o') ==> final(self).tabs == old(self).tabs && final(self).system@
                == spec_toggle_orbital(old(self).system@),
            key matches Key::Char(c) ==> (spec_digit_ordinal(c) is None && c != 'q' && c != 'r'
                && c != 'n' && c != 'o' ==> *final(self) == *old(self)),
    {
        match key {
            Key::Esc => true,
            Key::Tab | Key::Right => {
                self.tabs.next();
                false
            },
            Key::BackTab | Key::Left => {
                self.tabs.previous();
                false
            },
            Key::Char(c) => {
                if c == 'q' {
                    true
                } else if c == 'r' {
                    self.system.refresh();
                    false
                } else if c == 'n' {
                    self.system.toggle_network();
                    false
                } else if c == 'o' {
                    self.system.toggle_orbital();
                    false
                } else {
                    match digit_ordinal(c) {
                        Some(t) => {
                            self.tabs.select(t);
                            false
                        },
                        None => false,
                    }
                }
            },
        }
    }
}

} // verus!
