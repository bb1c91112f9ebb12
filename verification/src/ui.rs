//! Benchmark dashboard state.

use vstd::prelude::*;

verus! {

/// UI state of the benchmark dashboard.
pub struct UiState {
    pub agent_scroll: usize,
    pub status_message: String,
}

impl Default for UiState {
    fn default() -> (s: Self)
        ensures
            s.agent_scroll == 0,
            s.status_message@ == Seq::<char>::empty(),
    {
        UiState { agent_scroll: 0, status_message: String::new() }
    }
}

/// The scroll offset after moving by `delta` rows in a table of `max` rows:
/// never below the first row, and moving down stops at the last row.
pub open spec fn scrolled(scroll: int, delta: int, max: int) -> int {
    if delta < 0 {
        if scroll + delta < 0 {
            0
        } else {
            scroll + delta
        }
    } else {
        let last = if max == 0 {
            0
        } else {
            max - 1
        };
        if scroll + delta < last {
            scroll + delta
        } else {
            last
        }
    }
}

impl UiState {
    pub fn scroll_agents(&mut self, delta: i32, max: usize)
        requires
            delta != i32::MIN,
            delta >= 0 ==> old(self).agent_scroll + delta <= usize::MAX,
        ensures
            final(self).agent_scroll == scrolled(old(self).agent_scroll as int, delta as int, max as int),
            final(self).status_message == old(self).status_message,
    {
        if delta < 0 {
            let up: usize = (-delta) as usize;
            self.agent_scroll = self.agent_scroll.saturating_sub(up);
        } else {
            let target: usize = self.agent_scroll + (delta as usize);
            let last: usize = max.saturating_sub(1);
            self.agent_scroll = if target < last {
                target
            } else {
                last
            };
        }
    }
}

/// A key the dashboard reacts to.
#[derive(Debug, Clone, Copy, PartialEq, Eq, Structural)]
pub enum Key {
    Char(char),
    Esc,
    Up,
    Down,
    Other,
}

/// What a key press asks of the dashboard.
#[derive(Debug, Clone, Copy, PartialEq, Eq, Structural)]
pub enum KeyAction {
    Quit,
    TogglePause,
    Reset,
    SaveReport,
    /// Scroll the agent table by this many rows.
    Scroll(i32),
    Ignore,
}

/// The action for a key: Ctrl+C, `q` and Esc quit; `p` pauses or resumes;
/// `r` restarts the benchmark; `s` saves a report; the arrows scroll.
pub fn key_action(control: bool, key: Key) -> (r: KeyAction)
    ensures
        r == (if control && key == Key::Char('c') {
            KeyAction::Quit
        } else {
            match key {
                Key::Char('q') => KeyAction::Quit,
                Key::Esc => KeyAction::Quit,
                Key::Char('p') => KeyAction::TogglePause,
                Key::Char('r') => KeyAction::Reset,
                Key::Char('s') => KeyAction::SaveReport,
                Key::Up => KeyAction::Scroll(-1i32),
                Key::Down => KeyAction::Scroll(1i32),
                _ => KeyAction::Ignore,
            }
        }),
{
    if control && key == Key::Char('c') {
        return KeyAction::Quit;
    }
    match key {
        Key::Char(c) => if c == 'q' {
            KeyAction::Quit
        } else if c == 'p' {
            KeyAction::TogglePause
        } else if c == 'r' {
            KeyAction::Reset
        } else if c == 's' {
            KeyAction::SaveReport
        } else {
            KeyAction::Ignore
        },
        Key::Esc => KeyAction::Quit,
        Key::Up => KeyAction::Scroll(-1),
        Key::Down => KeyAction::Scroll(1),
        Key::Other => KeyAction::Ignore,
    }
}

/// What the runner is told when the pause key flips the paused flag.
#[derive(Debug, Clone, Copy, PartialEq, Eq, Structural)]
pub enum RunnerCommand {
    Pause,
    Resume,
}

/// Flip the paused flag and say what the runner must do.
pub fn toggle_pause(is_paused: bool) -> (r: (bool, RunnerCommand))
    ensures
        r.0 == !is_paused,
        r.1 == (if r.0 {
            RunnerCommand::Pause
        } else {
            RunnerCommand::Resume
        }),
{
    let now_paused = !is_paused;
    if now_paused {
        (now_paused, RunnerCommand::Pause)
    } else {
        (now_paused, RunnerCommand::Resume)
    }
}

} // verus!
