//! The tri-state control flag shared by the command handler and the scheduler.

use std::sync::atomic::{AtomicU8, Ordering};
use vstd::prelude::*;

verus! {

/// Whether the scheduler may move the cursor, idles, or has been told to stop.
#[derive(Clone, Copy, Debug, PartialEq, Eq, Structural)]
pub enum ControlState {
    Running,
    Paused,
    Quitting,
}

/// A command that reaches the control state from the user interface.
#[derive(Clone, Copy, Debug, PartialEq, Eq, Structural)]
pub enum Command {
    Toggle,
    Quit,
}

/// `toggle` flips running and paused, and leaves a quitting state alone.
pub open spec fn toggled(s: ControlState) -> ControlState {
    match s {
        ControlState::Running => ControlState::Paused,
        ControlState::Paused => ControlState::Running,
        ControlState::Quitting => ControlState::Quitting,
    }
}

/// The state after a command.
pub open spec fn after(s: ControlState, c: Command) -> ControlState {
    match c {
        Command::Toggle => toggled(s),
        Command::Quit => ControlState::Quitting,
    }
}

/// The byte that stands for a state in the shared cell.
pub open spec fn code_of(s: ControlState) -> u8 {
    match s {
        ControlState::Running => 0,
        ControlState::Paused => 1,
        ControlState::Quitting => 2,
    }
}

/// The state a byte of the shared cell stands for; an unknown byte reads as running.
pub open spec fn state_of_code(c: u8) -> ControlState {
    if c == 1 {
        ControlState::Paused
    } else if c == 2 {
        ControlState::Quitting
    } else {
        ControlState::Running
    }
}

impl ControlState {
    pub fn toggle(self) -> (r: ControlState)
        ensures
            r == toggled(self),
    {
        match self {
            ControlState::Running => ControlState::Paused,
            ControlState::Paused => ControlState::Running,
            ControlState::Quitting => ControlState::Quitting,
        }
    }

    pub fn quit(self) -> (r: ControlState)
        ensures
            r == ControlState::Quitting,
    {
        ControlState::Quitting
    }

    pub fn apply(self, cmd: Command) -> (r: ControlState)
        ensures
            r == after(self, cmd),
    {
        match cmd {
            Command::Toggle => self.toggle(),
            Command::Quit => self.quit(),
        }
    }

    pub fn code(self) -> (r: u8)
        ensures
            r == code_of(self),
    {
        match self {
            ControlState::Running => 0,
            ControlState::Paused => 1,
            ControlState::Quitting => 2,
        }
    }

    pub fn from_code(c: u8) -> (r: ControlState)
        ensures
            r == state_of_code(c),
    {
        if c == 1 {
            ControlState::Paused
        } else if c == 2 {
            ControlState::Quitting
        } else {
            ControlState::Running
        }
    }

    /// The label of the toggle command in the menu: "pause" while running,
    /// "resume" otherwise.
    pub fn toggle_label(self) -> (r: &'static str)
        ensures
            self == ControlState::Running ==> r@ == "pause"@,
            self != ControlState::Running ==> r@ == "resume"@,
    {
        match self {
            ControlState::Running => "pause",
            _ => "resume",
        }
    }
}

/// Decoding the byte that a state was stored as gives the state back.
pub proof fn lemma_code_round_trip(s: ControlState)
    ensures
        state_of_code(code_of(s)) == s,
{
}

/// Toggling twice from running comes back to running through paused; `quit`
/// reaches quitting from every state; and once quitting, no command changes
/// the state.
pub proof fn lemma_control_transitions(s: ControlState, c: Command)
    ensures
        after(ControlState::Running, Command::Toggle) == ControlState::Paused,
        after(ControlState::Paused, Command::Toggle) == ControlState::Running,
        after(after(ControlState::Running, Command::Toggle), Command::Toggle)
            == ControlState::Running,
        after(s, Command::Quit) == ControlState::Quitting,
        after(ControlState::Quitting, c) == ControlState::Quitting,
{
}

/// The process-wide control state, read by the scheduler and written by the
/// command handler without locks. Another thread may write it at any time, so
/// a read promises no particular state.
pub struct SharedControl {
    cell: AtomicU8,
}

impl SharedControl {
    /// A cell that starts out running.
    pub fn new() -> (r: SharedControl) {
        SharedControl { cell: AtomicU8::new(ControlState::Running.code()) }
    }

    pub fn get(&self) -> (r: ControlState) {
        ControlState::from_code(self.cell.load(Ordering::Relaxed))
    }

    /// Applies a command to the state read from the cell. The write happens
    /// only if the cell still holds that state, so a concurrent `quit` is
    /// never undone by a toggle.
    pub fn apply(&self, cmd: Command) {
        let cur = self.cell.load(Ordering::Relaxed);
        let next = ControlState::from_code(cur).apply(cmd);
        let _ = self.cell.compare_exchange(cur, next.code(), Ordering::Relaxed, Ordering::Relaxed);
    }

    pub fn toggle(&self) {
        self.apply(Command::Toggle)
    }

    pub fn quit(&self) {
        self.cell.store(ControlState::Quitting.code(), Ordering::Relaxed)
    }
}

} // verus!
