//! Input events and the key bindings.

use vstd::prelude::*;

verus! {

/// The time between two ticks, in milliseconds, where none is configured.
pub const DEFAULT_TICK_MILLIS: u64 = 200;

/// A key press, as far as the dashboard tells keys apart.
#[derive(Clone, Copy, Debug, PartialEq, Eq, Structural)]
pub enum Key {
    /// A key that stands for a character.
    Char(char),
    /// The left arrow.
    Left,
    /// The right arrow.
    Right,
    /// Any other key.
    Other,
}

/// One thing that the input stream delivers.
#[derive(Clone, Copy, Debug, PartialEq, Eq, Structural)]
pub enum Event {
    /// A key was pressed.
    Input(Key),
    /// The tick interval went by without a key press.
    Tick,
}

/// What an event asks of the dashboard.
#[derive(Clone, Copy, Debug, PartialEq, Eq, Structural)]
pub enum Command {
    /// End the session.
    Quit,
    /// Select the next board tab.
    NextBoard,
    /// Select the previous board tab.
    PreviousBoard,
    /// Change nothing and paint again.
    Redraw,
}

/// The key bindings: `q` quits, the right arrow selects the next tab, the
/// left arrow the previous one. A tick and every other key only repaint.
pub open spec fn spec_command(event: Event) -> Command {
    match event {
        Event::Input(Key::Char('q')) => Command::Quit,
        Event::Input(Key::Right) => Command::NextBoard,
        Event::Input(Key::Left) => Command::PreviousBoard,
        _ => Command::Redraw,
    }
}

/// What the given event asks for.
pub fn command_for(event: Event) -> (command: Command)
    ensures
        command == spec_command(event),
{
    match event {
        Event::Input(Key::Char(c)) => if c == 'q' {
            Command::Quit
        } else {
            Command::Redraw
        },
        Event::Input(Key::Right) => Command::NextBoard,
        Event::Input(Key::Left) => Command::PreviousBoard,
        _ => Command::Redraw,
    }
}

} // verus!
