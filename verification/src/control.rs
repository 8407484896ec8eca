//! What a frame of the interactive program decides: how far a key moves a
//! body, what an event asks for, and what the frame reports.
//!
//! The program that owns the window reads the keyboard and the event queue
//! and hands over plain values; it carries out the command that comes back.

use vstd::prelude::*;
use crate::units::UNITS_PER_WORLD_UNIT;

verus! {

/// The distance by which a key moves a body when no modifier is held:
/// 20 world units.
pub const MOVE_STEP: i32 = 20 * UNITS_PER_WORLD_UNIT;

/// The index of the body that the arrow keys move.
pub const ARROWS_BODY: usize = 0;

/// The index of the body that the keys W, A, S and D move.
pub const LETTERS_BODY: usize = 1;

/// A key, as far as the program tells keys apart.
#[derive(Clone, Copy, Debug, PartialEq, Eq, Structural)]
pub enum Key {
    Up,
    Down,
    Left,
    Right,
    W,
    A,
    S,
    D,
    Escape,
    Other,
}

/// An event of the window, as far as the program tells events apart.
#[derive(Clone, Copy, Debug, PartialEq, Eq, Structural)]
pub enum Event {
    KeyPressed(Key),
    Closed,
    Other,
}

/// How much of the full step a key moves a body.
#[derive(Clone, Copy, Debug, PartialEq, Eq, Structural)]
pub enum Pace {
    Full,
    Quarter,
    Sixteenth,
}

/// What the program is to do about an event.
#[derive(Clone, Copy, Debug, PartialEq, Eq)]
pub enum Command {
    /// Move the body at index `body` by `offset`.
    Move { body: usize, offset: (i32, i32) },
    /// Leave the loop.
    Quit,
    /// Nothing.
    Nothing,
}

impl Pace {
    /// The pace that the modifier keys ask for: a quarter of the full step
    /// while a shift key is held, a sixteenth while Z is held as well.
    /// Z without shift changes nothing.
    pub open spec fn spec_from_modifiers(shift: bool, z: bool) -> Pace {
        if !shift {
            Pace::Full
        } else if z {
            Pace::Sixteenth
        } else {
            Pace::Quarter
        }
    }

    /// The number by which the pace divides the full step.
    pub open spec fn divisor(self) -> int {
        match self {
            Pace::Full => 1,
            Pace::Quarter => 4,
            Pace::Sixteenth => 16,
        }
    }

    /// The distance of one move at this pace.
    pub open spec fn spec_step(self) -> int {
        MOVE_STEP as int / self.divisor()
    }

    /// The pace that the modifier keys ask for. `shift` says whether either
    /// shift key is held, `z` whether Z is.
    pub fn from_modifiers(shift: bool, z: bool) -> (pace: Pace)
        ensures
            pace == Pace::spec_from_modifiers(shift, z),
    {
        if shift {
            if z {
                Pace::Sixteenth
            } else {
                Pace::Quarter
            }
        } else {
            Pace::Full
        }
    }

    /// The distance of one move at this pace. The division leaves no
    /// remainder.
    pub fn step(self) -> (step: i32)
        ensures
            step == self.spec_step(),
            step * self.divisor() == MOVE_STEP,
    {
        match self {
            Pace::Full => MOVE_STEP,
            Pace::Quarter => MOVE_STEP / 4,
            Pace::Sixteenth => MOVE_STEP / 16,
        }
    }
}

impl Key {
    /// The index of the body that the key moves, if it moves one.
    pub open spec fn body(self) -> Option<usize> {
        match self {
            Key::Up | Key::Down | Key::Left | Key::Right => Some(ARROWS_BODY),
            Key::W | Key::A | Key::S | Key::D => Some(LETTERS_BODY),
            Key::Escape | Key::Other => None,
        }
    }

    /// The offset of a move by `step` in the key's direction; the y axis
    /// points down. The zero offset for a key that moves nothing.
    pub open spec fn offset(self, step: int) -> (int, int) {
        match self {
            Key::Up | Key::W => (0, -step),
            Key::Down | Key::S => (0, step),
            Key::Left | Key::A => (-step, 0),
            Key::Right | Key::D => (step, 0),
            Key::Escape | Key::Other => (0, 0),
        }
    }
}

/// What an event asks for at a pace: a key that moves a body moves it one
/// step in the key's direction, Escape and the closing of the window end the
/// program, and everything else is ignored.
pub open spec fn spec_command_for(event: Event, pace: Pace) -> Command {
    match event {
        Event::Closed => Command::Quit,
        Event::Other => Command::Nothing,
        Event::KeyPressed(key) => if key == Key::Escape {
            Command::Quit
        } else {
            match key.body() {
                Some(body) => Command::Move {
                    body,
                    offset: (
                        key.offset(pace.spec_step()).0 as i32,
                        key.offset(pace.spec_step()).1 as i32,
                    ),
                },
                None => Command::Nothing,
            }
        },
    }
}

/// The command that `event` asks for at `pace`.
pub fn command_for(event: Event, pace: Pace) -> (command: Command)
    ensures
        command == spec_command_for(event, pace),
{
    let step: i32 = pace.step();
    match event {
        Event::KeyPressed(key) => match key {
            Key::Up => Command::Move { body: ARROWS_BODY, offset: (0, -step) },
            Key::Down => Command::Move { body: ARROWS_BODY, offset: (0, step) },
            Key::Left => Command::Move { body: ARROWS_BODY, offset: (-step, 0) },
            Key::Right => Command::Move { body: ARROWS_BODY, offset: (step, 0) },
            Key::W => Command::Move { body: LETTERS_BODY, offset: (0, -step) },
            Key::S => Command::Move { body: LETTERS_BODY, offset: (0, step) },
            Key::A => Command::Move { body: LETTERS_BODY, offset: (-step, 0) },
            Key::D => Command::Move { body: LETTERS_BODY, offset: (step, 0) },
            Key::Escape => Command::Quit,
            Key::Other => Command::Nothing,
        },
        Event::Closed => Command::Quit,
        Event::Other => Command::Nothing,
    }
}

/// The line that a frame reports: whether the subject overlaps another body.
pub fn status_line(hit: bool) -> (line: &'static str)
    ensures
        line@ == (if hit {
            "Simple Rectangle Collision!"@
        } else {
            "No Collision"@
        }),
{
    if hit {
        "Simple Rectangle Collision!"
    } else {
        "No Collision"
    }
}

} // verus!
