//! Input mapper: a pure, order-sensitive, priority-based decode of a 16-bit
//! flag word into exactly one semantic intent per simulation step.

use vstd::prelude::*;

use crate::tile::Dir;

verus! {

/// A raw bitmask of pressed (edge-triggered) and down (held) keys, as the
/// host's input layer reports them.
pub type InputFlags = u16;

pub const INPUT_UP_PRESSED: InputFlags = 0b0000_0000_0000_0001;

pub const INPUT_DOWN_PRESSED: InputFlags = 0b0000_0000_0000_0010;

pub const INPUT_LEFT_PRESSED: InputFlags = 0b0000_0000_0000_0100;

pub const INPUT_RIGHT_PRESSED: InputFlags = 0b0000_0000_0000_1000;

pub const INPUT_UP_DOWN: InputFlags = 0b0000_0000_0001_0000;

pub const INPUT_DOWN_DOWN: InputFlags = 0b0000_0000_0010_0000;

pub const INPUT_LEFT_DOWN: InputFlags = 0b0000_0000_0100_0000;

pub const INPUT_RIGHT_DOWN: InputFlags = 0b0000_0000_1000_0000;

pub const INPUT_INTERACT_PRESSED: InputFlags = 0b0000_0001_0000_0000;

/// The single decoded meaning of one raw flag word: no change, a move in one
/// of the 8 directions, or an interaction.
#[derive(Clone, Copy, Debug, PartialEq, Eq, Structural)]
pub enum Input {
    NoChange,
    Dir(Dir),
    Interact,
}

/// The intent a flag word decodes to. Priority order, highest first: the
/// interact bit; the four diagonal held-key combinations (each needs both
/// composing held bits at once); the four single held cardinal directions;
/// otherwise no change. Only the held bits drive movement; the pressed bits
/// are reserved for future use.
pub open spec fn spec_input_from_flags(flags: InputFlags) -> Input {
    if flags & INPUT_INTERACT_PRESSED != 0 {
        Input::Interact
    } else if flags & INPUT_UP_DOWN != 0 && flags & INPUT_RIGHT_DOWN != 0 {
        Input::Dir(Dir::UpRight)
    } else if flags & INPUT_DOWN_DOWN != 0 && flags & INPUT_RIGHT_DOWN != 0 {
        Input::Dir(Dir::DownRight)
    } else if flags & INPUT_DOWN_DOWN != 0 && flags & INPUT_LEFT_DOWN != 0 {
        Input::Dir(Dir::DownLeft)
    } else if flags & INPUT_UP_DOWN != 0 && flags & INPUT_LEFT_DOWN != 0 {
        Input::Dir(Dir::UpLeft)
    } else if flags & INPUT_UP_DOWN != 0 {
        Input::Dir(Dir::Up)
    } else if flags & INPUT_DOWN_DOWN != 0 {
        Input::Dir(Dir::Down)
    } else if flags & INPUT_LEFT_DOWN != 0 {
        Input::Dir(Dir::Left)
    } else if flags & INPUT_RIGHT_DOWN != 0 {
        Input::Dir(Dir::Right)
    } else {
        Input::NoChange
    }
}

impl Input {
    /// Decodes one raw flag word into exactly one intent, by the fixed
    /// priority order.
    pub fn from_flags(flags: InputFlags) -> (r: Input)
        ensures
            r == spec_input_from_flags(flags),
    {
        if flags & INPUT_INTERACT_PRESSED != 0 {
            Input::Interact
        } else if flags & INPUT_UP_DOWN != 0 && flags & INPUT_RIGHT_DOWN != 0 {
            Input::Dir(Dir::UpRight)
        } else if flags & INPUT_DOWN_DOWN != 0 && flags & INPUT_RIGHT_DOWN != 0 {
            Input::Dir(Dir::DownRight)
        } else if flags & INPUT_DOWN_DOWN != 0 && flags & INPUT_LEFT_DOWN != 0 {
            Input::Dir(Dir::DownLeft)
        } else if flags & INPUT_UP_DOWN != 0 && flags & INPUT_LEFT_DOWN != 0 {
            Input::Dir(Dir::UpLeft)
        } else if flags & INPUT_UP_DOWN != 0 {
            Input::Dir(Dir::Up)
        } else if flags & INPUT_DOWN_DOWN != 0 {
            Input::Dir(Dir::Down)
        } else if flags & INPUT_LEFT_DOWN != 0 {
            Input::Dir(Dir::Left)
        } else if flags & INPUT_RIGHT_DOWN != 0 {
            Input::Dir(Dir::Right)
        } else {
            Input::NoChange
        }
    }
}

} // verus!
