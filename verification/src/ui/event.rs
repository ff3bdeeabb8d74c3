//! Key events as the components read them, and the commands that the
//! components answer with.

use vstd::prelude::*;

verus! {

/// A media key of the keyboard.
#[derive(Clone, Copy, Debug, PartialEq, Eq, Structural)]
pub enum MediaKeyCode {
    Play,
    Pause,
    PlayPause,
    Reverse,
    Stop,
    FastForward,
    Rewind,
    TrackNext,
    TrackPrevious,
    Record,
    LowerVolume,
    RaiseVolume,
    MuteVolume,
}

/// A key of the keyboard.
#[derive(Clone, Copy, Debug, PartialEq, Eq, Structural)]
pub enum Key {
    Backspace,
    Enter,
    Left,
    Right,
    Up,
    Down,
    Home,
    End,
    PageUp,
    PageDown,
    Tab,
    BackTab,
    Delete,
    Insert,
    Function(u8),
    Char(char),
    Null,
    CapsLock,
    ScrollLock,
    NumLock,
    PrintScreen,
    Pause,
    Menu,
    KeypadBegin,
    Media(MediaKeyCode),
    Esc,
}

/// The modifier keys held with a key, one bit each: shift 1, control 2,
/// alt 4.
#[derive(Clone, Copy, Debug, PartialEq, Eq, Structural)]
pub struct KeyModifiers {
    pub bits: u8,
}

impl KeyModifiers {
    pub open spec fn spec_none() -> KeyModifiers {
        KeyModifiers { bits: 0 }
    }

    pub open spec fn spec_shift() -> KeyModifiers {
        KeyModifiers { bits: 1 }
    }

    pub open spec fn spec_control() -> KeyModifiers {
        KeyModifiers { bits: 2 }
    }

    pub open spec fn spec_alt() -> KeyModifiers {
        KeyModifiers { bits: 4 }
    }

    /// No modifier.
    #[verifier::when_used_as_spec(spec_none)]
    pub fn none() -> (modifiers: KeyModifiers)
        ensures
            modifiers == Self::spec_none(),
    {
        KeyModifiers { bits: 0 }
    }

    /// Shift alone.
    #[verifier::when_used_as_spec(spec_shift)]
    pub fn shift() -> (modifiers: KeyModifiers)
        ensures
            modifiers == Self::spec_shift(),
    {
        KeyModifiers { bits: 1 }
    }

    /// Control alone.
    #[verifier::when_used_as_spec(spec_control)]
    pub fn control() -> (modifiers: KeyModifiers)
        ensures
            modifiers == Self::spec_control(),
    {
        KeyModifiers { bits: 2 }
    }

    /// Alt alone.
    #[verifier::when_used_as_spec(spec_alt)]
    pub fn alt() -> (modifiers: KeyModifiers)
        ensures
            modifiers == Self::spec_alt(),
    {
        KeyModifiers { bits: 4 }
    }
}

/// A key pressed, with the modifiers held.
#[derive(Clone, Copy, Debug, PartialEq, Eq, Structural)]
pub struct KeyEvent {
    pub code: Key,
    pub modifiers: KeyModifiers,
}

/// What reaches a component: a key, or anything else (a resize, a tick, a
/// paste), which no component of this library reads.
#[derive(Clone, Copy, Debug, PartialEq, Eq, Structural)]
pub enum Event {
    Keyboard(KeyEvent),
    Other,
}

/// A direction of the cursor.
#[derive(Clone, Copy, Debug, PartialEq, Eq, Structural)]
pub enum Direction {
    Down,
    Left,
    Right,
    Up,
}

/// A place of the cursor.
#[derive(Clone, Copy, Debug, PartialEq, Eq, Structural)]
pub enum Position {
    Begin,
    End,
    At(usize),
}

/// A command that a component performs on its widget.
#[derive(Clone, Copy, Debug, PartialEq, Eq, Structural)]
pub enum Cmd {
    Type(char),
    Move(Direction),
    GoTo(Position),
    Submit,
    Delete,
    Cancel,
}

} // verus!
