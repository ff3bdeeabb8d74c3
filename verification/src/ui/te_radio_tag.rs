//! The choice of the tag editor under which a file is renamed by its tag.

use crate::ui::event::{Cmd, Direction, Event, Key, KeyEvent, KeyModifiers};
use crate::ui::msg::Msg;
use vstd::prelude::*;

verus! {

/// What the choice does with an event.
#[derive(Clone, Debug, PartialEq, Eq)]
pub enum RadioReaction {
    /// Send the message.
    Reply(Msg),
    /// Perform the command and send what `TERadioTag::performed` says of its
    /// result.
    Perform(Cmd),
    /// Send nothing.
    Pass,
}

/// The choice of the tag editor.
#[derive(Clone, Copy, Debug, PartialEq, Eq, Structural)]
pub struct TERadioTag {}

impl TERadioTag {
    /// What the choice does with `ev`: tab leaves it, escape leaves the
    /// editor, control and `h` asks for help, the arrows and `h`, `j`, `k`,
    /// `l` move, enter submits.
    pub open spec fn reaction(ev: Event) -> RadioReaction {
        match ev {
            Event::Keyboard(key) => match key.code {
                Key::Tab => RadioReaction::Reply(Msg::TERadioTagBlur),
                Key::Esc => RadioReaction::Reply(Msg::TagEditorBlur(None)),
                Key::Left => RadioReaction::Perform(Cmd::Move(Direction::Left)),
                Key::Right => RadioReaction::Perform(Cmd::Move(Direction::Right)),
                Key::Enter => RadioReaction::Perform(Cmd::Submit),
                Key::Char(ch) => if ch == 'h' && key.modifiers == KeyModifiers::control() {
                    RadioReaction::Reply(Msg::TEHelpPopupShow)
                } else if ch == 'h' || ch == 'j' {
                    RadioReaction::Perform(Cmd::Move(Direction::Left))
                } else if ch == 'l' || ch == 'k' {
                    RadioReaction::Perform(Cmd::Move(Direction::Right))
                } else {
                    RadioReaction::Pass
                },
                _ => RadioReaction::Pass,
            },
            Event::Other => RadioReaction::Pass,
        }
    }

    /// The message after a command: `submitted` is the choice that the
    /// command submitted, if it submitted one.
    pub open spec fn answer(submitted: Option<usize>) -> Msg {
        if submitted == Some(0usize) {
            Msg::TERadioTagOk
        } else {
            Msg::Nothing
        }
    }

    /// Decides what the choice does with an event.
    pub fn on(ev: Event) -> (reaction: RadioReaction)
        ensures
            reaction == Self::reaction(ev),
    {
        match ev {
            Event::Keyboard(key) => match key.code {
                Key::Tab => RadioReaction::Reply(Msg::TERadioTagBlur),
                Key::Esc => RadioReaction::Reply(Msg::TagEditorBlur(None)),
                Key::Left => RadioReaction::Perform(Cmd::Move(Direction::Left)),
                Key::Right => RadioReaction::Perform(Cmd::Move(Direction::Right)),
                Key::Enter => RadioReaction::Perform(Cmd::Submit),
                Key::Char(ch) => if ch == 'h' && key.modifiers == KeyModifiers::control() {
                    RadioReaction::Reply(Msg::TEHelpPopupShow)
                } else if ch == 'h' || ch == 'j' {
                    RadioReaction::Perform(Cmd::Move(Direction::Left))
                } else if ch == 'l' || ch == 'k' {
                    RadioReaction::Perform(Cmd::Move(Direction::Right))
                } else {
                    RadioReaction::Pass
                },
                _ => RadioReaction::Pass,
            },
            Event::Other => RadioReaction::Pass,
        }
    }

    /// Decides the message after a command.
    pub fn performed(submitted: Option<usize>) -> (msg: Msg)
        ensures
            msg == Self::answer(submitted),
    {
        match submitted {
            Some(choice) => if choice == 0 {
                Msg::TERadioTagOk
            } else {
                Msg::Nothing
            },
            None => Msg::Nothing,
        }
    }
}

} // verus!
