//! The field of the configuration editor in which a key binding is typed.

use crate::ui::event::{Cmd, Direction, Event, Key, KeyEvent, KeyModifiers, Position};
use crate::ui::msg::{ConfigEditorMsg, IdConfigEditor, Msg};
use vstd::prelude::*;

verus! {

/// The colour in which a field shows what was typed into it.
#[derive(Clone, Copy, Debug, PartialEq, Eq, Structural)]
pub enum Color {
    Blue,
    Green,
    Red,
}

/// What a field does with an event.
#[derive(Clone, Copy, Debug, PartialEq, Eq, Structural)]
pub enum Reaction {
    /// Perform the command and send `Msg::Nothing`.
    Perform(Cmd),
    /// Perform the command and send what `update_key` says of its result.
    Edit(Cmd),
    /// Send the message for leaving the field downwards.
    BlurDown,
    /// Send the message for leaving the field upwards.
    BlurUp,
    /// Send the message that closes the editor.
    CloseCancel,
    /// Send `Msg::Nothing`.
    Ignore,
}

/// What a changed field shows and sends.
#[derive(Clone, Debug, PartialEq, Eq)]
pub struct KeyUpdate {
    /// The colour to show the field in, where it changes.
    pub color: Option<Color>,
    pub msg: Msg,
}

/// A key-binding field: which binding it edits, and the key that closes the
/// editor.
#[derive(Clone, Copy, Debug, PartialEq, Eq, Structural)]
pub struct KEConfigInput {
    pub id: IdConfigEditor,
    pub esc: KeyEvent,
}

impl KEConfigInput {
    /// What the field does with `ev`. Keys that move the cursor or edit the
    /// text come first, then the two ways out of the field, then the key
    /// that closes the editor, then the key that submits.
    pub open spec fn reaction(self, ev: Event) -> Reaction {
        match ev {
            Event::Keyboard(key) => match key.code {
                Key::Left => Reaction::Perform(Cmd::Move(Direction::Left)),
                Key::Right => Reaction::Perform(Cmd::Move(Direction::Right)),
                Key::Home => Reaction::Perform(Cmd::GoTo(Position::Begin)),
                Key::End => Reaction::Perform(Cmd::GoTo(Position::End)),
                Key::Delete => Reaction::Edit(Cmd::Cancel),
                Key::Backspace => Reaction::Edit(Cmd::Delete),
                Key::Char(ch) => Reaction::Edit(Cmd::Type(ch)),
                Key::Tab => Reaction::BlurDown,
                _ => if key.code == Key::BackTab && key.modifiers == KeyModifiers::shift() {
                    Reaction::BlurUp
                } else if key == self.esc {
                    Reaction::CloseCancel
                } else if key.code == Key::Enter {
                    Reaction::Edit(Cmd::Submit)
                } else {
                    Reaction::Ignore
                },
            },
            Event::Other => Reaction::Ignore,
        }
    }

    /// What a field shows and sends after a command: `changed` is the text
    /// that the command changed the field to, if it changed it, and
    /// `is_key` whether that text names a key.
    pub open spec fn update(self, changed: Option<Seq<char>>, is_key: bool) -> (Option<Color>, Msg) {
        match changed {
            Some(codes) => if codes.len() == 0 {
                (Some(Color::Blue), Msg::Nothing)
            } else if is_key {
                (
                    Some(Color::Green),
                    Msg::ConfigEditor(ConfigEditorMsg::KeyChanged(self.id)),
                )
            } else {
                (Some(Color::Red), Msg::Nothing)
            },
            None => (None, Msg::Nothing),
        }
    }

    /// A field for the binding `id`, in an editor that `esc` closes.
    pub fn new(id: IdConfigEditor, esc: KeyEvent) -> (field: KEConfigInput)
        ensures
            field == (KEConfigInput { id, esc }),
    {
        KEConfigInput { id, esc }
    }

    /// Decides what the field does with an event.
    pub fn on(&self, ev: Event) -> (reaction: Reaction)
        ensures
            reaction == self.reaction(ev),
    {
        match ev {
            Event::Keyboard(key) => match key.code {
                Key::Left => Reaction::Perform(Cmd::Move(Direction::Left)),
                Key::Right => Reaction::Perform(Cmd::Move(Direction::Right)),
                Key::Home => Reaction::Perform(Cmd::GoTo(Position::Begin)),
                Key::End => Reaction::Perform(Cmd::GoTo(Position::End)),
                Key::Delete => Reaction::Edit(Cmd::Cancel),
                Key::Backspace => Reaction::Edit(Cmd::Delete),
                Key::Char(ch) => Reaction::Edit(Cmd::Type(ch)),
                Key::Tab => Reaction::BlurDown,
                Key::BackTab => if key.modifiers == KeyModifiers::shift() {
                    Reaction::BlurUp
                } else if key == self.esc {
                    Reaction::CloseCancel
                } else {
                    Reaction::Ignore
                },
                Key::Enter => if key == self.esc {
                    Reaction::CloseCancel
                } else {
                    Reaction::Edit(Cmd::Submit)
                },
                _ => if key == self.esc {
                    Reaction::CloseCancel
                } else {
                    Reaction::Ignore
                },
            },
            Event::Other => Reaction::Ignore,
        }
    }

    /// Decides what the field shows and sends after a command.
    pub fn update_key(&self, changed: Option<&str>, is_key: bool) -> (update: KeyUpdate)
        ensures
            (update.color, update.msg) == self.update(changed.deep_view(), is_key),
    {
        match changed {
            Some(codes) => if codes.is_empty() {
                KeyUpdate { color: Some(Color::Blue), msg: Msg::Nothing }
            } else if is_key {
                KeyUpdate {
                    color: Some(Color::Green),
                    msg: Msg::ConfigEditor(ConfigEditorMsg::KeyChanged(self.id)),
                }
            } else {
                KeyUpdate { color: Some(Color::Red), msg: Msg::Nothing }
            },
            None => KeyUpdate { color: None, msg: Msg::Nothing },
        }
    }
}

/// The keys of the cursor and of the text never leave the field nor close
/// the editor, whatever key closes it.
pub proof fn lemma_editing_keys_stay_in_field(field: KEConfigInput, key: KeyEvent)
    requires
        key.code == Key::Left || key.code == Key::Right || key.code == Key::Home || key.code
            == Key::End || key.code == Key::Delete || key.code == Key::Backspace
            || key.code is Char,
    ensures
        field.reaction(Event::Keyboard(key)) is Perform || field.reaction(Event::Keyboard(key))
            is Edit,
{
}

/// A field announces a change only for a text that names a key, and then
/// under its own name.
pub proof fn lemma_change_is_announced_for_keys_only(
    field: KEConfigInput,
    changed: Option<Seq<char>>,
    is_key: bool,
)
    ensures
        field.update(changed, is_key).1 != Msg::Nothing <==> changed is Some && changed.unwrap().len()
            > 0 && is_key,
        field.update(changed, is_key).1 != Msg::Nothing ==> field.update(changed, is_key).1
            == Msg::ConfigEditor(ConfigEditorMsg::KeyChanged(field.id)),
{
}

} // verus!
