use termusic::config::Keys;
use termusic::ui::event::{Cmd, Direction, Event, Key, KeyEvent, KeyModifiers, MediaKeyCode, Position};
use termusic::ui::ke_input::{Color, KEConfigInput, KeyUpdate, Reaction};
use termusic::ui::msg::{ConfigEditorMsg, IdConfigEditor, Msg};
use termusic::ui::te_radio_tag::{RadioReaction, TERadioTag};

fn key(code: Key) -> Event {
    Event::Keyboard(KeyEvent { code, modifiers: KeyModifiers::none() })
}

fn key_with(code: Key, modifiers: KeyModifiers) -> Event {
    Event::Keyboard(KeyEvent { code, modifiers })
}

fn field() -> KEConfigInput {
    KEConfigInput::new(
        IdConfigEditor::GlobalQuitInput,
        KeyEvent { code: Key::Esc, modifiers: KeyModifiers::none() },
    )
}

#[test]
fn modifiers_are_single_bits() {
    assert_eq!(KeyModifiers::none().bits, 0);
    assert_eq!(KeyModifiers::shift().bits, 1);
    assert_eq!(KeyModifiers::control().bits, 2);
    assert_eq!(KeyModifiers::alt().bits, 4);
}

#[test]
fn input_moves_the_cursor() {
    let f = field();
    assert_eq!(f.on(key(Key::Left)), Reaction::Perform(Cmd::Move(Direction::Left)));
    assert_eq!(f.on(key(Key::Right)), Reaction::Perform(Cmd::Move(Direction::Right)));
    assert_eq!(f.on(key(Key::Home)), Reaction::Perform(Cmd::GoTo(Position::Begin)));
    assert_eq!(f.on(key(Key::End)), Reaction::Perform(Cmd::GoTo(Position::End)));
    assert_eq!(
        f.on(key_with(Key::Left, KeyModifiers::control())),
        Reaction::Perform(Cmd::Move(Direction::Left))
    );
}

#[test]
fn input_edits_the_text() {
    let f = field();
    assert_eq!(f.on(key(Key::Delete)), Reaction::Edit(Cmd::Cancel));
    assert_eq!(f.on(key(Key::Backspace)), Reaction::Edit(Cmd::Delete));
    assert_eq!(f.on(key(Key::Char('q'))), Reaction::Edit(Cmd::Type('q')));
    assert_eq!(f.on(key_with(Key::Char('Q'), KeyModifiers::shift())), Reaction::Edit(Cmd::Type('Q')));
    assert_eq!(f.on(key(Key::Enter)), Reaction::Edit(Cmd::Submit));
}

#[test]
fn input_is_left_with_tab_and_backtab() {
    let f = field();
    assert_eq!(f.on(key(Key::Tab)), Reaction::BlurDown);
    assert_eq!(f.on(key_with(Key::BackTab, KeyModifiers::shift())), Reaction::BlurUp);
    assert_eq!(f.on(key(Key::BackTab)), Reaction::Ignore);
    assert_eq!(f.on(key_with(Key::BackTab, KeyModifiers { bits: 3 })), Reaction::Ignore);
}

#[test]
fn input_closes_on_the_configured_key() {
    let f = field();
    assert_eq!(f.on(key(Key::Esc)), Reaction::CloseCancel);
    assert_eq!(f.on(key_with(Key::Esc, KeyModifiers::shift())), Reaction::Ignore);
    let other = KEConfigInput::new(
        IdConfigEditor::GlobalQuitInput,
        KeyEvent { code: Key::Function(10), modifiers: KeyModifiers::control() },
    );
    assert_eq!(other.on(key_with(Key::Function(10), KeyModifiers::control())), Reaction::CloseCancel);
    assert_eq!(other.on(key_with(Key::Function(9), KeyModifiers::control())), Reaction::Ignore);
    assert_eq!(other.on(key(Key::Esc)), Reaction::Ignore);
}

#[test]
fn input_closing_key_yields_to_editing_keys_and_beats_enter() {
    let on_left = KEConfigInput::new(
        IdConfigEditor::GlobalLeftInput,
        KeyEvent { code: Key::Left, modifiers: KeyModifiers::none() },
    );
    assert_eq!(on_left.on(key(Key::Left)), Reaction::Perform(Cmd::Move(Direction::Left)));
    let on_tab = KEConfigInput::new(
        IdConfigEditor::GlobalLeftInput,
        KeyEvent { code: Key::Tab, modifiers: KeyModifiers::none() },
    );
    assert_eq!(on_tab.on(key(Key::Tab)), Reaction::BlurDown);
    let on_enter = KEConfigInput::new(
        IdConfigEditor::GlobalLeftInput,
        KeyEvent { code: Key::Enter, modifiers: KeyModifiers::none() },
    );
    assert_eq!(on_enter.on(key(Key::Enter)), Reaction::CloseCancel);
    assert_eq!(on_enter.on(key_with(Key::Enter, KeyModifiers::alt())), Reaction::Edit(Cmd::Submit));
    let on_backtab = KEConfigInput::new(
        IdConfigEditor::GlobalLeftInput,
        KeyEvent { code: Key::BackTab, modifiers: KeyModifiers::shift() },
    );
    assert_eq!(on_backtab.on(key_with(Key::BackTab, KeyModifiers::shift())), Reaction::BlurUp);
}

#[test]
fn input_ignores_everything_else() {
    let f = field();
    assert_eq!(f.on(Event::Other), Reaction::Ignore);
    for code in [Key::Up, Key::Down, Key::PageUp, Key::Insert, Key::Function(1), Key::Null, Key::Media(MediaKeyCode::Play)] {
        assert_eq!(f.on(key(code)), Reaction::Ignore);
    }
}

#[test]
fn update_key_colours_and_announces() {
    let f = field();
    assert_eq!(f.update_key(Some(""), false), KeyUpdate { color: Some(Color::Blue), msg: Msg::Nothing });
    assert_eq!(f.update_key(Some(""), true), KeyUpdate { color: Some(Color::Blue), msg: Msg::Nothing });
    assert_eq!(
        f.update_key(Some("q"), true),
        KeyUpdate {
            color: Some(Color::Green),
            msg: Msg::ConfigEditor(ConfigEditorMsg::KeyChanged(IdConfigEditor::GlobalQuitInput)),
        }
    );
    assert_eq!(f.update_key(Some("qq"), false), KeyUpdate { color: Some(Color::Red), msg: Msg::Nothing });
    assert_eq!(f.update_key(None, true), KeyUpdate { color: None, msg: Msg::Nothing });
    assert_eq!(f.update_key(None, false), KeyUpdate { color: None, msg: Msg::Nothing });
}

#[test]
fn blur_messages_of_some_fields() {
    assert_eq!(IdConfigEditor::GlobalQuitInput.blur_down(), ConfigEditorMsg::GlobalQuitInputBlurDown);
    assert_eq!(IdConfigEditor::GlobalQuitInput.blur_up(), ConfigEditorMsg::GlobalQuitInputBlurUp);
    assert_eq!(IdConfigEditor::GlobalLyricCycleInput.blur_down(), ConfigEditorMsg::GlobalLyricCyleInputBlurDown);
    assert_eq!(IdConfigEditor::GlobalLyricCycleInput.blur_up(), ConfigEditorMsg::GlobalLyricCyleInputBlurUp);
    assert_eq!(IdConfigEditor::DatabaseAddAllInput.blur_down(), ConfigEditorMsg::DatabaseAddAllInputBlurDown);
    assert_eq!(IdConfigEditor::PlaylistSwapUpInput.blur_up(), ConfigEditorMsg::PlaylistSwapUpInputBlurUp);
}

#[test]
fn radio_replies() {
    assert_eq!(TERadioTag::on(key(Key::Tab)), RadioReaction::Reply(Msg::TERadioTagBlur));
    assert_eq!(TERadioTag::on(key(Key::Esc)), RadioReaction::Reply(Msg::TagEditorBlur(None)));
    assert_eq!(
        TERadioTag::on(key_with(Key::Char('h'), KeyModifiers::control())),
        RadioReaction::Reply(Msg::TEHelpPopupShow)
    );
}

#[test]
fn radio_moves_and_submits() {
    let left = RadioReaction::Perform(Cmd::Move(Direction::Left));
    let right = RadioReaction::Perform(Cmd::Move(Direction::Right));
    assert_eq!(TERadioTag::on(key(Key::Left)), left);
    assert_eq!(TERadioTag::on(key(Key::Char('h'))), left);
    assert_eq!(TERadioTag::on(key(Key::Char('j'))), left);
    assert_eq!(TERadioTag::on(key_with(Key::Char('h'), KeyModifiers::shift())), left);
    assert_eq!(TERadioTag::on(key_with(Key::Char('h'), KeyModifiers { bits: 6 })), left);
    assert_eq!(TERadioTag::on(key(Key::Right)), right);
    assert_eq!(TERadioTag::on(key(Key::Char('l'))), right);
    assert_eq!(TERadioTag::on(key(Key::Char('k'))), right);
    assert_eq!(TERadioTag::on(key(Key::Enter)), RadioReaction::Perform(Cmd::Submit));
}

#[test]
fn radio_passes_on_everything_else() {
    assert_eq!(TERadioTag::on(Event::Other), RadioReaction::Pass);
    assert_eq!(TERadioTag::on(key(Key::Char('x'))), RadioReaction::Pass);
    assert_eq!(TERadioTag::on(key(Key::Up)), RadioReaction::Pass);
    assert_eq!(TERadioTag::on(key(Key::BackTab)), RadioReaction::Pass);
}

#[test]
fn radio_answers_a_submitted_first_choice() {
    assert_eq!(TERadioTag::performed(Some(0)), Msg::TERadioTagOk);
    assert_eq!(TERadioTag::performed(Some(1)), Msg::Nothing);
    assert_eq!(TERadioTag::performed(None), Msg::Nothing);
}

fn keys() -> Keys<&'static str> {
    Keys {
        global_esc: "esc",
        global_quit: "quit",
        global_left: "left",
        global_right: "right",
        global_up: "up",
        global_down: "down",
        global_goto_top: "goto_top",
        global_goto_bottom: "goto_bottom",
        global_player_toggle_pause: "toggle_pause",
        global_player_next: "next",
        global_player_previous: "previous",
        global_help: "help",
        global_player_volume_plus_2: "volume_plus_2",
        global_player_volume_minus_2: "volume_minus_2",
        global_player_seek_forward: "seek_forward",
        global_player_seek_backward: "seek_backward",
        global_player_speed_up: "speed_up",
        global_player_speed_down: "speed_down",
        global_lyric_adjust_forward: "lyric_adjust_forward",
        global_lyric_adjust_backward: "lyric_adjust_backward",
        global_lyric_cycle: "lyric_cycle",
        library_delete: "library_delete",
        library_load_dir: "library_load_dir",
        library_yank: "library_yank",
        library_paste: "library_paste",
        library_search: "library_search",
        library_search_youtube: "library_search_youtube",
        library_tag_editor_open: "library_tag_editor_open",
        playlist_play_selected: "playlist_play_selected",
        playlist_delete_all: "playlist_delete_all",
        playlist_delete: "playlist_delete",
        playlist_shuffle: "playlist_shuffle",
        playlist_mode_cycle: "playlist_mode_cycle",
        playlist_add_front: "playlist_add_front",
        playlist_search: "playlist_search",
        playlist_swap_down: "playlist_swap_down",
        playlist_swap_up: "playlist_swap_up",
        global_layout_treeview: "layout_treeview",
        global_layout_database: "layout_database",
        database_add_all: "database_add_all",
        global_player_toggle_gapless: "toggle_gapless",
    }
}

#[test]
fn init_key_finds_the_binding_of_a_field() {
    let keys = keys();
    assert_eq!(*keys.init_key(&IdConfigEditor::GlobalQuitInput), "quit");
    assert_eq!(*keys.init_key(&IdConfigEditor::GlobalVolumeUpInput), "volume_plus_2");
    assert_eq!(*keys.init_key(&IdConfigEditor::GlobalVolumeDownInput), "volume_minus_2");
    assert_eq!(*keys.init_key(&IdConfigEditor::LibraryTagEditorInput), "library_tag_editor_open");
    assert_eq!(*keys.init_key(&IdConfigEditor::PlaylistDeleteInput), "playlist_delete");
    assert_eq!(*keys.init_key(&IdConfigEditor::PlaylistDeleteAllInput), "playlist_delete_all");
    assert_eq!(*keys.init_key(&IdConfigEditor::GlobalPlayerToggleGaplessInput), "toggle_gapless");
    assert_eq!(*keys.init_key(&IdConfigEditor::DatabaseAddAllInput), "database_add_all");
}
