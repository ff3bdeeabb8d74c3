//! The key bindings that the configuration editor shows and changes.

use crate::ui::msg::IdConfigEditor;
use vstd::prelude::*;

verus! {

/// The key bindings of the player, one for each action, each of the type
/// `B` in which the application keeps a binding.
#[derive(Clone, Debug, PartialEq, Eq)]
pub struct Keys<B> {
    /// The key that closes a dialogue.
    pub global_esc: B,
    pub global_quit: B,
    pub global_left: B,
    pub global_right: B,
    pub global_up: B,
    pub global_down: B,
    pub global_goto_top: B,
    pub global_goto_bottom: B,
    pub global_player_toggle_pause: B,
    pub global_player_next: B,
    pub global_player_previous: B,
    pub global_help: B,
    pub global_player_volume_plus_2: B,
    pub global_player_volume_minus_2: B,
    pub global_player_seek_forward: B,
    pub global_player_seek_backward: B,
    pub global_player_speed_up: B,
    pub global_player_speed_down: B,
    pub global_lyric_adjust_forward: B,
    pub global_lyric_adjust_backward: B,
    pub global_lyric_cycle: B,
    pub library_delete: B,
    pub library_load_dir: B,
    pub library_yank: B,
    pub library_paste: B,
    pub library_search: B,
    pub library_search_youtube: B,
    pub library_tag_editor_open: B,
    pub playlist_play_selected: B,
    pub playlist_delete_all: B,
    pub playlist_delete: B,
    pub playlist_shuffle: B,
    pub playlist_mode_cycle: B,
    pub playlist_add_front: B,
    pub playlist_search: B,
    pub playlist_swap_down: B,
    pub playlist_swap_up: B,
    pub global_layout_treeview: B,
    pub global_layout_database: B,
    pub database_add_all: B,
    pub global_player_toggle_gapless: B,
}

impl<B> Keys<B> {
    /// The binding that the field `id` of the editor shows.
    pub open spec fn binding(self, id: IdConfigEditor) -> B {
        match id {
            IdConfigEditor::GlobalQuitInput => self.global_quit,
            IdConfigEditor::GlobalLeftInput => self.global_left,
            IdConfigEditor::GlobalRightInput => self.global_right,
            IdConfigEditor::GlobalUpInput => self.global_up,
            IdConfigEditor::GlobalDownInput => self.global_down,
            IdConfigEditor::GlobalGotoTopInput => self.global_goto_top,
            IdConfigEditor::GlobalGotoBottomInput => self.global_goto_bottom,
            IdConfigEditor::GlobalPlayerTogglePauseInput => self.global_player_toggle_pause,
            IdConfigEditor::GlobalPlayerNextInput => self.global_player_next,
            IdConfigEditor::GlobalPlayerPreviousInput => self.global_player_previous,
            IdConfigEditor::GlobalHelpInput => self.global_help,
            IdConfigEditor::GlobalVolumeUpInput => self.global_player_volume_plus_2,
            IdConfigEditor::GlobalVolumeDownInput => self.global_player_volume_minus_2,
            IdConfigEditor::GlobalPlayerSeekForwardInput => self.global_player_seek_forward,
            IdConfigEditor::GlobalPlayerSeekBackwardInput => self.global_player_seek_backward,
            IdConfigEditor::GlobalPlayerSpeedUpInput => self.global_player_speed_up,
            IdConfigEditor::GlobalPlayerSpeedDownInput => self.global_player_speed_down,
            IdConfigEditor::GlobalLyricAdjustForwardInput => self.global_lyric_adjust_forward,
            IdConfigEditor::GlobalLyricAdjustBackwardInput => self.global_lyric_adjust_backward,
            IdConfigEditor::GlobalLyricCycleInput => self.global_lyric_cycle,
            IdConfigEditor::LibraryDeleteInput => self.library_delete,
            IdConfigEditor::LibraryLoadDirInput => self.library_load_dir,
            IdConfigEditor::LibraryYankInput => self.library_yank,
            IdConfigEditor::LibraryPasteInput => self.library_paste,
            IdConfigEditor::LibrarySearchInput => self.library_search,
            IdConfigEditor::LibrarySearchYoutubeInput => self.library_search_youtube,
            IdConfigEditor::LibraryTagEditorInput => self.library_tag_editor_open,
            IdConfigEditor::PlaylistPlaySelectedInput => self.playlist_play_selected,
            IdConfigEditor::PlaylistDeleteAllInput => self.playlist_delete_all,
            IdConfigEditor::PlaylistDeleteInput => self.playlist_delete,
            IdConfigEditor::PlaylistShuffleInput => self.playlist_shuffle,
            IdConfigEditor::PlaylistModeCycleInput => self.playlist_mode_cycle,
            IdConfigEditor::PlaylistAddFrontInput => self.playlist_add_front,
            IdConfigEditor::PlaylistSearchInput => self.playlist_search,
            IdConfigEditor::PlaylistSwapDownInput => self.playlist_swap_down,
            IdConfigEditor::PlaylistSwapUpInput => self.playlist_swap_up,
            IdConfigEditor::GlobalLayoutTreeviewInput => self.global_layout_treeview,
            IdConfigEditor::GlobalLayoutDatabaseInput => self.global_layout_database,
            IdConfigEditor::DatabaseAddAllInput => self.database_add_all,
            IdConfigEditor::GlobalPlayerToggleGaplessInput => self.global_player_toggle_gapless,
        }
    }

    /// Looks up the binding that the field `id` of the editor shows.
    pub fn init_key(&self, id: &IdConfigEditor) -> (binding: &B)
        ensures
            *binding == self.binding(*id),
    {
        match id {
            IdConfigEditor::GlobalQuitInput => &self.global_quit,
            IdConfigEditor::GlobalLeftInput => &self.global_left,
            IdConfigEditor::GlobalRightInput => &self.global_right,
            IdConfigEditor::GlobalUpInput => &self.global_up,
            IdConfigEditor::GlobalDownInput => &self.global_down,
            IdConfigEditor::GlobalGotoTopInput => &self.global_goto_top,
            IdConfigEditor::GlobalGotoBottomInput => &self.global_goto_bottom,
            IdConfigEditor::GlobalPlayerTogglePauseInput => &self.global_player_toggle_pause,
            IdConfigEditor::GlobalPlayerNextInput => &self.global_player_next,
            IdConfigEditor::GlobalPlayerPreviousInput => &self.global_player_previous,
            IdConfigEditor::GlobalHelpInput => &self.global_help,
            IdConfigEditor::GlobalVolumeUpInput => &self.global_player_volume_plus_2,
            IdConfigEditor::GlobalVolumeDownInput => &self.global_player_volume_minus_2,
            IdConfigEditor::GlobalPlayerSeekForwardInput => &self.global_player_seek_forward,
            IdConfigEditor::GlobalPlayerSeekBackwardInput => &self.global_player_seek_backward,
            IdConfigEditor::GlobalPlayerSpeedUpInput => &self.global_player_speed_up,
            IdConfigEditor::GlobalPlayerSpeedDownInput => &self.global_player_speed_down,
            IdConfigEditor::GlobalLyricAdjustForwardInput => &self.global_lyric_adjust_forward,
            IdConfigEditor::GlobalLyricAdjustBackwardInput => &self.global_lyric_adjust_backward,
            IdConfigEditor::GlobalLyricCycleInput => &self.global_lyric_cycle,
            IdConfigEditor::LibraryDeleteInput => &self.library_delete,
            IdConfigEditor::LibraryLoadDirInput => &self.library_load_dir,
            IdConfigEditor::LibraryYankInput => &self.library_yank,
            IdConfigEditor::LibraryPasteInput => &self.library_paste,
            IdConfigEditor::LibrarySearchInput => &self.library_search,
            IdConfigEditor::LibrarySearchYoutubeInput => &self.library_search_youtube,
            IdConfigEditor::LibraryTagEditorInput => &self.library_tag_editor_open,
            IdConfigEditor::PlaylistPlaySelectedInput => &self.playlist_play_selected,
            IdConfigEditor::PlaylistDeleteAllInput => &self.playlist_delete_all,
            IdConfigEditor::PlaylistDeleteInput => &self.playlist_delete,
            IdConfigEditor::PlaylistShuffleInput => &self.playlist_shuffle,
            IdConfigEditor::PlaylistModeCycleInput => &self.playlist_mode_cycle,
            IdConfigEditor::PlaylistAddFrontInput => &self.playlist_add_front,
            IdConfigEditor::PlaylistSearchInput => &self.playlist_search,
            IdConfigEditor::PlaylistSwapDownInput => &self.playlist_swap_down,
            IdConfigEditor::PlaylistSwapUpInput => &self.playlist_swap_up,
            IdConfigEditor::GlobalLayoutTreeviewInput => &self.global_layout_treeview,
            IdConfigEditor::GlobalLayoutDatabaseInput => &self.global_layout_database,
            IdConfigEditor::DatabaseAddAllInput => &self.database_add_all,
            IdConfigEditor::GlobalPlayerToggleGaplessInput => &self.global_player_toggle_gapless,
        }
    }
}

} // verus!
