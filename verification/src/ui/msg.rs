//! The messages that components send to the application, and the names of
//! the key-binding fields of the configuration editor.

use vstd::prelude::*;

verus! {

/// A key-binding field of the configuration editor.
#[derive(Clone, Copy, Debug, PartialEq, Eq, Structural)]
pub enum IdConfigEditor {
    GlobalQuitInput,
    GlobalLeftInput,
    GlobalRightInput,
    GlobalUpInput,
    GlobalDownInput,
    GlobalGotoTopInput,
    GlobalGotoBottomInput,
    GlobalPlayerTogglePauseInput,
    GlobalPlayerNextInput,
    GlobalPlayerPreviousInput,
    GlobalHelpInput,
    GlobalVolumeUpInput,
    GlobalVolumeDownInput,
    GlobalPlayerSeekForwardInput,
    GlobalPlayerSeekBackwardInput,
    GlobalPlayerSpeedUpInput,
    GlobalPlayerSpeedDownInput,
    GlobalLyricAdjustForwardInput,
    GlobalLyricAdjustBackwardInput,
    GlobalLyricCycleInput,
    GlobalPlayerToggleGaplessInput,
    GlobalLayoutTreeviewInput,
    GlobalLayoutDatabaseInput,
    LibraryDeleteInput,
    LibraryLoadDirInput,
    LibraryYankInput,
    LibraryPasteInput,
    LibrarySearchInput,
    LibrarySearchYoutubeInput,
    LibraryTagEditorInput,
    PlaylistDeleteInput,
    PlaylistDeleteAllInput,
    PlaylistShuffleInput,
    PlaylistModeCycleInput,
    PlaylistPlaySelectedInput,
    PlaylistAddFrontInput,
    PlaylistSearchInput,
    PlaylistSwapDownInput,
    PlaylistSwapUpInput,
    DatabaseAddAllInput,
}

/// A message of the configuration editor: a binding was changed, the editor
/// is closed, or a field is left, downwards or upwards.
#[derive(Clone, Copy, Debug, PartialEq, Eq, Structural)]
pub enum ConfigEditorMsg {
    KeyChanged(IdConfigEditor),
    CloseCancel,
    GlobalQuitInputBlurDown,
    GlobalQuitInputBlurUp,
    GlobalLeftInputBlurDown,
    GlobalLeftInputBlurUp,
    GlobalRightInputBlurDown,
    GlobalRightInputBlurUp,
    GlobalUpInputBlurDown,
    GlobalUpInputBlurUp,
    GlobalDownInputBlurDown,
    GlobalDownInputBlurUp,
    GlobalGotoTopInputBlurDown,
    GlobalGotoTopInputBlurUp,
    GlobalGotoBottomInputBlurDown,
    GlobalGotoBottomInputBlurUp,
    GlobalPlayerTogglePauseInputBlurDown,
    GlobalPlayerTogglePauseInputBlurUp,
    GlobalPlayerNextInputBlurDown,
    GlobalPlayerNextInputBlurUp,
    GlobalPlayerPreviousInputBlurDown,
    GlobalPlayerPreviousInputBlurUp,
    GlobalHelpInputBlurDown,
    GlobalHelpInputBlurUp,
    GlobalVolumeUpInputBlurDown,
    GlobalVolumeUpInputBlurUp,
    GlobalVolumeDownInputBlurDown,
    GlobalVolumeDownInputBlurUp,
    GlobalPlayerSeekForwardInputBlurDown,
    GlobalPlayerSeekForwardInputBlurUp,
    GlobalPlayerSeekBackwardInputBlurDown,
    GlobalPlayerSeekBackwardInputBlurUp,
    GlobalPlayerSpeedUpInputBlurDown,
    GlobalPlayerSpeedUpInputBlurUp,
    GlobalPlayerSpeedDownInputBlurDown,
    GlobalPlayerSpeedDownInputBlurUp,
    GlobalLyricAdjustForwardInputBlurDown,
    GlobalLyricAdjustForwardInputBlurUp,
    GlobalLyricAdjustBackwardInputBlurDown,
    GlobalLyricAdjustBackwardInputBlurUp,
    GlobalLyricCyleInputBlurDown,
    GlobalLyricCyleInputBlurUp,
    GlobalPlayerToggleGaplessInputBlurDown,
    GlobalPlayerToggleGaplessInputBlurUp,
    GlobalLayoutTreeviewInputBlurDown,
    GlobalLayoutTreeviewInputBlurUp,
    GlobalLayoutDatabaseInputBlurDown,
    GlobalLayoutDatabaseInputBlurUp,
    LibraryDeleteInputBlurDown,
    LibraryDeleteInputBlurUp,
    LibraryLoadDirInputBlurDown,
    LibraryLoadDirInputBlurUp,
    LibraryYankInputBlurDown,
    LibraryYankInputBlurUp,
    LibraryPasteInputBlurDown,
    LibraryPasteInputBlurUp,
    LibrarySearchInputBlurDown,
    LibrarySearchInputBlurUp,
    LibrarySearchYoutubeInputBlurDown,
    LibrarySearchYoutubeInputBlurUp,
    LibraryTagEditorInputBlurDown,
    LibraryTagEditorInputBlurUp,
    PlaylistDeleteInputBlurDown,
    PlaylistDeleteInputBlurUp,
    PlaylistDeleteAllInputBlurDown,
    PlaylistDeleteAllInputBlurUp,
    PlaylistShuffleInputBlurDown,
    PlaylistShuffleInputBlurUp,
    PlaylistModeCycleInputBlurDown,
    PlaylistModeCycleInputBlurUp,
    PlaylistPlaySelectedInputBlurDown,
    PlaylistPlaySelectedInputBlurUp,
    PlaylistAddFrontInputBlurDown,
    PlaylistAddFrontInputBlurUp,
    PlaylistSearchInputBlurDown,
    PlaylistSearchInputBlurUp,
    PlaylistSwapDownInputBlurDown,
    PlaylistSwapDownInputBlurUp,
    PlaylistSwapUpInputBlurDown,
    PlaylistSwapUpInputBlurUp,
    DatabaseAddAllInputBlurDown,
    DatabaseAddAllInputBlurUp,
}

/// A message from a component to the application.
#[derive(Clone, Debug, PartialEq, Eq)]
pub enum Msg {
    /// Nothing to tell.
    Nothing,
    ConfigEditor(ConfigEditorMsg),
    TagEditorBlur(Option<String>),
    TEHelpPopupShow,
    TERadioTagBlur,
    TERadioTagOk,
}

impl IdConfigEditor {
    /// The message of a field that is left downwards.
    pub open spec fn spec_blur_down(self) -> ConfigEditorMsg {
        match self {
            IdConfigEditor::GlobalQuitInput => ConfigEditorMsg::GlobalQuitInputBlurDown,
            IdConfigEditor::GlobalLeftInput => ConfigEditorMsg::GlobalLeftInputBlurDown,
            IdConfigEditor::GlobalRightInput => ConfigEditorMsg::GlobalRightInputBlurDown,
            IdConfigEditor::GlobalUpInput => ConfigEditorMsg::GlobalUpInputBlurDown,
            IdConfigEditor::GlobalDownInput => ConfigEditorMsg::GlobalDownInputBlurDown,
            IdConfigEditor::GlobalGotoTopInput => ConfigEditorMsg::GlobalGotoTopInputBlurDown,
            IdConfigEditor::GlobalGotoBottomInput => ConfigEditorMsg::GlobalGotoBottomInputBlurDown,
            IdConfigEditor::GlobalPlayerTogglePauseInput => ConfigEditorMsg::GlobalPlayerTogglePauseInputBlurDown,
            IdConfigEditor::GlobalPlayerNextInput => ConfigEditorMsg::GlobalPlayerNextInputBlurDown,
            IdConfigEditor::GlobalPlayerPreviousInput => ConfigEditorMsg::GlobalPlayerPreviousInputBlurDown,
            IdConfigEditor::GlobalHelpInput => ConfigEditorMsg::GlobalHelpInputBlurDown,
            IdConfigEditor::GlobalVolumeUpInput => ConfigEditorMsg::GlobalVolumeUpInputBlurDown,
            IdConfigEditor::GlobalVolumeDownInput => ConfigEditorMsg::GlobalVolumeDownInputBlurDown,
            IdConfigEditor::GlobalPlayerSeekForwardInput => ConfigEditorMsg::GlobalPlayerSeekForwardInputBlurDown,
            IdConfigEditor::GlobalPlayerSeekBackwardInput => ConfigEditorMsg::GlobalPlayerSeekBackwardInputBlurDown,
            IdConfigEditor::GlobalPlayerSpeedUpInput => ConfigEditorMsg::GlobalPlayerSpeedUpInputBlurDown,
            IdConfigEditor::GlobalPlayerSpeedDownInput => ConfigEditorMsg::GlobalPlayerSpeedDownInputBlurDown,
            IdConfigEditor::GlobalLyricAdjustForwardInput => ConfigEditorMsg::GlobalLyricAdjustForwardInputBlurDown,
            IdConfigEditor::GlobalLyricAdjustBackwardInput => ConfigEditorMsg::GlobalLyricAdjustBackwardInputBlurDown,
            IdConfigEditor::GlobalLyricCycleInput => ConfigEditorMsg::GlobalLyricCyleInputBlurDown,
            IdConfigEditor::GlobalPlayerToggleGaplessInput => ConfigEditorMsg::GlobalPlayerToggleGaplessInputBlurDown,
            IdConfigEditor::GlobalLayoutTreeviewInput => ConfigEditorMsg::GlobalLayoutTreeviewInputBlurDown,
            IdConfigEditor::GlobalLayoutDatabaseInput => ConfigEditorMsg::GlobalLayoutDatabaseInputBlurDown,
            IdConfigEditor::LibraryDeleteInput => ConfigEditorMsg::LibraryDeleteInputBlurDown,
            IdConfigEditor::LibraryLoadDirInput => ConfigEditorMsg::LibraryLoadDirInputBlurDown,
            IdConfigEditor::LibraryYankInput => ConfigEditorMsg::LibraryYankInputBlurDown,
            IdConfigEditor::LibraryPasteInput => ConfigEditorMsg::LibraryPasteInputBlurDown,
            IdConfigEditor::LibrarySearchInput => ConfigEditorMsg::LibrarySearchInputBlurDown,
            IdConfigEditor::LibrarySearchYoutubeInput => ConfigEditorMsg::LibrarySearchYoutubeInputBlurDown,
            IdConfigEditor::LibraryTagEditorInput => ConfigEditorMsg::LibraryTagEditorInputBlurDown,
            IdConfigEditor::PlaylistDeleteInput => ConfigEditorMsg::PlaylistDeleteInputBlurDown,
            IdConfigEditor::PlaylistDeleteAllInput => ConfigEditorMsg::PlaylistDeleteAllInputBlurDown,
            IdConfigEditor::PlaylistShuffleInput => ConfigEditorMsg::PlaylistShuffleInputBlurDown,
            IdConfigEditor::PlaylistModeCycleInput => ConfigEditorMsg::PlaylistModeCycleInputBlurDown,
            IdConfigEditor::PlaylistPlaySelectedInput => ConfigEditorMsg::PlaylistPlaySelectedInputBlurDown,
            IdConfigEditor::PlaylistAddFrontInput => ConfigEditorMsg::PlaylistAddFrontInputBlurDown,
            IdConfigEditor::PlaylistSearchInput => ConfigEditorMsg::PlaylistSearchInputBlurDown,
            IdConfigEditor::PlaylistSwapDownInput => ConfigEditorMsg::PlaylistSwapDownInputBlurDown,
            IdConfigEditor::PlaylistSwapUpInput => ConfigEditorMsg::PlaylistSwapUpInputBlurDown,
            IdConfigEditor::DatabaseAddAllInput => ConfigEditorMsg::DatabaseAddAllInputBlurDown,
        }
    }

    /// The message of a field that is left upwards.
    pub open spec fn spec_blur_up(self) -> ConfigEditorMsg {
        match self {
            IdConfigEditor::GlobalQuitInput => ConfigEditorMsg::GlobalQuitInputBlurUp,
            IdConfigEditor::GlobalLeftInput => ConfigEditorMsg::GlobalLeftInputBlurUp,
            IdConfigEditor::GlobalRightInput => ConfigEditorMsg::GlobalRightInputBlurUp,
            IdConfigEditor::GlobalUpInput => ConfigEditorMsg::GlobalUpInputBlurUp,
            IdConfigEditor::GlobalDownInput => ConfigEditorMsg::GlobalDownInputBlurUp,
            IdConfigEditor::GlobalGotoTopInput => ConfigEditorMsg::GlobalGotoTopInputBlurUp,
            IdConfigEditor::GlobalGotoBottomInput => ConfigEditorMsg::GlobalGotoBottomInputBlurUp,
            IdConfigEditor::GlobalPlayerTogglePauseInput => ConfigEditorMsg::GlobalPlayerTogglePauseInputBlurUp,
            IdConfigEditor::GlobalPlayerNextInput => ConfigEditorMsg::GlobalPlayerNextInputBlurUp,
            IdConfigEditor::GlobalPlayerPreviousInput => ConfigEditorMsg::GlobalPlayerPreviousInputBlurUp,
            IdConfigEditor::GlobalHelpInput => ConfigEditorMsg::GlobalHelpInputBlurUp,
            IdConfigEditor::GlobalVolumeUpInput => ConfigEditorMsg::GlobalVolumeUpInputBlurUp,
            IdConfigEditor::GlobalVolumeDownInput => ConfigEditorMsg::GlobalVolumeDownInputBlurUp,
            IdConfigEditor::GlobalPlayerSeekForwardInput => ConfigEditorMsg::GlobalPlayerSeekForwardInputBlurUp,
            IdConfigEditor::GlobalPlayerSeekBackwardInput => ConfigEditorMsg::GlobalPlayerSeekBackwardInputBlurUp,
            IdConfigEditor::GlobalPlayerSpeedUpInput => ConfigEditorMsg::GlobalPlayerSpeedUpInputBlurUp,
            IdConfigEditor::GlobalPlayerSpeedDownInput => ConfigEditorMsg::GlobalPlayerSpeedDownInputBlurUp,
            IdConfigEditor::GlobalLyricAdjustForwardInput => ConfigEditorMsg::GlobalLyricAdjustForwardInputBlurUp,
            IdConfigEditor::GlobalLyricAdjustBackwardInput => ConfigEditorMsg::GlobalLyricAdjustBackwardInputBlurUp,
            IdConfigEditor::GlobalLyricCycleInput => ConfigEditorMsg::GlobalLyricCyleInputBlurUp,
            IdConfigEditor::GlobalPlayerToggleGaplessInput => ConfigEditorMsg::GlobalPlayerToggleGaplessInputBlurUp,
            IdConfigEditor::GlobalLayoutTreeviewInput => ConfigEditorMsg::GlobalLayoutTreeviewInputBlurUp,
            IdConfigEditor::GlobalLayoutDatabaseInput => ConfigEditorMsg::GlobalLayoutDatabaseInputBlurUp,
            IdConfigEditor::LibraryDeleteInput => ConfigEditorMsg::LibraryDeleteInputBlurUp,
            IdConfigEditor::LibraryLoadDirInput => ConfigEditorMsg::LibraryLoadDirInputBlurUp,
            IdConfigEditor::LibraryYankInput => ConfigEditorMsg::LibraryYankInputBlurUp,
            IdConfigEditor::LibraryPasteInput => ConfigEditorMsg::LibraryPasteInputBlurUp,
            IdConfigEditor::LibrarySearchInput => ConfigEditorMsg::LibrarySearchInputBlurUp,
            IdConfigEditor::LibrarySearchYoutubeInput => ConfigEditorMsg::LibrarySearchYoutubeInputBlurUp,
            IdConfigEditor::LibraryTagEditorInput => ConfigEditorMsg::LibraryTagEditorInputBlurUp,
            IdConfigEditor::PlaylistDeleteInput => ConfigEditorMsg::PlaylistDeleteInputBlurUp,
            IdConfigEditor::PlaylistDeleteAllInput => ConfigEditorMsg::PlaylistDeleteAllInputBlurUp,
            IdConfigEditor::PlaylistShuffleInput => ConfigEditorMsg::PlaylistShuffleInputBlurUp,
            IdConfigEditor::PlaylistModeCycleInput => ConfigEditorMsg::PlaylistModeCycleInputBlurUp,
            IdConfigEditor::PlaylistPlaySelectedInput => ConfigEditorMsg::PlaylistPlaySelectedInputBlurUp,
            IdConfigEditor::PlaylistAddFrontInput => ConfigEditorMsg::PlaylistAddFrontInputBlurUp,
            IdConfigEditor::PlaylistSearchInput => ConfigEditorMsg::PlaylistSearchInputBlurUp,
            IdConfigEditor::PlaylistSwapDownInput => ConfigEditorMsg::PlaylistSwapDownInputBlurUp,
            IdConfigEditor::PlaylistSwapUpInput => ConfigEditorMsg::PlaylistSwapUpInputBlurUp,
            IdConfigEditor::DatabaseAddAllInput => ConfigEditorMsg::DatabaseAddAllInputBlurUp,
        }
    }

    /// The message that the field sends when it is left with the tab key.
    #[verifier::when_used_as_spec(spec_blur_down)]
    pub fn blur_down(self) -> (msg: ConfigEditorMsg)
        ensures
            msg == self.spec_blur_down(),
    {
        match self {
            IdConfigEditor::GlobalQuitInput => ConfigEditorMsg::GlobalQuitInputBlurDown,
            IdConfigEditor::GlobalLeftInput => ConfigEditorMsg::GlobalLeftInputBlurDown,
            IdConfigEditor::GlobalRightInput => ConfigEditorMsg::GlobalRightInputBlurDown,
            IdConfigEditor::GlobalUpInput => ConfigEditorMsg::GlobalUpInputBlurDown,
            IdConfigEditor::GlobalDownInput => ConfigEditorMsg::GlobalDownInputBlurDown,
            IdConfigEditor::GlobalGotoTopInput => ConfigEditorMsg::GlobalGotoTopInputBlurDown,
            IdConfigEditor::GlobalGotoBottomInput => ConfigEditorMsg::GlobalGotoBottomInputBlurDown,
            IdConfigEditor::GlobalPlayerTogglePauseInput => ConfigEditorMsg::GlobalPlayerTogglePauseInputBlurDown,
            IdConfigEditor::GlobalPlayerNextInput => ConfigEditorMsg::GlobalPlayerNextInputBlurDown,
            IdConfigEditor::GlobalPlayerPreviousInput => ConfigEditorMsg::GlobalPlayerPreviousInputBlurDown,
            IdConfigEditor::GlobalHelpInput => ConfigEditorMsg::GlobalHelpInputBlurDown,
            IdConfigEditor::GlobalVolumeUpInput => ConfigEditorMsg::GlobalVolumeUpInputBlurDown,
            IdConfigEditor::GlobalVolumeDownInput => ConfigEditorMsg::GlobalVolumeDownInputBlurDown,
            IdConfigEditor::GlobalPlayerSeekForwardInput => ConfigEditorMsg::GlobalPlayerSeekForwardInputBlurDown,
            IdConfigEditor::GlobalPlayerSeekBackwardInput => ConfigEditorMsg::GlobalPlayerSeekBackwardInputBlurDown,
            IdConfigEditor::GlobalPlayerSpeedUpInput => ConfigEditorMsg::GlobalPlayerSpeedUpInputBlurDown,
            IdConfigEditor::GlobalPlayerSpeedDownInput => ConfigEditorMsg::GlobalPlayerSpeedDownInputBlurDown,
            IdConfigEditor::GlobalLyricAdjustForwardInput => ConfigEditorMsg::GlobalLyricAdjustForwardInputBlurDown,
            IdConfigEditor::GlobalLyricAdjustBackwardInput => ConfigEditorMsg::GlobalLyricAdjustBackwardInputBlurDown,
            IdConfigEditor::GlobalLyricCycleInput => ConfigEditorMsg::GlobalLyricCyleInputBlurDown,
            IdConfigEditor::GlobalPlayerToggleGaplessInput => ConfigEditorMsg::GlobalPlayerToggleGaplessInputBlurDown,
            IdConfigEditor::GlobalLayoutTreeviewInput => ConfigEditorMsg::GlobalLayoutTreeviewInputBlurDown,
            IdConfigEditor::GlobalLayoutDatabaseInput => ConfigEditorMsg::GlobalLayoutDatabaseInputBlurDown,
            IdConfigEditor::LibraryDeleteInput => ConfigEditorMsg::LibraryDeleteInputBlurDown,
            IdConfigEditor::LibraryLoadDirInput => ConfigEditorMsg::LibraryLoadDirInputBlurDown,
            IdConfigEditor::LibraryYankInput => ConfigEditorMsg::LibraryYankInputBlurDown,
            IdConfigEditor::LibraryPasteInput => ConfigEditorMsg::LibraryPasteInputBlurDown,
            IdConfigEditor::LibrarySearchInput => ConfigEditorMsg::LibrarySearchInputBlurDown,
            IdConfigEditor::LibrarySearchYoutubeInput => ConfigEditorMsg::LibrarySearchYoutubeInputBlurDown,
            IdConfigEditor::LibraryTagEditorInput => ConfigEditorMsg::LibraryTagEditorInputBlurDown,
            IdConfigEditor::PlaylistDeleteInput => ConfigEditorMsg::PlaylistDeleteInputBlurDown,
            IdConfigEditor::PlaylistDeleteAllInput => ConfigEditorMsg::PlaylistDeleteAllInputBlurDown,
            IdConfigEditor::PlaylistShuffleInput => ConfigEditorMsg::PlaylistShuffleInputBlurDown,
            IdConfigEditor::PlaylistModeCycleInput => ConfigEditorMsg::PlaylistModeCycleInputBlurDown,
            IdConfigEditor::PlaylistPlaySelectedInput => ConfigEditorMsg::PlaylistPlaySelectedInputBlurDown,
            IdConfigEditor::PlaylistAddFrontInput => ConfigEditorMsg::PlaylistAddFrontInputBlurDown,
            IdConfigEditor::PlaylistSearchInput => ConfigEditorMsg::PlaylistSearchInputBlurDown,
            IdConfigEditor::PlaylistSwapDownInput => ConfigEditorMsg::PlaylistSwapDownInputBlurDown,
            IdConfigEditor::PlaylistSwapUpInput => ConfigEditorMsg::PlaylistSwapUpInputBlurDown,
            IdConfigEditor::DatabaseAddAllInput => ConfigEditorMsg::DatabaseAddAllInputBlurDown,
        }
    }

    /// The message that the field sends when it is left with shift and tab.
    #[verifier::when_used_as_spec(spec_blur_up)]
    pub fn blur_up(self) -> (msg: ConfigEditorMsg)
        ensures
            msg == self.spec_blur_up(),
    {
        match self {
            IdConfigEditor::GlobalQuitInput => ConfigEditorMsg::GlobalQuitInputBlurUp,
            IdConfigEditor::GlobalLeftInput => ConfigEditorMsg::GlobalLeftInputBlurUp,
            IdConfigEditor::GlobalRightInput => ConfigEditorMsg::GlobalRightInputBlurUp,
            IdConfigEditor::GlobalUpInput => ConfigEditorMsg::GlobalUpInputBlurUp,
            IdConfigEditor::GlobalDownInput => ConfigEditorMsg::GlobalDownInputBlurUp,
            IdConfigEditor::GlobalGotoTopInput => ConfigEditorMsg::GlobalGotoTopInputBlurUp,
            IdConfigEditor::GlobalGotoBottomInput => ConfigEditorMsg::GlobalGotoBottomInputBlurUp,
            IdConfigEditor::GlobalPlayerTogglePauseInput => ConfigEditorMsg::GlobalPlayerTogglePauseInputBlurUp,
            IdConfigEditor::GlobalPlayerNextInput => ConfigEditorMsg::GlobalPlayerNextInputBlurUp,
            IdConfigEditor::GlobalPlayerPreviousInput => ConfigEditorMsg::GlobalPlayerPreviousInputBlurUp,
            IdConfigEditor::GlobalHelpInput => ConfigEditorMsg::GlobalHelpInputBlurUp,
            IdConfigEditor::GlobalVolumeUpInput => ConfigEditorMsg::GlobalVolumeUpInputBlurUp,
            IdConfigEditor::GlobalVolumeDownInput => ConfigEditorMsg::GlobalVolumeDownInputBlurUp,
            IdConfigEditor::GlobalPlayerSeekForwardInput => ConfigEditorMsg::GlobalPlayerSeekForwardInputBlurUp,
            IdConfigEditor::GlobalPlayerSeekBackwardInput => ConfigEditorMsg::GlobalPlayerSeekBackwardInputBlurUp,
            IdConfigEditor::GlobalPlayerSpeedUpInput => ConfigEditorMsg::GlobalPlayerSpeedUpInputBlurUp,
            IdConfigEditor::GlobalPlayerSpeedDownInput => ConfigEditorMsg::GlobalPlayerSpeedDownInputBlurUp,
            IdConfigEditor::GlobalLyricAdjustForwardInput => ConfigEditorMsg::GlobalLyricAdjustForwardInputBlurUp,
            IdConfigEditor::GlobalLyricAdjustBackwardInput => ConfigEditorMsg::GlobalLyricAdjustBackwardInputBlurUp,
            IdConfigEditor::GlobalLyricCycleInput => ConfigEditorMsg::GlobalLyricCyleInputBlurUp,
            IdConfigEditor::GlobalPlayerToggleGaplessInput => ConfigEditorMsg::GlobalPlayerToggleGaplessInputBlurUp,
            IdConfigEditor::GlobalLayoutTreeviewInput => ConfigEditorMsg::GlobalLayoutTreeviewInputBlurUp,
            IdConfigEditor::GlobalLayoutDatabaseInput => ConfigEditorMsg::GlobalLayoutDatabaseInputBlurUp,
            IdConfigEditor::LibraryDeleteInput => ConfigEditorMsg::LibraryDeleteInputBlurUp,
            IdConfigEditor::LibraryLoadDirInput => ConfigEditorMsg::LibraryLoadDirInputBlurUp,
            IdConfigEditor::LibraryYankInput => ConfigEditorMsg::LibraryYankInputBlurUp,
            IdConfigEditor::LibraryPasteInput => ConfigEditorMsg::LibraryPasteInputBlurUp,
            IdConfigEditor::LibrarySearchInput => ConfigEditorMsg::LibrarySearchInputBlurUp,
            IdConfigEditor::LibrarySearchYoutubeInput => ConfigEditorMsg::LibrarySearchYoutubeInputBlurUp,
            IdConfigEditor::LibraryTagEditorInput => ConfigEditorMsg::LibraryTagEditorInputBlurUp,
            IdConfigEditor::PlaylistDeleteInput => ConfigEditorMsg::PlaylistDeleteInputBlurUp,
            IdConfigEditor::PlaylistDeleteAllInput => ConfigEditorMsg::PlaylistDeleteAllInputBlurUp,
            IdConfigEditor::PlaylistShuffleInput => ConfigEditorMsg::PlaylistShuffleInputBlurUp,
            IdConfigEditor::PlaylistModeCycleInput => ConfigEditorMsg::PlaylistModeCycleInputBlurUp,
            IdConfigEditor::PlaylistPlaySelectedInput => ConfigEditorMsg::PlaylistPlaySelectedInputBlurUp,
            IdConfigEditor::PlaylistAddFrontInput => ConfigEditorMsg::PlaylistAddFrontInputBlurUp,
            IdConfigEditor::PlaylistSearchInput => ConfigEditorMsg::PlaylistSearchInputBlurUp,
            IdConfigEditor::PlaylistSwapDownInput => ConfigEditorMsg::PlaylistSwapDownInputBlurUp,
            IdConfigEditor::PlaylistSwapUpInput => ConfigEditorMsg::PlaylistSwapUpInputBlurUp,
            IdConfigEditor::DatabaseAddAllInput => ConfigEditorMsg::DatabaseAddAllInputBlurUp,
        }
    }
}

/// A message tells which field was left, and which way: no two fields share
/// a message, and no message serves both ways.
pub proof fn lemma_blur_messages_tell_fields_apart(a: IdConfigEditor, b: IdConfigEditor)
    ensures
        a.blur_down() == b.blur_down() ==> a == b,
        a.blur_up() == b.blur_up() ==> a == b,
        a.blur_down() != b.blur_up(),
        a.blur_down() != ConfigEditorMsg::CloseCancel,
        a.blur_up() != ConfigEditorMsg::CloseCancel,
        a.blur_down() != ConfigEditorMsg::KeyChanged(b),
        a.blur_up() != ConfigEditorMsg::KeyChanged(b),
{
}

} // verus!
