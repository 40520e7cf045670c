//! The hold-to-talk hotkey: pressing it starts a recording, releasing it
//! stops the recording and runs the pipeline.

use vstd::prelude::*;

verus! {

/// The key chord of the hotkey, for display.
pub const HOTKEY_LABEL: &'static str = "Ctrl+Shift+Space";

/// What a hotkey event asks for.
#[derive(Debug, Clone, Copy, PartialEq, Eq, Structural)]
pub enum HotkeyAction {
    /// Nothing: the event does not fit the engine's state.
    Ignore,
    /// Start a recording; once it has started, show the overlay and start
    /// the level updates.
    StartRecording,
    /// Stop the recording and process what was captured.
    StopAndProcess,
}

/// The action for a press of the hotkey: a recording is started unless one
/// is live.
pub fn on_hotkey_press(is_recording: bool) -> (action: HotkeyAction)
    ensures
        action == if is_recording {
            HotkeyAction::Ignore
        } else {
            HotkeyAction::StartRecording
        },
{
    if is_recording {
        HotkeyAction::Ignore
    } else {
        HotkeyAction::StartRecording
    }
}

/// The action for a release of the hotkey: the pipeline runs only if a
/// recording is live.
pub fn on_hotkey_release(is_recording: bool) -> (action: HotkeyAction)
    ensures
        action == if is_recording {
            HotkeyAction::StopAndProcess
        } else {
            HotkeyAction::Ignore
        },
{
    if is_recording {
        HotkeyAction::StopAndProcess
    } else {
        HotkeyAction::Ignore
    }
}

} // verus!
