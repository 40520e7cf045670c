//! The system tray's states and what each shows.

use vstd::prelude::*;

verus! {

/// The id under which the tray icon is found again.
pub const TRAY_ID: &'static str = "voiceflow-tray";

/// The tooltip while idle.
pub const TOOLTIP_IDLE: &'static str = "VoiceFlow - Idle";

/// The tooltip while recording.
pub const TOOLTIP_RECORDING: &'static str = "VoiceFlow - Recording...";

/// The tooltip while a run is processed.
pub const TOOLTIP_PROCESSING: &'static str = "VoiceFlow - Processing...";

/// The id of the menu entry that quits.
pub const MENU_QUIT: &'static str = "quit";

/// The id of the menu entry that shows the main window.
pub const MENU_SHOW: &'static str = "show";

/// What the tray shows.
#[derive(Debug, Clone, Copy, PartialEq, Eq, Structural)]
pub enum TrayState {
    Idle,
    Recording,
    Processing,
}

/// What the tray menu does.
#[derive(Debug, Clone, Copy, PartialEq, Eq, Structural)]
pub enum MenuAction {
    /// Leave the application.
    Quit,
    /// Show and focus the main window.
    ShowWindow,
    /// Nothing.
    Ignore,
}

/// The tooltip of a tray state.
pub open spec fn tooltip_of(state: TrayState) -> Seq<char> {
    match state {
        TrayState::Idle => TOOLTIP_IDLE@,
        TrayState::Recording => TOOLTIP_RECORDING@,
        TrayState::Processing => TOOLTIP_PROCESSING@,
    }
}

/// The tooltip of a tray state.
pub fn tooltip(state: TrayState) -> (text: &'static str)
    ensures
        text@ == tooltip_of(state),
{
    match state {
        TrayState::Idle => TOOLTIP_IDLE,
        TrayState::Recording => TOOLTIP_RECORDING,
        TrayState::Processing => TOOLTIP_PROCESSING,
    }
}

/// The action of the menu entry with the given id.
pub fn menu_action(id: &str) -> (action: MenuAction)
    ensures
        action == if id@ == MENU_QUIT@ {
            MenuAction::Quit
        } else if id@ == MENU_SHOW@ {
            MenuAction::ShowWindow
        } else {
            MenuAction::Ignore
        },
{
    if crate::text::same_text(id, MENU_QUIT) {
        MenuAction::Quit
    } else if crate::text::same_text(id, MENU_SHOW) {
        MenuAction::ShowWindow
    } else {
        MenuAction::Ignore
    }
}

} // verus!
