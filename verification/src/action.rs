use vstd::prelude::*;

use crate::enums::LayoutAction;
use crate::sizechange::SizeChange;

verus! {

/// An action a key binding can trigger.  The variant set is closed; each
/// variant has a fixed argument shape.  `ChangeVt`, `ConfirmScreenshot` and
/// `CancelScreenshot` are reserved for internal signalling and cannot be
/// named in a document.
#[derive(Debug, Clone, PartialEq)]
pub enum Action {
    Quit,
    ChangeVt(i32),
    Suspend,
    PowerOffMonitors,
    ToggleDebugTint,
    Spawn(Vec<String>),
    ConfirmScreenshot,
    CancelScreenshot,
    Screenshot,
    ScreenshotScreen,
    ScreenshotWindow,
    CloseWindow,
    FullscreenWindow,
    FocusColumnLeft,
    FocusColumnRight,
    FocusColumnFirst,
    FocusColumnLast,
    FocusWindowDown,
    FocusWindowUp,
    FocusWindowOrWorkspaceDown,
    FocusWindowOrWorkspaceUp,
    MoveColumnLeft,
    MoveColumnRight,
    MoveColumnToFirst,
    MoveColumnToLast,
    MoveWindowDown,
    MoveWindowUp,
    MoveWindowDownOrToWorkspaceDown,
    MoveWindowUpOrToWorkspaceUp,
    ConsumeOrExpelWindowLeft,
    ConsumeOrExpelWindowRight,
    ConsumeWindowIntoColumn,
    ExpelWindowFromColumn,
    CenterColumn,
    FocusWorkspaceDown,
    FocusWorkspaceUp,
    FocusWorkspace(u8),
    MoveWindowToWorkspaceDown,
    MoveWindowToWorkspaceUp,
    MoveWindowToWorkspace(u8),
    MoveColumnToWorkspaceDown,
    MoveColumnToWorkspaceUp,
    MoveColumnToWorkspace(u8),
    MoveWorkspaceDown,
    MoveWorkspaceUp,
    FocusMonitorLeft,
    FocusMonitorRight,
    FocusMonitorDown,
    FocusMonitorUp,
    MoveWindowToMonitorLeft,
    MoveWindowToMonitorRight,
    MoveWindowToMonitorDown,
    MoveWindowToMonitorUp,
    MoveColumnToMonitorLeft,
    MoveColumnToMonitorRight,
    MoveColumnToMonitorDown,
    MoveColumnToMonitorUp,
    SetWindowHeight(SizeChange),
    SwitchPresetColumnWidth,
    MaximizeColumn,
    SetColumnWidth(SizeChange),
    SwitchLayout(LayoutAction),
    ShowHotkeyOverlay,
    MoveWorkspaceToMonitorLeft,
    MoveWorkspaceToMonitorRight,
    MoveWorkspaceToMonitorDown,
    MoveWorkspaceToMonitorUp,
}

/// The view of an `Action`: identical but for `Spawn`, whose command is a
/// sequence of character sequences.
pub enum ActionV {
    Quit,
    ChangeVt(i32),
    Suspend,
    PowerOffMonitors,
    ToggleDebugTint,
    Spawn(Seq<Seq<char>>),
    ConfirmScreenshot,
    CancelScreenshot,
    Screenshot,
    ScreenshotScreen,
    ScreenshotWindow,
    CloseWindow,
    FullscreenWindow,
    FocusColumnLeft,
    FocusColumnRight,
    FocusColumnFirst,
    FocusColumnLast,
    FocusWindowDown,
    FocusWindowUp,
    FocusWindowOrWorkspaceDown,
    FocusWindowOrWorkspaceUp,
    MoveColumnLeft,
    MoveColumnRight,
    MoveColumnToFirst,
    MoveColumnToLast,
    MoveWindowDown,
    MoveWindowUp,
    MoveWindowDownOrToWorkspaceDown,
    MoveWindowUpOrToWorkspaceUp,
    ConsumeOrExpelWindowLeft,
    ConsumeOrExpelWindowRight,
    ConsumeWindowIntoColumn,
    ExpelWindowFromColumn,
    CenterColumn,
    FocusWorkspaceDown,
    FocusWorkspaceUp,
    FocusWorkspace(u8),
    MoveWindowToWorkspaceDown,
    MoveWindowToWorkspaceUp,
    MoveWindowToWorkspace(u8),
    MoveColumnToWorkspaceDown,
    MoveColumnToWorkspaceUp,
    MoveColumnToWorkspace(u8),
    MoveWorkspaceDown,
    MoveWorkspaceUp,
    FocusMonitorLeft,
    FocusMonitorRight,
    FocusMonitorDown,
    FocusMonitorUp,
    MoveWindowToMonitorLeft,
    MoveWindowToMonitorRight,
    MoveWindowToMonitorDown,
    MoveWindowToMonitorUp,
    MoveColumnToMonitorLeft,
    MoveColumnToMonitorRight,
    MoveColumnToMonitorDown,
    MoveColumnToMonitorUp,
    SetWindowHeight(SizeChange),
    SwitchPresetColumnWidth,
    MaximizeColumn,
    SetColumnWidth(SizeChange),
    SwitchLayout(LayoutAction),
    ShowHotkeyOverlay,
    MoveWorkspaceToMonitorLeft,
    MoveWorkspaceToMonitorRight,
    MoveWorkspaceToMonitorDown,
    MoveWorkspaceToMonitorUp,
}

impl View for Action {
    type V = ActionV;

    open spec fn view(&self) -> ActionV {
        match self {
            Action::Quit => ActionV::Quit,
            Action::ChangeVt(v) => ActionV::ChangeVt(*v),
            Action::Suspend => ActionV::Suspend,
            Action::PowerOffMonitors => ActionV::PowerOffMonitors,
            Action::ToggleDebugTint => ActionV::ToggleDebugTint,
            Action::Spawn(cmd) => ActionV::Spawn(cmd@.map(|i: int, s: String| s@)),
            Action::ConfirmScreenshot => ActionV::ConfirmScreenshot,
            Action::CancelScreenshot => ActionV::CancelScreenshot,
            Action::Screenshot => ActionV::Screenshot,
            Action::ScreenshotScreen => ActionV::ScreenshotScreen,
            Action::ScreenshotWindow => ActionV::ScreenshotWindow,
            Action::CloseWindow => ActionV::CloseWindow,
            Action::FullscreenWindow => ActionV::FullscreenWindow,
            Action::FocusColumnLeft => ActionV::FocusColumnLeft,
            Action::FocusColumnRight => ActionV::FocusColumnRight,
            Action::FocusColumnFirst => ActionV::FocusColumnFirst,
            Action::FocusColumnLast => ActionV::FocusColumnLast,
            Action::FocusWindowDown => ActionV::FocusWindowDown,
            Action::FocusWindowUp => ActionV::FocusWindowUp,
            Action::FocusWindowOrWorkspaceDown => ActionV::FocusWindowOrWorkspaceDown,
            Action::FocusWindowOrWorkspaceUp => ActionV::FocusWindowOrWorkspaceUp,
            Action::MoveColumnLeft => ActionV::MoveColumnLeft,
            Action::MoveColumnRight => ActionV::MoveColumnRight,
            Action::MoveColumnToFirst => ActionV::MoveColumnToFirst,
            Action::MoveColumnToLast => ActionV::MoveColumnToLast,
            Action::MoveWindowDown => ActionV::MoveWindowDown,
            Action::MoveWindowUp => ActionV::MoveWindowUp,
            Action::MoveWindowDownOrToWorkspaceDown => ActionV::MoveWindowDownOrToWorkspaceDown,
            Action::MoveWindowUpOrToWorkspaceUp => ActionV::MoveWindowUpOrToWorkspaceUp,
            Action::ConsumeOrExpelWindowLeft => ActionV::ConsumeOrExpelWindowLeft,
            Action::ConsumeOrExpelWindowRight => ActionV::ConsumeOrExpelWindowRight,
            Action::ConsumeWindowIntoColumn => ActionV::ConsumeWindowIntoColumn,
            Action::ExpelWindowFromColumn => ActionV::ExpelWindowFromColumn,
            Action::CenterColumn => ActionV::CenterColumn,
            Action::FocusWorkspaceDown => ActionV::FocusWorkspaceDown,
            Action::FocusWorkspaceUp => ActionV::FocusWorkspaceUp,
            Action::FocusWorkspace(v) => ActionV::FocusWorkspace(*v),
            Action::MoveWindowToWorkspaceDown => ActionV::MoveWindowToWorkspaceDown,
            Action::MoveWindowToWorkspaceUp => ActionV::MoveWindowToWorkspaceUp,
            Action::MoveWindowToWorkspace(v) => ActionV::MoveWindowToWorkspace(*v),
            Action::MoveColumnToWorkspaceDown => ActionV::MoveColumnToWorkspaceDown,
            Action::MoveColumnToWorkspaceUp => ActionV::MoveColumnToWorkspaceUp,
            Action::MoveColumnToWorkspace(v) => ActionV::MoveColumnToWorkspace(*v),
            Action::MoveWorkspaceDown => ActionV::MoveWorkspaceDown,
            Action::MoveWorkspaceUp => ActionV::MoveWorkspaceUp,
            Action::FocusMonitorLeft => ActionV::FocusMonitorLeft,
            Action::FocusMonitorRight => ActionV::FocusMonitorRight,
            Action::FocusMonitorDown => ActionV::FocusMonitorDown,
            Action::FocusMonitorUp => ActionV::FocusMonitorUp,
            Action::MoveWindowToMonitorLeft => ActionV::MoveWindowToMonitorLeft,
            Action::MoveWindowToMonitorRight => ActionV::MoveWindowToMonitorRight,
            Action::MoveWindowToMonitorDown => ActionV::MoveWindowToMonitorDown,
            Action::MoveWindowToMonitorUp => ActionV::MoveWindowToMonitorUp,
            Action::MoveColumnToMonitorLeft => ActionV::MoveColumnToMonitorLeft,
            Action::MoveColumnToMonitorRight => ActionV::MoveColumnToMonitorRight,
            Action::MoveColumnToMonitorDown => ActionV::MoveColumnToMonitorDown,
            Action::MoveColumnToMonitorUp => ActionV::MoveColumnToMonitorUp,
            Action::SetWindowHeight(v) => ActionV::SetWindowHeight(*v),
            Action::SwitchPresetColumnWidth => ActionV::SwitchPresetColumnWidth,
            Action::MaximizeColumn => ActionV::MaximizeColumn,
            Action::SetColumnWidth(v) => ActionV::SetColumnWidth(*v),
            Action::SwitchLayout(v) => ActionV::SwitchLayout(*v),
            Action::ShowHotkeyOverlay => ActionV::ShowHotkeyOverlay,
            Action::MoveWorkspaceToMonitorLeft => ActionV::MoveWorkspaceToMonitorLeft,
            Action::MoveWorkspaceToMonitorRight => ActionV::MoveWorkspaceToMonitorRight,
            Action::MoveWorkspaceToMonitorDown => ActionV::MoveWorkspaceToMonitorDown,
            Action::MoveWorkspaceToMonitorUp => ActionV::MoveWorkspaceToMonitorUp,
        }
    }
}

} // verus!
