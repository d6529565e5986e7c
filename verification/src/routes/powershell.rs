//! The PowerShell routes of the screens that pass identifiers as text.
use vstd::prelude::*;
use crate::parameters::{
    CopyToClipboardParameters, CopyToClipboardParametersView, OpenWindowsTerminalParameters,
    OpenWindowsTerminalParametersView, PowerShellExecuteCommandParameters,
    PowerShellExecuteCommandParametersView,
};

verus! {

/// What a screen can ask PowerShell to do.
#[derive(Debug, PartialEq, Eq)]
pub enum Route {
    CopyToClipboard(CopyToClipboardParameters),
    ExecuteCommand(PowerShellExecuteCommandParameters),
    StartWindowsTerminal(OpenWindowsTerminalParameters),
}

/// `Route` as a value.
pub enum RouteView {
    CopyToClipboard(CopyToClipboardParametersView),
    ExecuteCommand(PowerShellExecuteCommandParametersView),
    StartWindowsTerminal(OpenWindowsTerminalParametersView),
}

impl View for Route {
    type V = RouteView;

    open spec fn view(&self) -> RouteView {
        match self {
            Route::CopyToClipboard(p) => RouteView::CopyToClipboard(p@),
            Route::ExecuteCommand(p) => RouteView::ExecuteCommand(p@),
            Route::StartWindowsTerminal(p) => RouteView::StartWindowsTerminal(p@),
        }
    }
}

} // verus!
