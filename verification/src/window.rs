//! What happens when the user closes a window: the settings window only
//! hides, until the main window closes and takes it along.
use vstd::prelude::*;

verus! {

/// The windows of the client.
#[derive(Clone, Copy, Debug, PartialEq, Eq, Structural)]
pub enum WindowLabel {
    Main,
    Settings,
}

/// What to do with a request to close a window.
#[derive(Clone, Copy, Debug, PartialEq, Eq, Structural)]
pub enum CloseDecision {
    /// Keep the window and hide it.
    PreventAndHide,
    /// Let the window close.
    Allow,
    /// Let the main window close, and close the settings window too.
    AllowAndCloseSettings,
}

/// A request to close `window` while the client is exiting or not: the
/// decision, and whether the client exits afterwards.
pub open spec fn close_requested(exiting: bool, window: WindowLabel) -> (CloseDecision, bool) {
    match window {
        WindowLabel::Settings => (
            if exiting {
                CloseDecision::Allow
            } else {
                CloseDecision::PreventAndHide
            },
            exiting,
        ),
        WindowLabel::Main => (CloseDecision::AllowAndCloseSettings, true),
    }
}

/// The settings window only hides, however often it is closed, until the
/// main window closes; from then on it closes.
pub proof fn law_settings_hide_until_exit(first: WindowLabel)
    ensures
        close_requested(false, WindowLabel::Settings) == (CloseDecision::PreventAndHide, false),
        close_requested(close_requested(false, first).1, WindowLabel::Settings).0 == (if first
            == WindowLabel::Main {
            CloseDecision::Allow
        } else {
            CloseDecision::PreventAndHide
        }),
        close_requested(close_requested(false, WindowLabel::Main).1, WindowLabel::Main).0
            == CloseDecision::AllowAndCloseSettings,
{
}

/// Whether the client is exiting.
pub struct WindowPolicy {
    exit: bool,
}

impl WindowPolicy {
    /// A client that is not exiting.
    pub fn new() -> (res: Self)
        ensures
            !res.exiting(),
    {
        WindowPolicy { exit: false }
    }

    /// Whether the client is exiting.
    pub closed spec fn exiting(&self) -> bool {
        self.exit
    }

    /// Whether the client is exiting.
    pub fn is_exiting(&self) -> (r: bool)
        ensures
            r == self.exiting(),
    {
        self.exit
    }

    /// A request to close a window: closing the settings window hides it
    /// while the client runs; closing the main window makes the client exit
    /// and closes the settings window as well.
    pub fn on_close_requested(&mut self, window: WindowLabel) -> (d: CloseDecision)
        ensures
            (d, final(self).exiting()) == close_requested(old(self).exiting(), window),
    {
        match window {
            WindowLabel::Settings => {
                if self.exit {
                    CloseDecision::Allow
                } else {
                    CloseDecision::PreventAndHide
                }
            },
            WindowLabel::Main => {
                self.exit = true;
                CloseDecision::AllowAndCloseSettings
            },
        }
    }
}

} // verus!
