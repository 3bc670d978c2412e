//! Configuration vocabulary shared by the confinement logic, persistence and
//! the window layer.

use vstd::prelude::*;

verus! {

/// What the cursor is confined to.
#[derive(Debug, Clone, Copy, PartialEq, Eq, Structural)]
pub enum Mode {
    Window,
    Monitor,
    Custom,
}

impl Mode {
    pub open spec fn spec_label(self) -> Seq<char> {
        match self {
            Mode::Window => "App window"@,
            Mode::Monitor => "Monitor"@,
            Mode::Custom => "Custom rect"@,
        }
    }

    /// The label shown next to the mode's radio button.
    pub fn label(self) -> (s: &'static str)
        ensures
            s@ == self.spec_label(),
    {
        match self {
            Mode::Window => "App window",
            Mode::Monitor => "Monitor",
            Mode::Custom => "Custom rect",
        }
    }
}

/// What the window's close button does.
#[derive(Debug, Clone, Copy, PartialEq, Eq, Structural)]
pub enum CloseBehavior {
    ToTray,
    Exit,
}

/// One of the numeric text inputs of the settings window.
#[derive(Debug, Clone, Copy, PartialEq, Eq, Structural)]
pub enum Field {
    Left,
    Top,
    Width,
    Height,
    Padding,
}

/// An entry of the target-window picker.
#[derive(Debug, Clone, PartialEq, Eq)]
pub struct WindowChoice {
    pub hwnd: isize,
    pub label: String,
}

/// A visible top-level window with a title.
#[derive(Debug, Clone)]
pub struct WindowInfo {
    pub hwnd: isize,
    pub title: String,
}

/// Which of the two icon variants to show.
#[derive(Debug, Clone, Copy, PartialEq, Eq, Structural)]
pub enum IconState {
    Idle,
    Active,
}

/// The part of a drawn rectangle that a pointer press grabbed.
#[derive(Debug, Clone, Copy, PartialEq, Eq, Structural)]
pub enum Handle {
    Move,
    N,
    S,
    E,
    W,
    NE,
    NW,
    SE,
    SW,
}

/// What the tray icon reports to the application.
#[derive(Debug, Clone, Copy, PartialEq, Eq, Structural)]
pub enum TrayEvent {
    RestoreRequested,
}

} // verus!
