//! The settings window's state and its decisions.
//!
//! Every handler updates the state and returns, in order, the commands the
//! window layer must carry out: cage operations, tray and window requests,
//! saving. Where a decision needs the outcome of outside work (the cage
//! controller, the hotkey registration, the settings file), the handler is
//! split in two and the window layer reports the outcome back.

use crate::confine::CageMode;
use crate::custom_rect::{custom_fits, field_value, spec_parse_custom, CustomRect, CustomRectView};
use crate::domain::{CloseBehavior, Field, IconState, Mode, WindowInfo};
use crate::geometry::{fits_i32, ScreenRect};
use crate::hotkey::{
    opt_view, spec_describe, spec_describe_modifiers, spec_from_key, Captured, CapturedView,
    HotkeyMods, HotkeyRecorder, PhysicalKey,
};
use crate::monitor::MonitorInfo;
use crate::settings::{Settings, SettingsView};
use crate::text::{int_repr, nat_repr, spec_parse_i32, trim};
use crate::tray::TrayState;
use vstd::prelude::*;

verus! {

/// How the main window is shown.
#[derive(Debug, Clone, Copy, PartialEq, Eq, Structural)]
pub enum WindowMode {
    Windowed,
    Hidden,
}

/// One request to the window layer, carried out in the order given.
#[derive(Debug, Clone, Copy, PartialEq, Eq, Structural)]
pub enum Command {
    /// Stop confining the cursor.
    ReleaseCage,
    /// Retarget the active cage; a failure is reported with `report_update_error`.
    SetCageMode(CageMode),
    /// Change the active cage's padding; a failure is reported with `report_padding_error`.
    SetCagePadding(i32),
    /// Show the tray icon as active or idle.
    TrayActive(bool),
    /// Save the settings (`snapshot`), then report with `after_persist`.
    Persist,
    /// Rebind the hotkey to its default.
    ResetHotkey,
    /// Minimize (`true`) or un-minimize (`false`) the main window.
    Minimize(bool),
    SetWindowMode(WindowMode),
    GainFocus,
    SetIcon(IconState),
    CloseMain,
    /// Ask whether the main window is minimized; answer with `on_minimize_state_checked`.
    ProbeMinimized,
    /// Open the rectangle-drawing overlay.
    OpenRectWindow,
    /// Close the rectangle-drawing overlay.
    CloseRectWindow,
    /// Re-derive the active cage from the settings, now that the commands
    /// before this one have run: call `refresh_controller_mode` and carry out
    /// what it answers.
    RefreshCage,
}

/// Which window a close request concerns.
#[derive(Debug, Clone, Copy, PartialEq, Eq, Structural)]
pub enum WindowRole {
    Main,
    RectOverlay,
    Other,
}

/// What pressing the action button leads to.
#[derive(Debug, Clone, Copy, PartialEq, Eq, Structural)]
pub enum Toggle {
    /// The cage was released; carry out the commands.
    Released,
    /// Activate the cage controller with this target and padding, then call `finish_activate`.
    Activate(CageMode, i32),
    /// Activation was refused; the status says why.
    Refused,
}

/// What the hotkey part of a tick does.
#[derive(Debug, Clone, Copy, PartialEq, Eq, Structural)]
pub enum HotkeyPoll {
    /// Discard pending hotkey events (a recording is running).
    Drain,
    /// Toggle when the bound hotkey was pressed.
    Poll,
}

/// The state of the settings window.
pub struct AppCore {
    pub mode: Mode,
    pub is_active: bool,
    pub monitors: Vec<MonitorInfo>,
    pub selected_monitor: usize,
    pub custom: CustomRect,
    pub padding: String,
    /// Whether the main window has opened (window requests need it).
    pub main_window: bool,
    /// The main window's own handle, once known.
    pub window_hwnd: Option<isize>,
    pub external_windows: Vec<WindowInfo>,
    pub selected_window_hwnd: Option<isize>,
    pub minimize_on_activate: bool,
    pub launch_on_startup: bool,
    pub close_behavior: CloseBehavior,
    pub recorder: HotkeyRecorder,
    pub reset_pending: bool,
    pub drawing_rect: bool,
    pub tray: TrayState,
    pub status: String,
}

// ---------------------------------------------------------------------------
// Messages
// ---------------------------------------------------------------------------

pub open spec fn msg_cannot_activate(e: Seq<char>) -> Seq<char> {
    "cannot activate: "@ + e
}

pub open spec fn msg_activate_error(e: Seq<char>) -> Seq<char> {
    "activate error: "@ + e
}

pub open spec fn msg_auto_released(e: Seq<char>) -> Seq<char> {
    "auto-released: "@ + e
}

pub open spec fn msg_update_error(e: Seq<char>) -> Seq<char> {
    "update error: "@ + e
}

pub open spec fn msg_padding_error(e: Seq<char>) -> Seq<char> {
    "padding error: "@ + e
}

pub open spec fn msg_padding(e: Seq<char>) -> Seq<char> {
    "padding: "@ + e
}

/// The status after activating a cage on `mode`.
pub open spec fn msg_active(mode: CageMode) -> Seq<char> {
    match mode {
        CageMode::Window { .. } => "active — app window"@,
        CageMode::Fixed(r) => "active — "@ + int_repr(r.spec_width()) + "×"@ + int_repr(
            r.spec_height(),
        ) + " at ("@ + int_repr(r.left as int) + ","@ + int_repr(r.top as int) + ")"@,
    }
}

/// The status after drawing a rectangle.
pub open spec fn msg_rect_set(left: i32, top: i32, w: i32, h: i32) -> Seq<char> {
    "rect set: "@ + int_repr(w as int) + "×"@ + int_repr(h as int) + " at ("@ + int_repr(
        left as int,
    ) + ","@ + int_repr(top as int) + ")"@
}

pub open spec fn msg_count(prefix: Seq<char>, n: nat, suffix: Seq<char>) -> Seq<char> {
    prefix + nat_repr(n) + suffix
}

/// The status shown at start-up.
pub open spec fn msg_ready(hotkey: Option<Seq<char>>) -> Seq<char> {
    match hotkey {
        Some(d) => "ready — global hotkey "@ + d,
        None => "ready — global hotkey unavailable"@,
    }
}

// ---------------------------------------------------------------------------
// Readings of the state
// ---------------------------------------------------------------------------

/// The padding a text field holds: blank is zero.
pub open spec fn spec_parse_padding(text: Seq<char>) -> Result<i32, Seq<char>> {
    if trim(text).len() == 0 {
        Ok(0)
    } else {
        match spec_parse_i32(trim(text)) {
            Some(v) => Ok(v),
            None => Err("padding not a number"@),
        }
    }
}

/// Whether a typed value is complete enough to save: a number, or for the
/// padding also blank.
pub open spec fn spec_field_valid(field: Field, value: Seq<char>) -> bool {
    match field {
        Field::Padding => trim(value).len() == 0 || spec_parse_i32(trim(value)) is Some,
        _ => spec_parse_i32(trim(value)) is Some,
    }
}

/// The monitor index to use: the selection, clamped to the list.
pub open spec fn clamp_index(selected: usize, len: nat) -> int {
    if selected < len {
        selected as int
    } else {
        len - 1
    }
}

/// The mathematical content of [`AppCore`].
pub struct AppView {
    pub mode: Mode,
    pub is_active: bool,
    pub monitors: Seq<MonitorInfo>,
    pub selected_monitor: usize,
    pub custom: CustomRectView,
    pub padding: Seq<char>,
    pub main_window: bool,
    pub window_hwnd: Option<isize>,
    pub external_windows: Seq<WindowInfo>,
    pub selected_window_hwnd: Option<isize>,
    pub minimize_on_activate: bool,
    pub launch_on_startup: bool,
    pub close_behavior: CloseBehavior,
    pub recording: bool,
    pub pending: Option<CapturedView>,
    pub pending_mods: HotkeyMods,
    pub reset_pending: bool,
    pub drawing_rect: bool,
    pub tray: TrayState,
    pub status: Seq<char>,
}

impl View for AppCore {
    type V = AppView;

    open spec fn view(&self) -> AppView {
        AppView {
            mode: self.mode,
            is_active: self.is_active,
            monitors: self.monitors@,
            selected_monitor: self.selected_monitor,
            custom: self.custom@,
            padding: self.padding@,
            main_window: self.main_window,
            window_hwnd: self.window_hwnd,
            external_windows: self.external_windows@,
            selected_window_hwnd: self.selected_window_hwnd,
            minimize_on_activate: self.minimize_on_activate,
            launch_on_startup: self.launch_on_startup,
            close_behavior: self.close_behavior,
            recording: self.recorder.recording,
            pending: opt_view(self.recorder.pending),
            pending_mods: self.recorder.pending_mods,
            reset_pending: self.reset_pending,
            drawing_rect: self.drawing_rect,
            tray: self.tray,
            status: self.status@,
        }
    }
}

impl AppView {
    /// The cage the current settings describe.
    pub open spec fn cage_mode(self) -> Result<CageMode, Seq<char>> {
        match self.mode {
            Mode::Window => match self.selected_window_hwnd {
                Some(h) => Ok(CageMode::Window { hwnd: h }),
                None => match self.window_hwnd {
                    Some(h) => Ok(CageMode::Window { hwnd: h }),
                    None => Err("no target window selected"@),
                },
            },
            Mode::Monitor => if self.monitors.len() == 0 {
                Err("no monitors enumerated"@)
            } else {
                Ok(
                    CageMode::Fixed(
                        self.monitors[clamp_index(self.selected_monitor, self.monitors.len())].bounds,
                    ),
                )
            },
            Mode::Custom => match spec_parse_custom(self.custom) {
                Ok(r) => Ok(CageMode::Fixed(r)),
                Err(e) => Err(e),
            },
        }
    }

    /// Whether the cage can be described without leaving the `i32` range.
    pub open spec fn cage_fits(self) -> bool {
        self.mode == Mode::Custom ==> custom_fits(self.custom)
    }

    /// The selection names a monitor whenever there is one.
    pub open spec fn selection_ok(self) -> bool {
        self.selected_monitor == 0 || self.selected_monitor < self.monitors.len()
    }

    /// What pressing the action button while idle leads to: the cage and
    /// padding, or the first error (the target's before the padding's).
    pub open spec fn activation(self) -> Result<(CageMode, i32), Seq<char>> {
        match self.cage_mode() {
            Err(e) => Err(e),
            Ok(m) => match spec_parse_padding(self.padding) {
                Err(e) => Err(e),
                Ok(p) => Ok((m, p)),
            },
        }
    }

    /// The settings the state describes, with the given saved hotkey text.
    /// Rectangle fields and padding still being edited fall back to
    /// 100, 100, 800, 600 and 0.
    pub open spec fn snapshot(self, hotkey: Option<Seq<char>>) -> SettingsView {
        SettingsView {
            mode: self.mode,
            selected_monitor: self.selected_monitor,
            custom_left: match field_value(self.custom.left) {
                Some(v) => v,
                None => 100,
            },
            custom_top: match field_value(self.custom.top) {
                Some(v) => v,
                None => 100,
            },
            custom_width: match field_value(self.custom.width) {
                Some(v) => v,
                None => 800,
            },
            custom_height: match field_value(self.custom.height) {
                Some(v) => v,
                None => 600,
            },
            padding: match field_value(self.padding) {
                Some(v) => v,
                None => 0,
            },
            minimize_on_activate: self.minimize_on_activate,
            close_behavior: self.close_behavior,
            hotkey,
        }
    }
}

// ---------------------------------------------------------------------------
// Construction and readings
// ---------------------------------------------------------------------------

fn clamp_selection(selected: usize, len: usize) -> (r: usize)
    ensures
        len == 0 ==> r == 0,
        len > 0 ==> r == if selected < len {
            selected
        } else {
            (len - 1) as usize
        },
{
    if len == 0 {
        0
    } else if selected < len - 1 {
        selected
    } else {
        len - 1
    }
}

impl AppCore {
    /// The state at start-up from the saved settings, the displays and
    /// windows found, the start-up registration, and the bound hotkey's
    /// description (none when global hotkeys are unavailable).
    pub fn new(
        saved: &Settings,
        monitors: Vec<MonitorInfo>,
        windows: Vec<WindowInfo>,
        launch_on_startup: bool,
        hotkey_description: Option<&str>,
    ) -> (c: AppCore)
        ensures
            c.mode == saved.mode,
            !c.is_active,
            c.monitors@ == monitors@,
            monitors@.len() == 0 ==> c.selected_monitor == 0,
            monitors@.len() > 0 ==> c.selected_monitor == clamp_index(
                saved.selected_monitor,
                monitors@.len(),
            ),
            c.custom@ == (CustomRectView {
                left: int_repr(saved.custom_left as int),
                top: int_repr(saved.custom_top as int),
                width: int_repr(saved.custom_width as int),
                height: int_repr(saved.custom_height as int),
            }),
            field_value(c.custom@.left) == Some(saved.custom_left),
            field_value(c.custom@.top) == Some(saved.custom_top),
            field_value(c.custom@.width) == Some(saved.custom_width),
            field_value(c.custom@.height) == Some(saved.custom_height),
            c.padding@ == int_repr(saved.padding as int),
            !c.main_window,
            c.window_hwnd is None,
            c.external_windows@ == windows@,
            c.selected_window_hwnd is None,
            c.minimize_on_activate == saved.minimize_on_activate,
            c.launch_on_startup == launch_on_startup,
            c.close_behavior == saved.close_behavior,
            !c.recorder.recording,
            c.recorder.pending is None,
            c.recorder.pending_mods == HotkeyMods::spec_none(),
            !c.reset_pending,
            !c.drawing_rect,
            !c.tray.hidden && !c.tray.checking_minimized,
            c.status@ == msg_ready(
                match hotkey_description {
                    Some(d) => Some(d@),
                    None => None,
                },
            ),
            c@.selection_ok(),
    {
        let status = match hotkey_description {
            Some(d) => String::from_str("ready — global hotkey ").concat(d),
            None => String::from_str("ready — global hotkey unavailable"),
        };
        let selected = clamp_selection(saved.selected_monitor, monitors.len());
        let custom = CustomRect::new(
            saved.custom_left,
            saved.custom_top,
            saved.custom_width,
            saved.custom_height,
        );
        proof {
            crate::custom_rect::lemma_custom_values(
                saved.custom_left,
                saved.custom_top,
                saved.custom_width,
                saved.custom_height,
            );
        }
        AppCore {
            mode: saved.mode,
            is_active: false,
            monitors,
            selected_monitor: selected,
            custom,
            padding: crate::text::i32_to_string(saved.padding),
            main_window: false,
            window_hwnd: None,
            external_windows: windows,
            selected_window_hwnd: None,
            minimize_on_activate: saved.minimize_on_activate,
            launch_on_startup,
            close_behavior: saved.close_behavior,
            recorder: HotkeyRecorder::new(),
            reset_pending: false,
            drawing_rect: false,
            tray: TrayState::new(),
            status,
        }
    }

    /// The window title.
    pub fn title(&self) -> (s: String)
        ensures
            s@ == if self.is_active {
                "Cursory — active"@
            } else {
                "Cursory — idle"@
            },
    {
        if self.is_active {
            String::from_str("Cursory — active")
        } else {
            String::from_str("Cursory — idle")
        }
    }

    /// The cage the current settings describe, or why there is none.
    pub fn build_cage_mode(&self) -> (r: Result<CageMode, String>)
        requires
            self@.cage_fits(),
        ensures
            match r {
                Ok(m) => self@.cage_mode() == Ok::<CageMode, Seq<char>>(m),
                Err(e) => self@.cage_mode() == Err::<CageMode, Seq<char>>(e@),
            },
    {
        match self.mode {
            Mode::Window => {
                let hwnd = match self.selected_window_hwnd {
                    Some(h) => h,
                    None => match self.window_hwnd {
                        Some(h) => h,
                        None => return Err(String::from_str("no target window selected")),
                    },
                };
                Ok(CageMode::Window { hwnd })
            },
            Mode::Monitor => {
                if self.monitors.len() == 0 {
                    return Err(String::from_str("no monitors enumerated"));
                }
                let idx = clamp_selection(self.selected_monitor, self.monitors.len());
                Ok(CageMode::Fixed(self.monitors[idx].bounds))
            },
            Mode::Custom => match self.custom.parse() {
                Ok(r) => Ok(CageMode::Fixed(r)),
                Err(e) => Err(e),
            },
        }
    }

    /// The padding field's value; blank is zero.
    pub fn parse_padding(&self) -> (r: Result<i32, String>)
        ensures
            match r {
                Ok(p) => spec_parse_padding(self.padding@) == Ok::<i32, Seq<char>>(p),
                Err(e) => spec_parse_padding(self.padding@) == Err::<i32, Seq<char>>(e@),
            },
    {
        if crate::text::is_blank(self.padding.as_str()) {
            return Ok(0);
        }
        match crate::text::parse_i32_trimmed(self.padding.as_str()) {
            Some(v) => Ok(v),
            None => Err(String::from_str("padding not a number")),
        }
    }

    /// The settings to save, given the bound hotkey's saved form.
    pub fn snapshot(&self, hotkey: Option<String>) -> (s: Settings)
        ensures
            s@ == self@.snapshot(
                match hotkey {
                    Some(h) => Some(h@),
                    None => None,
                },
            ),
    {
        let padding = match crate::text::parse_i32_trimmed(self.padding.as_str()) {
            Some(v) => v,
            None => 0,
        };
        Settings {
            mode: self.mode,
            selected_monitor: self.selected_monitor,
            custom_left: self.custom.value_or(Field::Left, 100),
            custom_top: self.custom.value_or(Field::Top, 100),
            custom_width: self.custom.value_or(Field::Width, 800),
            custom_height: self.custom.value_or(Field::Height, 600),
            padding,
            minimize_on_activate: self.minimize_on_activate,
            close_behavior: self.close_behavior,
            hotkey,
        }
    }

    /// Records the outcome of saving: a failure's message becomes the status.
    /// Either way a pending reset confirmation is dropped.
    pub fn after_persist(&mut self, result: Result<(), String>)
        ensures
            old(self)@.selection_ok() ==> final(self)@.selection_ok(),
            final(self)@ == (AppView {
                reset_pending: false,
                status: match result {
                    Ok(()) => old(self)@.status,
                    Err(e) => e@,
                },
                ..old(self)@
            }),
    {
        if let Err(e) = result {
            self.status = e;
        }
        self.reset_pending = false;
    }
}

} // verus!
