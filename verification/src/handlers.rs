//! How the settings window reacts to each message.

use crate::app_core::{
    msg_activate_error, msg_active, msg_auto_released, msg_cannot_activate, msg_padding,
    msg_padding_error, msg_rect_set, msg_update_error, spec_field_valid, spec_parse_padding,
    AppCore, AppView, Command, HotkeyPoll, Toggle, WindowMode, WindowRole,
};
use crate::confine::CageMode;
use crate::custom_rect::{custom_fits, with_field, CustomRect, CustomRectView};
use crate::domain::{CloseBehavior, Field, IconState, Mode, WindowInfo};
use crate::geometry::fits_i32;
use crate::hotkey::{
    describe_captured, describe_modifiers, from_iced, is_cancel_key, opt_view, spec_describe,
    spec_describe_modifiers, spec_from_key, Captured, CapturedView, HotkeyMods, PhysicalKey,
};
use crate::monitor::MonitorInfo;
use crate::text::{i32_to_string, int_repr, nat_repr, usize_to_string};
use vstd::prelude::*;

verus! {

// ---------------------------------------------------------------------------
// Specifications of the transitions
// ---------------------------------------------------------------------------

/// Re-deriving the cage after a settings change. Nothing happens while idle;
/// while active the cage is retargeted, or released when the settings no
/// longer describe one.
pub open spec fn spec_refresh(v: AppView) -> (AppView, Seq<Command>) {
    if !v.is_active {
        (v, Seq::empty())
    } else {
        match v.cage_mode() {
            Ok(m) => (v, seq![Command::SetCageMode(m)]),
            Err(e) => (
                AppView { is_active: false, status: msg_auto_released(e), ..v },
                seq![Command::ReleaseCage, Command::TrayActive(false)],
            ),
        }
    }
}

/// Applying a changed padding to the active cage.
pub open spec fn spec_refresh_padding(v: AppView) -> (AppView, Seq<Command>) {
    if !v.is_active {
        (v, Seq::empty())
    } else {
        match spec_parse_padding(v.padding) {
            Ok(p) => (v, seq![Command::SetCagePadding(p)]),
            Err(e) => (AppView { status: msg_padding(e), ..v }, Seq::empty()),
        }
    }
}

/// Releasing the cage.
pub open spec fn spec_deactivate(v: AppView) -> (AppView, Seq<Command>) {
    (
        AppView { is_active: false, status: "released"@, ..v },
        seq![Command::ReleaseCage, Command::TrayActive(false)] + if v.main_window {
            if v.minimize_on_activate {
                seq![Command::Minimize(false), Command::SetIcon(IconState::Idle)]
            } else {
                seq![Command::SetIcon(IconState::Idle)]
            }
        } else {
            Seq::empty()
        },
    )
}

/// Whether the cage is the settings window itself.
pub open spec fn targets_self(v: AppView, mode: CageMode) -> bool {
    mode matches CageMode::Window { hwnd } && v.window_hwnd == Some(hwnd)
}

/// Hiding the main window in the tray, or only minimizing it when there is no tray.
pub open spec fn spec_hide_to_tray(v: AppView, tray_available: bool) -> (AppView, Seq<Command>) {
    let v1 = AppView { tray: crate::tray::TrayState { checking_minimized: false, ..v.tray }, ..v };
    if !tray_available {
        (
            AppView { status: "tray unavailable — minimized"@, ..v1 },
            if v.main_window {
                seq![Command::Minimize(true)]
            } else {
                Seq::empty()
            },
        )
    } else {
        (
            AppView {
                tray: crate::tray::TrayState { hidden: true, ..v1.tray },
                status: "hidden to tray — double-click tray icon to restore"@,
                ..v1
            },
            if v.main_window {
                seq![Command::Minimize(false), Command::SetWindowMode(WindowMode::Hidden)]
            } else {
                Seq::empty()
            },
        )
    }
}

/// Bringing the main window back from the tray.
pub open spec fn spec_restore_from_tray(v: AppView) -> (AppView, Seq<Command>) {
    (
        AppView {
            tray: crate::tray::TrayState { hidden: false, ..v.tray },
            status: "restored"@,
            ..v
        },
        if v.main_window {
            seq![
                Command::SetWindowMode(WindowMode::Windowed),
                Command::Minimize(false),
                Command::GainFocus,
            ]
        } else {
            Seq::empty()
        },
    )
}

/// A successful activation on `mode`.
pub open spec fn spec_activated(v: AppView, mode: CageMode) -> (AppView, Seq<Command>) {
    (
        AppView { is_active: true, status: msg_active(mode), ..v },
        seq![Command::TrayActive(true)] + if v.main_window {
            if v.minimize_on_activate && !targets_self(v, mode) {
                seq![Command::Minimize(true), Command::SetIcon(IconState::Active)]
            } else {
                seq![Command::SetIcon(IconState::Active)]
            }
        } else {
            Seq::empty()
        },
    )
}

/// "Reset to defaults": the first click only asks for confirmation; the
/// second restores the defaults and asks to rebind the default hotkey and to
/// save; an active cage is then re-derived, after the save.
pub open spec fn spec_reset(v: AppView) -> (AppView, Seq<Command>) {
    if !v.reset_pending {
        (AppView { reset_pending: true, status: "click Reset again to confirm"@, ..v }, Seq::empty())
    } else {
        (
            AppView { status: "settings reset to defaults"@, ..spec_defaults_applied(v) },
            if v.is_active {
                seq![Command::ResetHotkey, Command::Persist, Command::RefreshCage]
            } else {
                seq![Command::ResetHotkey, Command::Persist]
            },
        )
    }
}

/// Leaving the rectangle-drawing overlay.
pub open spec fn spec_exit_draw(v: AppView) -> (AppView, Seq<Command>) {
    (
        AppView { drawing_rect: false, ..v },
        seq![Command::CloseRectWindow] + if v.main_window {
            seq![Command::SetWindowMode(WindowMode::Windowed), Command::GainFocus]
        } else {
            Seq::empty()
        },
    )
}

/// Whether the rectangle stays describable after `field` becomes `value`.
pub open spec fn edit_fits(v: AppView, field: Field, value: Seq<char>) -> bool {
    v.is_active && v.mode == Mode::Custom ==> custom_fits(with_field(v.custom, field, value))
}

/// Two monitor lists describe the same displays.
pub open spec fn same_monitors(a: Seq<MonitorInfo>, b: Seq<MonitorInfo>) -> bool {
    &&& a.len() == b.len()
    &&& forall|i: int|
        0 <= i < a.len() ==> {
            &&& (#[trigger] a[i]).name@ == b[i].name@
            &&& a[i].bounds == b[i].bounds
            &&& a[i].work_area == b[i].work_area
            &&& a[i].is_primary == b[i].is_primary
        }
}

/// The settings after a reset: the defaults, except the selection, which
/// goes to the first monitor.
pub open spec fn spec_defaults_applied(v: AppView) -> AppView {
    AppView {
        mode: Mode::Monitor,
        selected_monitor: 0,
        custom: CustomRectView {
            left: int_repr(100),
            top: int_repr(100),
            width: int_repr(800),
            height: int_repr(600),
        },
        padding: int_repr(4),
        minimize_on_activate: true,
        close_behavior: CloseBehavior::ToTray,
        reset_pending: false,
        ..v
    }
}

// ---------------------------------------------------------------------------
// Helpers
// ---------------------------------------------------------------------------

fn prefixed(prefix: &str, e: &str) -> (s: String)
    ensures
        s@ == prefix@ + e@,
{
    String::from_str(prefix).concat(e)
}

fn counted(prefix: &str, n: usize, suffix: &str) -> (s: String)
    ensures
        s@ == prefix@ + nat_repr(n as nat) + suffix@,
{
    let mut s = String::from_str(prefix);
    s.append(usize_to_string(n).as_str());
    s.append(suffix);
    s
}

fn monitor_same(a: &MonitorInfo, b: &MonitorInfo) -> (r: bool)
    ensures
        r == (a.name@ == b.name@ && a.bounds == b.bounds && a.work_area == b.work_area
            && a.is_primary == b.is_primary),
{
    a.name == b.name && a.bounds == b.bounds && a.work_area == b.work_area && a.is_primary
        == b.is_primary
}

fn monitors_same(a: &Vec<MonitorInfo>, b: &Vec<MonitorInfo>) -> (r: bool)
    ensures
        r == same_monitors(a@, b@),
{
    if a.len() != b.len() {
        return false;
    }
    let mut i: usize = 0;
    while i < a.len()
        invariant
            a@.len() == b@.len(),
            i <= a@.len(),
            forall|j: int|
                0 <= j < i ==> {
                    &&& (#[trigger] a@[j]).name@ == b@[j].name@
                    &&& a@[j].bounds == b@[j].bounds
                    &&& a@[j].work_area == b@[j].work_area
                    &&& a@[j].is_primary == b@[j].is_primary
                },
        decreases a@.len() - i,
    {
        if !monitor_same(&a[i], &b[i]) {
            return false;
        }
        i = i + 1;
    }
    true
}

fn rect_status(left: i32, top: i32, w: i32, h: i32) -> (s: String)
    ensures
        s@ == msg_rect_set(left, top, w, h),
{
    let mut s = String::from_str("rect set: ");
    s.append(i32_to_string(w).as_str());
    s.append("×");
    s.append(i32_to_string(h).as_str());
    s.append(" at (");
    s.append(i32_to_string(left).as_str());
    s.append(",");
    s.append(i32_to_string(top).as_str());
    s.append(")");
    s
}

/// Whether `finish_activate` can describe `mode` (a fixed rectangle's
/// width and height stay in the `i32` range).
pub fn active_message_fits(mode: CageMode) -> (b: bool)
    ensures
        b == (mode matches CageMode::Fixed(r) ==> fits_i32(r.spec_width()) && fits_i32(
            r.spec_height(),
        )),
{
    match mode {
        CageMode::Window { .. } => true,
        CageMode::Fixed(r) => {
            let w = r.right as i64 - r.left as i64;
            let h = r.bottom as i64 - r.top as i64;
            i32::MIN as i64 <= w && w <= i32::MAX as i64 && i32::MIN as i64 <= h && h
                <= i32::MAX as i64
        },
    }
}

fn active_status(mode: CageMode) -> (s: String)
    requires
        mode matches CageMode::Fixed(r) ==> fits_i32(r.spec_width()) && fits_i32(r.spec_height()),
    ensures
        s@ == msg_active(mode),
{
    match mode {
        CageMode::Window { .. } => String::from_str("active — app window"),
        CageMode::Fixed(r) => {
            let mut s = String::from_str("active — ");
            s.append(i32_to_string(r.width()).as_str());
            s.append("×");
            s.append(i32_to_string(r.height()).as_str());
            s.append(" at (");
            s.append(i32_to_string(r.left).as_str());
            s.append(",");
            s.append(i32_to_string(r.top).as_str());
            s.append(")");
            s
        },
    }
}

// ---------------------------------------------------------------------------
// Handlers
// ---------------------------------------------------------------------------

impl AppCore {
    /// Re-derives the active cage after a settings change.
    pub fn refresh_controller_mode(&mut self) -> (cmds: Vec<Command>)
        requires
            old(self)@.is_active ==> old(self)@.cage_fits(),
        ensures
            old(self)@.selection_ok() ==> final(self)@.selection_ok(),
            (final(self)@, cmds@) == spec_refresh(old(self)@),
    {
        if !self.is_active {
            return Vec::new();
        }
        match self.build_cage_mode() {
            Ok(mode) => vec![Command::SetCageMode(mode)],
            Err(e) => {
                self.is_active = false;
                self.status = prefixed("auto-released: ", e.as_str());
                vec![Command::ReleaseCage, Command::TrayActive(false)]
            },
        }
    }

    /// Records that the cage controller refused a retarget.
    pub fn report_update_error(&mut self, e: &str)
        ensures
            old(self)@.selection_ok() ==> final(self)@.selection_ok(),
            final(self)@ == (AppView { status: msg_update_error(e@), ..old(self)@ }),
    {
        self.status = prefixed("update error: ", e);
    }

    /// Applies a changed padding to the active cage.
    pub fn refresh_padding(&mut self) -> (cmds: Vec<Command>)
        ensures
            old(self)@.selection_ok() ==> final(self)@.selection_ok(),
            (final(self)@, cmds@) == spec_refresh_padding(old(self)@),
    {
        if !self.is_active {
            return Vec::new();
        }
        match self.parse_padding() {
            Ok(p) => vec![Command::SetCagePadding(p)],
            Err(e) => {
                self.status = prefixed("padding: ", e.as_str());
                Vec::new()
            },
        }
    }

    /// Records that the cage controller refused a padding.
    pub fn report_padding_error(&mut self, e: &str)
        ensures
            old(self)@.selection_ok() ==> final(self)@.selection_ok(),
            final(self)@ == (AppView { status: msg_padding_error(e@), ..old(self)@ }),
    {
        self.status = prefixed("padding error: ", e);
    }

    /// Releases the cage.
    pub fn deactivate(&mut self) -> (cmds: Vec<Command>)
        ensures
            old(self)@.selection_ok() ==> final(self)@.selection_ok(),
            (final(self)@, cmds@) == spec_deactivate(old(self)@),
    {
        self.is_active = false;
        self.status = String::from_str("released");
        let mut cmds = vec![Command::ReleaseCage, Command::TrayActive(false)];
        if self.main_window {
            if self.minimize_on_activate {
                cmds.push(Command::Minimize(false));
            }
            cmds.push(Command::SetIcon(IconState::Idle));
        }
        proof {
            assert(cmds@ =~= spec_deactivate(old(self)@).1);
        }
        cmds
    }

    /// The action button: release while active; otherwise start activating,
    /// or refuse with the reason in the status.
    pub fn toggle(&mut self) -> (r: (Toggle, Vec<Command>))
        requires
            !old(self)@.is_active ==> old(self)@.cage_fits(),
        ensures
            old(self)@.selection_ok() ==> final(self)@.selection_ok(),
            old(self)@.is_active ==> r.0 == Toggle::Released && (final(self)@, r.1@)
                == spec_deactivate(old(self)@),
            !old(self)@.is_active ==> r.1@.len() == 0 && match old(self)@.activation() {
                Ok((m, p)) => r.0 == Toggle::Activate(m, p) && final(self)@ == old(self)@,
                Err(e) => r.0 == Toggle::Refused && final(self)@ == (AppView {
                    status: msg_cannot_activate(e),
                    ..old(self)@
                }),
            },
    {
        if self.is_active {
            let cmds = self.deactivate();
            return (Toggle::Released, cmds);
        }
        let mode = self.build_cage_mode();
        let mode = match mode {
            Ok(m) => m,
            Err(e) => {
                self.status = prefixed("cannot activate: ", e.as_str());
                return (Toggle::Refused, Vec::new());
            },
        };
        match self.parse_padding() {
            Ok(p) => (Toggle::Activate(mode, p), Vec::new()),
            Err(e) => {
                self.status = prefixed("cannot activate: ", e.as_str());
                (Toggle::Refused, Vec::new())
            },
        }
    }

    /// Completes an activation with the cage controller's answer.
    pub fn finish_activate(&mut self, mode: CageMode, result: Result<(), String>) -> (cmds: Vec<
        Command,
    >)
        requires
            result is Ok ==> (mode matches CageMode::Fixed(r) ==> fits_i32(r.spec_width())
                && fits_i32(r.spec_height())),
        ensures
            old(self)@.selection_ok() ==> final(self)@.selection_ok(),
            match result {
                Err(e) => final(self)@ == (AppView {
                    status: msg_activate_error(e@),
                    ..old(self)@
                }) && cmds@.len() == 0,
                Ok(()) => (final(self)@, cmds@) == spec_activated(old(self)@, mode),
            },
    {
        match result {
            Err(e) => {
                self.status = prefixed("activate error: ", e.as_str());
                Vec::new()
            },
            Ok(()) => {
                self.is_active = true;
                self.status = active_status(mode);
                let target_is_self = match mode {
                    CageMode::Window { hwnd } => self.window_hwnd == Some(hwnd),
                    CageMode::Fixed(_) => false,
                };
                let mut cmds = vec![Command::TrayActive(true)];
                if self.main_window {
                    if self.minimize_on_activate && !target_is_self {
                        cmds.push(Command::Minimize(true));
                    }
                    cmds.push(Command::SetIcon(IconState::Active));
                }
                proof {
                    assert(cmds@ =~= seq![Command::TrayActive(true)] + if old(self)@.main_window {
                        if old(self)@.minimize_on_activate && !targets_self(old(self)@, mode) {
                            seq![Command::Minimize(true), Command::SetIcon(IconState::Active)]
                        } else {
                            seq![Command::SetIcon(IconState::Active)]
                        }
                    } else {
                        Seq::<Command>::empty()
                    });
                }
                cmds
            },
        }
    }

    /// A mode radio button.
    pub fn on_mode_selected(&mut self, mode: Mode) -> (cmds: Vec<Command>)
        requires
            old(self)@.is_active ==> (AppView { mode, ..old(self)@ }).cage_fits(),
        ensures
            old(self)@.selection_ok() ==> final(self)@.selection_ok(),
            ({
                let (v, c) = spec_refresh(AppView { mode, ..old(self)@ });
                final(self)@ == v && cmds@ == c.push(Command::Persist)
            }),
    {
        self.mode = mode;
        let mut cmds = self.refresh_controller_mode();
        cmds.push(Command::Persist);
        cmds
    }

    /// A click on a monitor of the preview; an index past the list is ignored.
    pub fn on_monitor_selected(&mut self, i: usize) -> (cmds: Vec<Command>)
        requires
            old(self)@.is_active ==> old(self)@.cage_fits(),
        ensures
            i >= old(self)@.monitors.len() ==> final(self)@ == old(self)@ && cmds@.len() == 0,
            i < old(self)@.monitors.len() ==> ({
                let (v, c) = spec_refresh(AppView { selected_monitor: i, ..old(self)@ });
                final(self)@ == v && cmds@ == c.push(Command::Persist)
            }),
            old(self)@.selection_ok() ==> final(self)@.selection_ok(),
    {
        if i < self.monitors.len() {
            self.selected_monitor = i;
            let mut cmds = self.refresh_controller_mode();
            cmds.push(Command::Persist);
            cmds
        } else {
            Vec::new()
        }
    }

    /// A pick in the target-window list.
    pub fn on_window_target_selected(&mut self, hwnd: isize) -> (cmds: Vec<Command>)
        requires
            old(self)@.is_active ==> old(self)@.cage_fits(),
        ensures
            old(self)@.selection_ok() ==> final(self)@.selection_ok(),
            (final(self)@, cmds@) == spec_refresh(
                AppView { selected_window_hwnd: Some(hwnd), ..old(self)@ },
            ),
    {
        self.selected_window_hwnd = Some(hwnd);
        self.refresh_controller_mode()
    }

    /// Typing in one of the numeric fields. The text is kept as typed; the
    /// cage follows it; it is saved only once it is a complete value.
    pub fn on_field_changed(&mut self, field: Field, value: String) -> (cmds: Vec<Command>)
        requires
            field != Field::Padding ==> edit_fits(old(self)@, field, value@),
            field == Field::Padding ==> (old(self)@.is_active ==> old(self)@.cage_fits()),
        ensures
            old(self)@.selection_ok() ==> final(self)@.selection_ok(),
            ({
                let edited = if field == Field::Padding {
                    AppView { padding: value@, ..old(self)@ }
                } else {
                    AppView { custom: with_field(old(self)@.custom, field, value@), ..old(self)@ }
                };
                let (v, c) = if field == Field::Padding {
                    spec_refresh_padding(edited)
                } else {
                    spec_refresh(edited)
                };
                &&& final(self)@ == v
                &&& cmds@ == if spec_field_valid(field, value@) {
                    c.push(Command::Persist)
                } else {
                    c
                }
            }),
    {
        let blank = crate::text::is_blank(value.as_str());
        let number = crate::text::parse_i32_trimmed(value.as_str()).is_some();
        let valid = match field {
            Field::Padding => blank || number,
            _ => number,
        };
        let mut cmds = match field {
            Field::Padding => {
                self.padding = value;
                self.refresh_padding()
            },
            _ => {
                self.custom.set(field, value);
                self.refresh_controller_mode()
            },
        };
        if valid {
            cmds.push(Command::Persist);
        }
        cmds
    }

    /// A fresh list of displays, asked for by the user.
    pub fn on_monitors_refreshed(&mut self, monitors: Vec<MonitorInfo>) -> (cmds: Vec<Command>)
        requires
            old(self)@.is_active ==> old(self)@.cage_fits(),
        ensures
            ({
                let sel = if old(self)@.selected_monitor >= monitors@.len() {
                    0
                } else {
                    old(self)@.selected_monitor
                };
                let (v, c) = spec_refresh(
                    AppView {
                        monitors: monitors@,
                        selected_monitor: sel,
                        status: "monitors refreshed ("@ + nat_repr(monitors@.len()) + " found)"@,
                        ..old(self)@
                    },
                );
                final(self)@ == v && cmds@ == c
            }),
            final(self)@.selection_ok(),
    {
        let n = monitors.len();
        self.monitors = monitors;
        if self.selected_monitor >= n {
            self.selected_monitor = 0;
        }
        self.status = counted("monitors refreshed (", n, " found)");
        self.refresh_controller_mode()
    }

    /// The periodic check of the display layout: a changed list replaces the
    /// old one and the cage follows; an unchanged list changes nothing.
    pub fn on_monitors_polled(&mut self, monitors: Vec<MonitorInfo>) -> (cmds: Vec<Command>)
        requires
            old(self)@.is_active ==> old(self)@.cage_fits(),
        ensures
            same_monitors(monitors@, old(self)@.monitors) ==> final(self)@ == old(self)@
                && cmds@.len() == 0,
            !same_monitors(monitors@, old(self)@.monitors) ==> ({
                let sel = if old(self)@.selected_monitor >= monitors@.len() {
                    0
                } else {
                    old(self)@.selected_monitor
                };
                let (v, c) = spec_refresh(
                    AppView {
                        monitors: monitors@,
                        selected_monitor: sel,
                        status: "display changed ("@ + nat_repr(monitors@.len())
                            + " monitor(s))"@,
                        ..old(self)@
                    },
                );
                final(self)@ == v && cmds@ == c
            }),
            old(self)@.selection_ok() ==> final(self)@.selection_ok(),
    {
        if monitors_same(&monitors, &self.monitors) {
            return Vec::new();
        }
        let n = monitors.len();
        self.monitors = monitors;
        if self.selected_monitor >= n {
            self.selected_monitor = 0;
        }
        self.status = counted("display changed (", n, " monitor(s))");
        self.refresh_controller_mode()
    }

    /// A fresh list of windows, asked for by the user.
    pub fn on_windows_refreshed(&mut self, windows: Vec<WindowInfo>) -> (cmds: Vec<Command>)
        requires
            old(self)@.is_active ==> old(self)@.cage_fits(),
        ensures
            old(self)@.selection_ok() ==> final(self)@.selection_ok(),
            (final(self)@, cmds@) == spec_refresh(
                AppView {
                    external_windows: windows@,
                    status: "windows refreshed ("@ + nat_repr(windows@.len()) + " found)"@,
                    ..old(self)@
                },
            ),
    {
        let n = windows.len();
        self.external_windows = windows;
        self.status = counted("windows refreshed (", n, " found)");
        self.refresh_controller_mode()
    }

    /// The main window has opened.
    pub fn on_window_opened(&mut self)
        ensures
            old(self)@.selection_ok() ==> final(self)@.selection_ok(),
            final(self)@ == (AppView { main_window: true, ..old(self)@ }),
    {
        self.main_window = true;
    }

    /// The main window's handle became known (or could not be read).
    pub fn on_hwnd_captured(&mut self, hwnd: Option<isize>) -> (cmds: Vec<Command>)
        requires
            old(self)@.is_active ==> old(self)@.cage_fits(),
        ensures
            old(self)@.selection_ok() ==> final(self)@.selection_ok(),
            hwnd is None ==> final(self)@ == (AppView {
                window_hwnd: None,
                status: "HWND capture failed"@,
                ..old(self)@
            }) && cmds@.len() == 0,
            hwnd is Some ==> (final(self)@, cmds@) == spec_refresh(
                AppView { window_hwnd: hwnd, ..old(self)@ },
            ),
    {
        self.window_hwnd = hwnd;
        if hwnd.is_none() {
            self.status = String::from_str("HWND capture failed");
            Vec::new()
        } else {
            self.refresh_controller_mode()
        }
    }

    pub fn on_minimize_on_activate_toggled(&mut self, v: bool) -> (cmds: Vec<Command>)
        ensures
            old(self)@.selection_ok() ==> final(self)@.selection_ok(),
            final(self)@ == (AppView { minimize_on_activate: v, ..old(self)@ }),
            cmds@ == seq![Command::Persist],
    {
        self.minimize_on_activate = v;
        vec![Command::Persist]
    }

    /// The outcome of changing the start-up registration.
    pub fn on_launch_on_startup_result(&mut self, result: Result<bool, String>)
        ensures
            old(self)@.selection_ok() ==> final(self)@.selection_ok(),
            match result {
                Ok(state) => final(self)@ == (AppView {
                    launch_on_startup: state,
                    status: if state {
                        "launch on startup enabled"@
                    } else {
                        "launch on startup disabled"@
                    },
                    ..old(self)@
                }),
                Err(e) => final(self)@ == (AppView {
                    status: "startup setting failed: "@ + e@,
                    ..old(self)@
                }),
            },
    {
        match result {
            Ok(state) => {
                self.launch_on_startup = state;
                self.status = if state {
                    String::from_str("launch on startup enabled")
                } else {
                    String::from_str("launch on startup disabled")
                };
            },
            Err(e) => {
                self.status = prefixed("startup setting failed: ", e.as_str());
            },
        }
    }

    pub fn on_close_behavior_selected(&mut self, b: CloseBehavior) -> (cmds: Vec<Command>)
        ensures
            old(self)@.selection_ok() ==> final(self)@.selection_ok(),
            final(self)@ == (AppView { close_behavior: b, ..old(self)@ }),
            cmds@ == seq![Command::Persist],
    {
        self.close_behavior = b;
        vec![Command::Persist]
    }

    // -- hotkey recording ----------------------------------------------------

    /// "Change": start recording, when global hotkeys are available.
    pub fn on_start_hotkey_record(&mut self, available: bool)
        ensures
            old(self)@.selection_ok() ==> final(self)@.selection_ok(),
            !available ==> final(self)@ == old(self)@,
            available ==> final(self)@ == (AppView {
                recording: true,
                pending: None,
                pending_mods: HotkeyMods::spec_none(),
                status: "press combo, then Confirm (esc to cancel)"@,
                ..old(self)@
            }),
    {
        if available {
            self.recorder.start();
            self.status = String::from_str("press combo, then Confirm (esc to cancel)");
        }
    }

    /// "Cancel": stop recording, keeping the bound hotkey.
    pub fn on_cancel_hotkey_record(&mut self)
        ensures
            old(self)@.selection_ok() ==> final(self)@.selection_ok(),
            final(self)@ == (AppView {
                recording: false,
                pending: None,
                pending_mods: HotkeyMods::spec_none(),
                status: "hotkey unchanged"@,
                ..old(self)@
            }),
    {
        self.recorder.stop();
        self.status = String::from_str("hotkey unchanged");
    }

    /// The outcome of binding the previewed combo: the new binding's
    /// description, or why it failed (recording then stays open).
    pub fn on_rebind_result(&mut self, result: Result<String, String>) -> (cmds: Vec<Command>)
        ensures
            old(self)@.selection_ok() ==> final(self)@.selection_ok(),
            match result {
                Ok(desc) => final(self)@ == (AppView {
                    recording: false,
                    pending: None,
                    pending_mods: HotkeyMods::spec_none(),
                    status: "hotkey set to "@ + desc@,
                    ..old(self)@
                }) && cmds@ == seq![Command::Persist],
                Err(e) => final(self)@ == (AppView {
                    pending: None,
                    pending_mods: HotkeyMods::spec_none(),
                    status: e@ + " — try another combo"@,
                    ..old(self)@
                }) && cmds@.len() == 0,
            },
    {
        match result {
            Ok(desc) => {
                self.recorder.stop();
                self.status = prefixed("hotkey set to ", desc.as_str());
                vec![Command::Persist]
            },
            Err(e) => {
                self.recorder.clear();
                self.status = String::from_str(e.as_str()).concat(" — try another combo");
                Vec::new()
            },
        }
    }

    /// A key press while recording: Escape cancels; a usable key becomes the
    /// preview; anything else only updates the held modifiers.
    pub fn on_key_captured(&mut self, physical: &PhysicalKey, mods: HotkeyMods)
        ensures
            old(self)@.selection_ok() ==> final(self)@.selection_ok(),
            is_cancel_key_spec(*physical) ==> final(self)@ == (AppView {
                recording: false,
                pending: None,
                pending_mods: HotkeyMods::spec_none(),
                status: "hotkey unchanged"@,
                ..old(self)@
            }),
            !is_cancel_key_spec(*physical) ==> match spec_from_key(*physical, mods) {
                Some(c) => final(self)@ == (AppView {
                    pending: Some(c),
                    pending_mods: mods,
                    status: "preview: "@ + spec_describe(c.mods, c.key) + " — click Confirm"@,
                    ..old(self)@
                }),
                None => final(self)@ == (AppView {
                    pending_mods: mods,
                    status: msg_held_modifiers(mods),
                    ..old(self)@
                }),
            },
    {
        if is_cancel_key(physical) {
            self.recorder.stop();
            self.status = String::from_str("hotkey unchanged");
            return;
        }
        let captured = from_iced(physical, mods);
        self.apply_capture(captured, mods);
    }

    fn apply_capture(&mut self, captured: Option<Captured>, mods: HotkeyMods)
        ensures
            match opt_view(captured) {
                Some(c) => final(self)@ == (AppView {
                    pending: Some(c),
                    pending_mods: mods,
                    status: "preview: "@ + spec_describe(c.mods, c.key) + " — click Confirm"@,
                    ..old(self)@
                }),
                None => final(self)@ == (AppView {
                    pending_mods: mods,
                    status: msg_held_modifiers(mods),
                    ..old(self)@
                }),
            },
    {
        self.recorder.set_modifiers(mods);
        match captured {
            Some(c) => {
                let status = preview_status(&c);
                self.recorder.set_combo(c);
                self.status = status;
            },
            None => {
                self.status = held_modifiers_status(mods);
            },
        }
    }

    /// The held modifiers changed while recording.
    pub fn on_hotkey_modifiers_changed(&mut self, mods: HotkeyMods)
        ensures
            old(self)@.selection_ok() ==> final(self)@.selection_ok(),
            final(self)@ == (AppView { pending_mods: mods, ..old(self)@ }),
    {
        self.recorder.set_modifiers(mods);
    }

    /// What to do with hotkey events on a tick.
    pub fn hotkey_poll(&self) -> (p: HotkeyPoll)
        ensures
            p == if self@.recording {
                HotkeyPoll::Drain
            } else {
                HotkeyPoll::Poll
            },
    {
        if self.recorder.recording {
            HotkeyPoll::Drain
        } else {
            HotkeyPoll::Poll
        }
    }

    /// The text next to the hotkey's button, given the bound hotkey's
    /// description (none when global hotkeys are unavailable).
    pub fn hotkey_label(&self, bound: Option<&str>) -> (s: String)
        ensures
            s@ == if self@.recording {
                match self@.pending {
                    Some(c) => "Preview  "@ + spec_describe(c.mods, c.key),
                    None => if spec_describe_modifiers(self@.pending_mods).len() == 0 {
                        "Recording  press a combo..."@
                    } else {
                        "Recording  "@ + spec_describe_modifiers(self@.pending_mods) + "+_"@
                    },
                }
            } else {
                match bound {
                    Some(d) => "Hotkey  "@ + d@,
                    None => "Hotkey unavailable"@,
                }
            },
    {
        if self.recorder.recording {
            if let Some(c) = &self.recorder.pending {
                return prefixed("Preview  ", describe_captured(c).as_str());
            }
            let m = describe_modifiers(self.recorder.pending_mods);
            if m.as_str().is_empty() {
                return String::from_str("Recording  press a combo...");
            }
            return prefixed("Recording  ", m.as_str()).concat("+_");
        }
        match bound {
            Some(d) => prefixed("Hotkey  ", d),
            None => String::from_str("Hotkey unavailable"),
        }
    }

    // -- tray and window lifecycle -------------------------------------------

    /// Hides the main window in the tray (or minimizes it when there is no tray).
    pub fn hide_to_tray(&mut self, tray_available: bool) -> (cmds: Vec<Command>)
        ensures
            old(self)@.selection_ok() ==> final(self)@.selection_ok(),
            (final(self)@, cmds@) == spec_hide_to_tray(old(self)@, tray_available),
    {
        self.tray.end_minimize_probe();
        if !tray_available {
            self.status = String::from_str("tray unavailable — minimized");
            if self.main_window {
                return vec![Command::Minimize(true)];
            }
            return Vec::new();
        }
        self.tray.mark_hidden();
        self.status = String::from_str("hidden to tray — double-click tray icon to restore");
        if self.main_window {
            return vec![Command::Minimize(false), Command::SetWindowMode(WindowMode::Hidden)];
        }
        Vec::new()
    }

    /// Brings the main window back from the tray.
    pub fn restore_from_tray(&mut self) -> (cmds: Vec<Command>)
        ensures
            old(self)@.selection_ok() ==> final(self)@.selection_ok(),
            (final(self)@, cmds@) == spec_restore_from_tray(old(self)@),
    {
        self.tray.mark_restored();
        self.status = String::from_str("restored");
        if self.main_window {
            return vec![
                Command::SetWindowMode(WindowMode::Windowed),
                Command::Minimize(false),
                Command::GainFocus,
            ];
        }
        Vec::new()
    }

    /// The close button: to the tray or exit, as configured.
    pub fn close_app(&mut self, tray_available: bool) -> (cmds: Vec<Command>)
        ensures
            old(self)@.selection_ok() ==> final(self)@.selection_ok(),
            old(self)@.close_behavior == CloseBehavior::ToTray ==> (final(self)@, cmds@)
                == spec_hide_to_tray(old(self)@, tray_available),
            old(self)@.close_behavior == CloseBehavior::Exit ==> final(self)@ == old(self)@
                && cmds@ == if old(self)@.main_window {
                seq![Command::CloseMain]
            } else {
                Seq::empty()
            },
    {
        match self.close_behavior {
            CloseBehavior::ToTray => self.hide_to_tray(tray_available),
            CloseBehavior::Exit => if self.main_window {
                vec![Command::CloseMain]
            } else {
                Vec::new()
            },
        }
    }

    /// A window asked to close: the overlay cancels drawing, the main window
    /// closes as configured. Any other window is simply closed by the window
    /// layer.
    pub fn on_close_requested(&mut self, role: WindowRole, tray_available: bool) -> (cmds: Vec<
        Command,
    >)
        ensures
            old(self)@.selection_ok() ==> final(self)@.selection_ok(),
            role == WindowRole::RectOverlay ==> (final(self)@, cmds@) == spec_exit_draw(
                AppView { status: "draw cancelled"@, ..old(self)@ },
            ),
            role == WindowRole::Main && old(self)@.close_behavior == CloseBehavior::ToTray
                ==> (final(self)@, cmds@) == spec_hide_to_tray(old(self)@, tray_available),
            role == WindowRole::Main && old(self)@.close_behavior == CloseBehavior::Exit
                ==> final(self)@ == old(self)@ && cmds@ == if old(self)@.main_window {
                seq![Command::CloseMain]
            } else {
                Seq::empty()
            },
            role == WindowRole::Other ==> final(self)@ == old(self)@ && cmds@.len() == 0,
    {
        match role {
            WindowRole::RectOverlay => {
                self.status = String::from_str("draw cancelled");
                self.exit_draw_mode()
            },
            WindowRole::Main => self.close_app(tray_available),
            WindowRole::Other => Vec::new(),
        }
    }

    /// The cage controller released the cage by itself (its window closed).
    pub fn on_auto_release(&mut self, reason: &str) -> (cmds: Vec<Command>)
        ensures
            old(self)@.selection_ok() ==> final(self)@.selection_ok(),
            final(self)@ == (AppView {
                is_active: false,
                status: msg_auto_released(reason@),
                ..old(self)@
            }),
            cmds@ == seq![Command::TrayActive(false)] + if old(self)@.main_window {
                seq![
                    Command::SetWindowMode(WindowMode::Windowed),
                    Command::GainFocus,
                    Command::SetIcon(IconState::Idle),
                ]
            } else {
                Seq::empty()
            },
    {
        self.is_active = false;
        self.status = prefixed("auto-released: ", reason);
        let mut cmds = vec![Command::TrayActive(false)];
        if self.main_window {
            cmds.push(Command::SetWindowMode(WindowMode::Windowed));
            cmds.push(Command::GainFocus);
            cmds.push(Command::SetIcon(IconState::Idle));
        }
        proof {
            assert(cmds@ =~= seq![Command::TrayActive(false)] + if old(self)@.main_window {
                seq![
                    Command::SetWindowMode(WindowMode::Windowed),
                    Command::GainFocus,
                    Command::SetIcon(IconState::Idle),
                ]
            } else {
                Seq::<Command>::empty()
            });
        }
        cmds
    }

    /// The end of a tick: probe whether the user minimized the window, when
    /// it is shown, no probe is pending and it has opened.
    pub fn maybe_probe_minimized(&mut self) -> (cmds: Vec<Command>)
        ensures
            old(self)@.selection_ok() ==> final(self)@.selection_ok(),
            (!old(self)@.tray.hidden && !old(self)@.tray.checking_minimized
                && old(self)@.main_window) ==> final(self)@ == (AppView {
                tray: crate::tray::TrayState { checking_minimized: true, ..old(self)@.tray },
                ..old(self)@
            }) && cmds@ == seq![Command::ProbeMinimized],
            !(!old(self)@.tray.hidden && !old(self)@.tray.checking_minimized
                && old(self)@.main_window) ==> final(self)@ == old(self)@ && cmds@.len() == 0,
    {
        if self.tray.should_probe_minimized() && self.main_window {
            self.tray.begin_minimize_probe();
            return vec![Command::ProbeMinimized];
        }
        Vec::new()
    }

    /// The answer of the minimized-state probe: a window the user minimized
    /// goes to the tray.
    pub fn on_minimize_state_checked(&mut self, minimized: Option<bool>, tray_available: bool) -> (cmds: Vec<Command>)
        ensures
            old(self)@.selection_ok() ==> final(self)@.selection_ok(),
            ({
                let v1 = AppView {
                    tray: crate::tray::TrayState { checking_minimized: false, ..old(self)@.tray },
                    ..old(self)@
                };
                if minimized == Some(true) {
                    (final(self)@, cmds@) == spec_hide_to_tray(v1, tray_available)
                } else {
                    final(self)@ == v1 && cmds@.len() == 0
                }
            }),
    {
        self.tray.end_minimize_probe();
        if minimized == Some(true) {
            return self.hide_to_tray(tray_available);
        }
        Vec::new()
    }

    /// "Reset to defaults": the first click asks for confirmation, the second
    /// restores the defaults and asks to rebind the default hotkey, to save,
    /// and then (while the cage is active) to move it to the default target.
    pub fn on_reset_settings(&mut self) -> (cmds: Vec<Command>)
        ensures
            old(self)@.selection_ok() ==> final(self)@.selection_ok(),
            (final(self)@, cmds@) == spec_reset(old(self)@),
    {
        if self.reset_pending {
            self.mode = Mode::Monitor;
            self.selected_monitor = 0;
            self.custom = CustomRect::new(100, 100, 800, 600);
            self.padding = i32_to_string(4);
            self.minimize_on_activate = true;
            self.close_behavior = CloseBehavior::ToTray;
            self.reset_pending = false;
            self.status = String::from_str("settings reset to defaults");
            let mut cmds = vec![Command::ResetHotkey, Command::Persist];
            if self.is_active {
                cmds.push(Command::RefreshCage);
            }
            cmds
        } else {
            self.reset_pending = true;
            self.status = String::from_str("click Reset again to confirm");
            Vec::new()
        }
    }

    /// Whether the current settings can be turned into a cage without
    /// leaving the `i32` range (see `cage_fits`).
    pub fn cage_fits_now(&self) -> (b: bool)
        ensures
            b == self@.cage_fits(),
    {
        match self.mode {
            Mode::Custom => self.custom.fits(),
            _ => true,
        }
    }

    /// Whether typing `value` into `field` keeps an active custom cage
    /// describable (see `edit_fits`).
    pub fn edit_fits_now(&self, field: Field, value: &str) -> (b: bool)
        ensures
            b == edit_fits(self@, field, value@),
    {
        if !(self.is_active && self.mode == Mode::Custom) {
            return true;
        }
        let l = self.custom.get(Field::Left);
        let t = self.custom.get(Field::Top);
        let w = self.custom.get(Field::Width);
        let h = self.custom.get(Field::Height);
        let probe = match field {
            Field::Left => CustomRect::from_texts(value, t, w, h),
            Field::Top => CustomRect::from_texts(l, value, w, h),
            Field::Width => CustomRect::from_texts(l, t, value, h),
            Field::Height => CustomRect::from_texts(l, t, w, value),
            Field::Padding => CustomRect::from_texts(l, t, w, h),
        };
        probe.fits()
    }

    // -- drawing a rectangle ---------------------------------------------------

    /// "Draw on screen": open the overlay and hide the main window.
    pub fn on_start_draw_rect(&mut self) -> (cmds: Vec<Command>)
        ensures
            old(self)@.selection_ok() ==> final(self)@.selection_ok(),
            old(self)@.drawing_rect ==> final(self)@ == old(self)@ && cmds@.len() == 0,
            !old(self)@.drawing_rect ==> final(self)@ == (AppView {
                drawing_rect: true,
                ..old(self)@
            }) && cmds@ == seq![Command::OpenRectWindow] + if old(self)@.main_window {
                seq![Command::SetWindowMode(WindowMode::Hidden)]
            } else {
                Seq::empty()
            },
    {
        if self.drawing_rect {
            return Vec::new();
        }
        self.drawing_rect = true;
        let mut cmds = vec![Command::OpenRectWindow];
        if self.main_window {
            cmds.push(Command::SetWindowMode(WindowMode::Hidden));
        }
        proof {
            assert(cmds@ =~= seq![Command::OpenRectWindow] + if old(self)@.main_window {
                seq![Command::SetWindowMode(WindowMode::Hidden)]
            } else {
                Seq::<Command>::empty()
            });
        }
        cmds
    }

    /// Leaves the overlay and shows the main window again.
    pub fn exit_draw_mode(&mut self) -> (cmds: Vec<Command>)
        ensures
            old(self)@.selection_ok() ==> final(self)@.selection_ok(),
            (final(self)@, cmds@) == spec_exit_draw(old(self)@),
    {
        self.drawing_rect = false;
        let mut cmds = vec![Command::CloseRectWindow];
        if self.main_window {
            cmds.push(Command::SetWindowMode(WindowMode::Windowed));
            cmds.push(Command::GainFocus);
        }
        proof {
            assert(cmds@ =~= spec_exit_draw(old(self)@).1);
        }
        cmds
    }

    /// The overlay was dismissed.
    pub fn on_cancel_rect(&mut self) -> (cmds: Vec<Command>)
        ensures
            old(self)@.selection_ok() ==> final(self)@.selection_ok(),
            (final(self)@, cmds@) == spec_exit_draw(
                AppView { status: "draw cancelled"@, ..old(self)@ },
            ),
    {
        self.status = String::from_str("draw cancelled");
        self.exit_draw_mode()
    }

    /// The overlay's final position and size (already in whole pixels), or
    /// nothing when its position could not be read.
    pub fn on_rect_geometry(&mut self, geometry: Option<(i32, i32, i32, i32)>) -> (cmds: Vec<Command>)
        requires
            old(self)@.is_active && old(self)@.mode == Mode::Custom ==> (geometry matches Some(
                (l, t, w, h),
            ) ==> fits_i32(l + w) && fits_i32(t + h)),
        ensures
            old(self)@.selection_ok() ==> final(self)@.selection_ok(),
            match geometry {
                None => (final(self)@, cmds@) == spec_exit_draw(
                    AppView { status: "failed to read rect window position"@, ..old(self)@ },
                ),
                Some((l, t, w, h)) => {
                    let drawn = AppView {
                        custom: CustomRectView {
                            left: int_repr(l as int),
                            top: int_repr(t as int),
                            width: int_repr(w as int),
                            height: int_repr(h as int),
                        },
                        status: msg_rect_set(l, t, w, h),
                        ..old(self)@
                    };
                    let (v1, c1) = spec_refresh(drawn);
                    let (v2, c2) = spec_exit_draw(v1);
                    final(self)@ == v2 && cmds@ == c1.push(Command::Persist) + c2
                },
            },
    {
        match geometry {
            Some((l, t, w, h)) => {
                self.custom = CustomRect::new(l, t, w, h);
                proof {
                    crate::custom_rect::lemma_custom_values(l, t, w, h);
                }
                self.status = rect_status(l, t, w, h);
                let mut cmds = self.refresh_controller_mode();
                cmds.push(Command::Persist);
                let mut more = self.exit_draw_mode();
                cmds.append(&mut more);
                cmds
            },
            None => {
                self.status = String::from_str("failed to read rect window position");
                self.exit_draw_mode()
            },
        }
    }
}

fn preview_status(c: &Captured) -> (s: String)
    ensures
        s@ == "preview: "@ + spec_describe(c.mods, c.key@) + " — click Confirm"@,
{
    let desc = describe_captured(c);
    prefixed("preview: ", desc.as_str()).concat(" — click Confirm")
}

/// The status while only modifiers (or an unusable key) are pressed.
#[verifier::opaque]
pub open spec fn msg_held_modifiers(mods: HotkeyMods) -> Seq<char> {
    if spec_describe_modifiers(mods).len() == 0 {
        "press combo, then Confirm"@
    } else {
        "preview: "@ + spec_describe_modifiers(mods) + "+_  press a key"@
    }
}

fn held_modifiers_status(mods: HotkeyMods) -> (s: String)
    ensures
        s@ == msg_held_modifiers(mods),
{
    reveal(msg_held_modifiers);
    let m = describe_modifiers(mods);
    if m.as_str().is_empty() {
        String::from_str("press combo, then Confirm")
    } else {
        prefixed("preview: ", m.as_str()).concat("+_  press a key")
    }
}

/// Whether a press is the cancel key.
pub open spec fn is_cancel_key_spec(p: PhysicalKey) -> bool {
    p matches PhysicalKey::Code(name) && name@ == "Escape"@
}

} // verus!
