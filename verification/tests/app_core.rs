use cursory::app_core::{AppCore, Command, Toggle, WindowMode, WindowRole};
use cursory::confine::CageMode;
use cursory::domain::{CloseBehavior, Field, IconState, Mode, WindowInfo};
use cursory::geometry::ScreenRect;
use cursory::hotkey::{HotkeyMods, PhysicalKey};
use cursory::monitor::MonitorInfo;
use cursory::settings::Settings;

fn monitor(name: &str, l: i32, t: i32, r: i32, b: i32, primary: bool) -> MonitorInfo {
    MonitorInfo {
        name: name.to_string(),
        bounds: ScreenRect::new(l, t, r, b),
        work_area: ScreenRect::new(l, t, r, b - 40),
        is_primary: primary,
    }
}

fn two_monitors() -> Vec<MonitorInfo> {
    vec![
        monitor("DISPLAY1", 0, 0, 1920, 1080, true),
        monitor("DISPLAY2", 1920, 0, 3840, 1080, false),
    ]
}

fn fresh_core() -> AppCore {
    let mut c = AppCore::new(
        &Settings::default(),
        two_monitors(),
        vec![WindowInfo { hwnd: 77, title: "Notepad".to_string() }],
        false,
        Some("Ctrl+Alt+C"),
    );
    c.on_window_opened();
    c
}

#[test]
fn start_up_state_follows_the_saved_settings() {
    let mut saved = Settings::default();
    saved.selected_monitor = 9;
    saved.padding = -3;
    let c = AppCore::new(&saved, two_monitors(), Vec::new(), true, None);
    assert_eq!(c.mode, Mode::Monitor);
    assert_eq!(c.selected_monitor, 1);
    assert_eq!(c.padding, "-3");
    assert_eq!(c.custom.get(Field::Width), "800");
    assert!(c.launch_on_startup);
    assert!(!c.is_active);
    assert_eq!(c.status, "ready — global hotkey unavailable");
    assert_eq!(c.title(), "Cursory — idle");
    let d = fresh_core();
    assert_eq!(d.status, "ready — global hotkey Ctrl+Alt+C");
}

#[test]
fn activation_runs_through_toggle_and_finish() {
    let mut c = fresh_core();
    let (t, cmds) = c.toggle();
    let expected = CageMode::Fixed(ScreenRect::new(0, 0, 1920, 1080));
    assert_eq!(t, Toggle::Activate(expected, 4));
    assert!(cmds.is_empty());
    let cmds = c.finish_activate(expected, Ok(()));
    assert!(c.is_active);
    assert_eq!(c.status, "active — 1920×1080 at (0,0)");
    assert_eq!(c.title(), "Cursory — active");
    assert_eq!(
        cmds,
        vec![Command::TrayActive(true), Command::Minimize(true), Command::SetIcon(IconState::Active)]
    );
    let (t, cmds) = c.toggle();
    assert_eq!(t, Toggle::Released);
    assert!(!c.is_active);
    assert_eq!(c.status, "released");
    assert_eq!(
        cmds,
        vec![
            Command::ReleaseCage,
            Command::TrayActive(false),
            Command::Minimize(false),
            Command::SetIcon(IconState::Idle)
        ]
    );
}

#[test]
fn failed_activation_keeps_the_cage_released() {
    let mut c = fresh_core();
    let mode = CageMode::Fixed(ScreenRect::new(0, 0, 10, 10));
    let cmds = c.finish_activate(mode, Err("ClipCursor failed".to_string()));
    assert!(cmds.is_empty());
    assert!(!c.is_active);
    assert_eq!(c.status, "activate error: ClipCursor failed");
}

#[test]
fn activation_is_refused_without_a_target() {
    let mut c = fresh_core();
    c.on_mode_selected(Mode::Window);
    let (t, cmds) = c.toggle();
    assert_eq!(t, Toggle::Refused);
    assert!(cmds.is_empty());
    assert_eq!(c.status, "cannot activate: no target window selected");

    let mut c = fresh_core();
    c.on_field_changed(Field::Padding, "abc".to_string());
    let (t, _) = c.toggle();
    assert_eq!(t, Toggle::Refused);
    assert_eq!(c.status, "cannot activate: padding not a number");
}

#[test]
fn window_target_is_caged_as_a_window() {
    let mut c = fresh_core();
    c.on_mode_selected(Mode::Window);
    c.on_window_target_selected(77);
    let (t, _) = c.toggle();
    assert_eq!(t, Toggle::Activate(CageMode::Window { hwnd: 77 }, 4));
    c.finish_activate(CageMode::Window { hwnd: 77 }, Ok(()));
    assert_eq!(c.status, "active — app window");
}

#[test]
fn caging_the_settings_window_does_not_minimize_it() {
    let mut c = fresh_core();
    c.on_hwnd_captured(Some(5));
    c.on_mode_selected(Mode::Window);
    let (t, _) = c.toggle();
    assert_eq!(t, Toggle::Activate(CageMode::Window { hwnd: 5 }, 4));
    let cmds = c.finish_activate(CageMode::Window { hwnd: 5 }, Ok(()));
    assert_eq!(cmds, vec![Command::TrayActive(true), Command::SetIcon(IconState::Active)]);
}

#[test]
fn field_edits_retarget_the_active_cage_and_save_complete_values() {
    let mut c = fresh_core();
    let cmds = c.on_mode_selected(Mode::Custom);
    assert_eq!(cmds, vec![Command::Persist]);
    let mode = CageMode::Fixed(ScreenRect::new(100, 100, 900, 700));
    let (t, _) = c.toggle();
    assert_eq!(t, Toggle::Activate(mode, 4));
    c.finish_activate(mode, Ok(()));
    let cmds = c.on_field_changed(Field::Width, "500".to_string());
    assert_eq!(
        cmds,
        vec![Command::SetCageMode(CageMode::Fixed(ScreenRect::new(100, 100, 600, 700))), Command::Persist]
    );
    let cmds = c.on_field_changed(Field::Width, "".to_string());
    assert_eq!(cmds, vec![Command::ReleaseCage, Command::TrayActive(false)]);
    assert!(!c.is_active);
    assert_eq!(c.status, "auto-released: width not a number");
}

#[test]
fn padding_edits_follow_the_active_cage() {
    let mut c = fresh_core();
    let mode = CageMode::Fixed(ScreenRect::new(0, 0, 1920, 1080));
    c.finish_activate(mode, Ok(()));
    let cmds = c.on_field_changed(Field::Padding, " 12 ".to_string());
    assert_eq!(cmds, vec![Command::SetCagePadding(12), Command::Persist]);
    let cmds = c.on_field_changed(Field::Padding, "".to_string());
    assert_eq!(cmds, vec![Command::SetCagePadding(0), Command::Persist]);
    let cmds = c.on_field_changed(Field::Padding, "x".to_string());
    assert!(cmds.is_empty());
    assert_eq!(c.status, "padding: padding not a number");
    assert!(c.is_active);
}

#[test]
fn reset_needs_two_clicks() {
    let mut c = fresh_core();
    c.on_mode_selected(Mode::Custom);
    c.on_field_changed(Field::Padding, "9".to_string());
    let cmds = c.on_reset_settings();
    assert!(cmds.is_empty());
    assert!(c.reset_pending);
    assert_eq!(c.status, "click Reset again to confirm");
    assert_eq!(c.mode, Mode::Custom);
    let cmds = c.on_reset_settings();
    assert_eq!(cmds, vec![Command::ResetHotkey, Command::Persist]);
    assert!(!c.reset_pending);
    assert_eq!(c.mode, Mode::Monitor);
    assert_eq!(c.padding, "4");
    assert_eq!(c.status, "settings reset to defaults");
}

#[test]
fn a_failed_save_is_reported_and_cancels_the_reset() {
    let mut c = fresh_core();
    c.on_reset_settings();
    c.after_persist(Err("disk full".to_string()));
    assert!(!c.reset_pending);
    assert_eq!(c.status, "disk full");
    c.after_persist(Ok(()));
    assert_eq!(c.status, "disk full");
}

#[test]
fn hide_and_restore_through_the_tray() {
    let mut c = fresh_core();
    let cmds = c.on_close_requested(WindowRole::Main, true);
    assert_eq!(cmds, vec![Command::Minimize(false), Command::SetWindowMode(WindowMode::Hidden)]);
    assert!(c.tray.hidden);
    assert_eq!(c.status, "hidden to tray — double-click tray icon to restore");
    let cmds = c.restore_from_tray();
    assert_eq!(
        cmds,
        vec![Command::SetWindowMode(WindowMode::Windowed), Command::Minimize(false), Command::GainFocus]
    );
    assert!(!c.tray.hidden);
    assert_eq!(c.status, "restored");
}

#[test]
fn without_a_tray_the_window_is_only_minimized() {
    let mut c = fresh_core();
    let cmds = c.hide_to_tray(false);
    assert_eq!(cmds, vec![Command::Minimize(true)]);
    assert!(!c.tray.hidden);
    assert_eq!(c.status, "tray unavailable — minimized");
}

#[test]
fn exit_behavior_closes_the_main_window() {
    let mut c = fresh_core();
    c.on_close_behavior_selected(CloseBehavior::Exit);
    let cmds = c.on_close_requested(WindowRole::Main, true);
    assert_eq!(cmds, vec![Command::CloseMain]);
    assert!(c.on_close_requested(WindowRole::Other, true).is_empty());
}

#[test]
fn minimizing_by_hand_sends_the_window_to_the_tray() {
    let mut c = fresh_core();
    assert_eq!(c.maybe_probe_minimized(), vec![Command::ProbeMinimized]);
    assert!(c.maybe_probe_minimized().is_empty());
    assert!(c.on_minimize_state_checked(Some(false), true).is_empty());
    assert_eq!(c.maybe_probe_minimized(), vec![Command::ProbeMinimized]);
    let cmds = c.on_minimize_state_checked(Some(true), true);
    assert_eq!(cmds, vec![Command::Minimize(false), Command::SetWindowMode(WindowMode::Hidden)]);
    assert!(c.maybe_probe_minimized().is_empty());
}

#[test]
fn drawing_a_rectangle_sets_the_custom_fields() {
    let mut c = fresh_core();
    let cmds = c.on_start_draw_rect();
    assert_eq!(cmds, vec![Command::OpenRectWindow, Command::SetWindowMode(WindowMode::Hidden)]);
    assert!(c.on_start_draw_rect().is_empty());
    let cmds = c.on_rect_geometry(Some((10, 20, 300, 200)));
    assert_eq!(
        cmds,
        vec![
            Command::Persist,
            Command::CloseRectWindow,
            Command::SetWindowMode(WindowMode::Windowed),
            Command::GainFocus
        ]
    );
    assert!(!c.drawing_rect);
    assert_eq!(c.custom.get(Field::Left), "10");
    assert_eq!(c.custom.get(Field::Height), "200");
    assert_eq!(c.status, "rect set: 300×200 at (10,20)");
}

#[test]
fn cancelling_the_overlay() {
    let mut c = fresh_core();
    c.on_start_draw_rect();
    let cmds = c.on_close_requested(WindowRole::RectOverlay, true);
    assert_eq!(
        cmds,
        vec![Command::CloseRectWindow, Command::SetWindowMode(WindowMode::Windowed), Command::GainFocus]
    );
    assert_eq!(c.status, "draw cancelled");
    c.on_start_draw_rect();
    c.on_rect_geometry(None);
    assert_eq!(c.status, "failed to read rect window position");
}

#[test]
fn display_changes_are_picked_up_once() {
    let mut c = fresh_core();
    c.on_monitor_selected(1);
    assert!(c.on_monitors_polled(two_monitors()).is_empty());
    let one = vec![monitor("DISPLAY1", 0, 0, 1920, 1080, true)];
    let cmds = c.on_monitors_polled(one.clone());
    assert!(cmds.is_empty());
    assert_eq!(c.selected_monitor, 0);
    assert_eq!(c.status, "display changed (1 monitor(s))");
    c.on_monitors_refreshed(one);
    assert_eq!(c.status, "monitors refreshed (1 found)");
    assert!(c.on_monitor_selected(3).is_empty());
    assert_eq!(c.selected_monitor, 0);
}

#[test]
fn a_vanished_window_releases_the_cage() {
    let mut c = fresh_core();
    c.finish_activate(CageMode::Window { hwnd: 77 }, Ok(()));
    let cmds = c.on_auto_release("window closed");
    assert!(!c.is_active);
    assert_eq!(c.status, "auto-released: window closed");
    assert_eq!(
        cmds,
        vec![
            Command::TrayActive(false),
            Command::SetWindowMode(WindowMode::Windowed),
            Command::GainFocus,
            Command::SetIcon(IconState::Idle)
        ]
    );
}

#[test]
fn recording_a_hotkey_shows_a_preview() {
    let mut c = fresh_core();
    c.on_start_hotkey_record(true);
    assert!(c.recorder.is_recording());
    let ctrl = HotkeyMods { ctrl: true, alt: false, shift: false, meta: false };
    c.on_hotkey_modifiers_changed(ctrl);
    c.on_key_captured(&PhysicalKey::Code("ControlLeft".to_string()), ctrl);
    assert_eq!(c.status, "preview: Ctrl+_  press a key");
    c.on_key_captured(&PhysicalKey::Code("KeyK".to_string()), ctrl);
    assert_eq!(c.status, "preview: Ctrl+K — click Confirm");
    c.on_key_captured(&PhysicalKey::Code("Escape".to_string()), HotkeyMods::none());
    assert!(!c.recorder.is_recording());
}

#[test]
fn the_rebind_outcome_is_reported() {
    let mut c = fresh_core();
    c.on_start_hotkey_record(true);
    let cmds = c.on_rebind_result(Err("already registered".to_string()));
    assert!(cmds.is_empty());
    assert!(c.recorder.is_recording());
    assert_eq!(c.status, "already registered — try another combo");
    let cmds = c.on_rebind_result(Ok("Ctrl+Shift+K".to_string()));
    assert_eq!(cmds, vec![Command::Persist]);
    assert!(!c.recorder.is_recording());
    assert_eq!(c.status, "hotkey set to Ctrl+Shift+K");
}

#[test]
fn launch_on_startup_outcomes() {
    let mut c = fresh_core();
    c.on_launch_on_startup_result(Ok(true));
    assert!(c.launch_on_startup);
    assert_eq!(c.status, "launch on startup enabled");
    c.on_launch_on_startup_result(Err("access denied".to_string()));
    assert!(c.launch_on_startup);
    assert_eq!(c.status, "startup setting failed: access denied");
}

#[test]
fn snapshot_saves_what_the_fields_hold() {
    let mut c = fresh_core();
    c.on_field_changed(Field::Left, "-50".to_string());
    c.on_field_changed(Field::Top, "junk".to_string());
    c.on_field_changed(Field::Padding, "junk".to_string());
    let s = c.snapshot(Some("Ctrl+Alt+KeyC".to_string()));
    assert_eq!(s.custom_left, -50);
    assert_eq!(s.custom_top, 100);
    assert_eq!(s.padding, 0);
    assert_eq!(s.hotkey.as_deref(), Some("Ctrl+Alt+KeyC"));
    assert_eq!(s.mode, Mode::Monitor);
}

#[test]
fn overflowing_custom_edits_are_detected_before_they_apply() {
    let mut c = fresh_core();
    c.on_mode_selected(Mode::Custom);
    c.on_field_changed(Field::Left, "2147483000".to_string());
    assert!(!c.cage_fits_now());
    c.on_field_changed(Field::Left, "100".to_string());
    assert!(c.cage_fits_now());
    let mode = CageMode::Fixed(ScreenRect::new(100, 100, 900, 700));
    c.finish_activate(mode, Ok(()));
    assert!(c.edit_fits_now(Field::Width, "500"));
    assert!(!c.edit_fits_now(Field::Left, "2147483000"));
    assert!(c.edit_fits_now(Field::Width, "-5"));
    assert!(c.edit_fits_now(Field::Padding, "2147483000"));
}

#[test]
fn an_active_monitor_cage_follows_the_display_layout() {
    let mut c = fresh_core();
    c.on_monitor_selected(1);
    let mode = CageMode::Fixed(ScreenRect::new(1920, 0, 3840, 1080));
    let (t, _) = c.toggle();
    assert_eq!(t, Toggle::Activate(mode, 4));
    c.finish_activate(mode, Ok(()));
    let moved = vec![
        monitor("DISPLAY1", 0, 0, 1920, 1080, true),
        monitor("DISPLAY2", 1920, 0, 4480, 1440, false),
    ];
    let cmds = c.on_monitors_polled(moved);
    assert_eq!(cmds, vec![Command::SetCageMode(CageMode::Fixed(ScreenRect::new(1920, 0, 4480, 1440)))]);
    assert!(c.is_active);
    let cmds = c.on_monitors_polled(Vec::new());
    assert_eq!(cmds, vec![Command::ReleaseCage, Command::TrayActive(false)]);
    assert!(!c.is_active);
    assert_eq!(c.status, "auto-released: no monitors enumerated");
}

#[test]
fn an_active_reset_re_derives_the_cage_after_saving() {
    let mut c = fresh_core();
    let mode = CageMode::Fixed(ScreenRect::new(0, 0, 1920, 1080));
    c.finish_activate(mode, Ok(()));
    assert!(c.on_reset_settings().is_empty());
    let cmds = c.on_reset_settings();
    assert_eq!(cmds, vec![Command::ResetHotkey, Command::Persist, Command::RefreshCage]);
    assert_eq!(c.status, "settings reset to defaults");
    c.after_persist(Err("disk full".to_string()));
    assert_eq!(c.status, "disk full");
    c.monitors = Vec::new();
    let cmds = c.refresh_controller_mode();
    assert_eq!(cmds, vec![Command::ReleaseCage, Command::TrayActive(false)]);
    assert!(!c.is_active);
    assert_eq!(c.status, "auto-released: no monitors enumerated");
}

#[test]
fn drawing_while_idle_takes_any_position() {
    let mut c = fresh_core();
    c.on_start_draw_rect();
    c.on_rect_geometry(Some((i32::MAX - 5, 0, 300, 200)));
    assert_eq!(c.custom.get(Field::Left), "2147483642");
    assert_eq!(c.status, "rect set: 300×200 at (2147483642,0)");
}
