//! Properties that span several operations.

use crate::app_core::{AppView, Command};
use crate::confine::{
    base_rect, padding_fits, spec_resolve_rect, spec_tick, ClipAction, ClipStateView, ConfineError,
    window_closed_reason, CageMode, WindowProbe,
};
use crate::handlers::{
    spec_activated, spec_deactivate, spec_defaults_applied, spec_hide_to_tray, spec_refresh,
    spec_reset, spec_restore_from_tray,
};
use crate::monitor::MonitorInfo;
use crate::settings::{
    default_settings, hotkey_storable, lemma_settings_round_trip, spec_parse_settings,
    spec_render_settings, SettingsView,
};
use crate::custom_rect::{field_value, CustomRectView};
use crate::domain::{CloseBehavior, IconState, Mode};
use crate::hotkey::{same_combo, CapturedView};
use crate::app_core::spec_parse_padding;
use crate::text::{int_repr, lemma_i32_round_trip};
use vstd::prelude::*;

verus! {

/// Padding moves every edge inwards: a resolved cage with non-negative
/// padding lies inside the target's rectangle, and with zero padding it is
/// that rectangle.
pub proof fn lemma_padding_shrinks(mode: CageMode, padding: i32, p: WindowProbe)
    requires
        padding_fits(mode, padding, p),
        padding >= 0,
    ensures
        spec_resolve_rect(mode, padding, p) matches Ok(r) ==> base_rect(mode, p) matches Ok(b) && {
            &&& b.left <= r.left
            &&& b.top <= r.top
            &&& r.right <= b.right
            &&& r.bottom <= b.bottom
            &&& (padding == 0 ==> r == b)
        },
{
}

/// Once released, the background loop leaves the cursor alone and the
/// state as it is, whatever the target window does.
pub proof fn lemma_released_loop_is_idle(s: ClipStateView, p: WindowProbe)
    ensures
        ({
            let d = ClipStateView { active: false, auto_release_reason: None, ..s };
            spec_tick(d, p) == (d, ClipAction::Keep)
        }),
{
}

/// When the target window disappears, the loop releases the cursor once,
/// records why, and from then on does nothing.
pub proof fn lemma_closed_window_releases_once(s: ClipStateView, p: WindowProbe, q: WindowProbe)
    requires
        s.active,
        s.mode is Some,
        spec_resolve_rect(s.mode->0, s.padding, p) == Err::<crate::geometry::ScreenRect, ConfineError>(
            ConfineError::NoHandle,
        ),
    ensures
        ({
            let (t, a) = spec_tick(s, p);
            &&& a == ClipAction::Release
            &&& !t.active
            &&& t.auto_release_reason == Some(window_closed_reason())
            &&& spec_tick(t, q) == (t, ClipAction::Keep)
        }),
{
}

/// A window target whose handle is gone resolves to `NoHandle`, whatever the padding.
pub proof fn lemma_missing_window_has_no_handle(hwnd: isize, padding: i32, p: WindowProbe)
    requires
        !p.is_window,
    ensures
        spec_resolve_rect(CageMode::Window { hwnd }, padding, p) == Err::<
            crate::geometry::ScreenRect,
            ConfineError,
        >(ConfineError::NoHandle),
{
}

/// After a successful activation the action button releases the cage: the
/// state is idle again and the first command releases the cursor.
pub proof fn lemma_activate_then_release(v: AppView, mode: CageMode)
    ensures
        ({
            let (a, _) = spec_activated(v, mode);
            let (d, c) = spec_deactivate(a);
            &&& a.is_active
            &&& !d.is_active
            &&& c[0] == Command::ReleaseCage
            &&& c[1] == Command::TrayActive(false)
        }),
{
}

/// Hiding to the tray and restoring shows the window again, with the
/// settings untouched.
pub proof fn lemma_hide_then_restore(v: AppView)
    ensures
        ({
            let (h, _) = spec_hide_to_tray(v, true);
            let (r, _) = spec_restore_from_tray(h);
            &&& h.tray.hidden
            &&& !r.tray.hidden
            &&& !r.tray.checking_minimized
            &&& r.mode == v.mode
            &&& r.is_active == v.is_active
            &&& r.custom == v.custom
            &&& r.padding == v.padding
            &&& r.close_behavior == v.close_behavior
        }),
{
}

/// Resetting takes two clicks: the first changes no setting, the second
/// restores the defaults and asks to save them.
pub proof fn lemma_reset_needs_confirmation(v: AppView)
    requires
        !v.reset_pending,
    ensures
        ({
            let (a, c1) = spec_reset(v);
            let (b, c2) = spec_reset(a);
            &&& c1.len() == 0
            &&& a.mode == v.mode && a.custom == v.custom && a.padding == v.padding
            &&& a.reset_pending
            &&& !b.reset_pending
            &&& b.mode == Mode::Monitor
            &&& b.selected_monitor == 0
            &&& b.padding == int_repr(4)
            &&& b.minimize_on_activate
            &&& b.close_behavior == CloseBehavior::ToTray
            &&& c2[0] == Command::ResetHotkey
            &&& c2[1] == Command::Persist
        }),
{
}

/// What is saved is what the next start reads: the settings saved from any
/// state (with a storable hotkey text) parse back to themselves.
pub proof fn lemma_saved_state_reloads(v: AppView, hotkey: Option<Seq<char>>)
    requires
        hotkey_storable(hotkey),
    ensures
        spec_parse_settings(spec_render_settings(v.snapshot(hotkey))) == v.snapshot(hotkey),
{
    lemma_settings_round_trip(v.snapshot(hotkey));
}

/// A monitor cage follows the display layout: when a new list of displays
/// arrives (the selection falling back to the first display when it is past
/// the end), an active cage moves to the selected display's new bounds, and
/// is released when no display is left.
pub proof fn lemma_display_change_retargets(v: AppView, ms: Seq<MonitorInfo>, status: Seq<char>)
    requires
        v.is_active,
        v.mode == Mode::Monitor,
    ensures
        ({
            let sel = if v.selected_monitor >= ms.len() {
                0
            } else {
                v.selected_monitor
            };
            let (w, c) = spec_refresh(
                AppView { monitors: ms, selected_monitor: sel, status, ..v },
            );
            &&& ms.len() > 0 ==> w.is_active && c == seq![
                Command::SetCageMode(CageMode::Fixed(ms[sel as int].bounds)),
            ]
            &&& ms.len() == 0 ==> !w.is_active && c == seq![
                Command::ReleaseCage,
                Command::TrayActive(false),
            ]
        }),
{
}

/// In window mode the cage goes to the window picked in the list; the app's
/// own window is the target only while nothing is picked, and with neither
/// there is no cage. Pressing the action button activates on that target.
pub proof fn lemma_picked_window_is_the_target(v: AppView)
    requires
        v.mode == Mode::Window,
    ensures
        v.selected_window_hwnd matches Some(h) ==> v.cage_mode() == Ok::<CageMode, Seq<char>>(
            CageMode::Window { hwnd: h },
        ),
        v.selected_window_hwnd is None ==> (v.window_hwnd matches Some(o) ==> v.cage_mode()
            == Ok::<CageMode, Seq<char>>(CageMode::Window { hwnd: o })),
        v.selected_window_hwnd is None && v.window_hwnd is None ==> v.cage_mode() is Err,
        v.selected_window_hwnd matches Some(h) ==> (spec_parse_padding(v.padding) matches Ok(p)
            ==> v.activation() == Ok::<(CageMode, i32), Seq<char>>((CageMode::Window { hwnd: h }, p))),
{
}

/// What is saved is the state as it is: the mode, the selected monitor, the
/// flags and the given hotkey text are carried over unchanged, and every
/// rectangle field or padding that holds a number is saved as that number.
pub proof fn lemma_snapshot_keeps_the_state(v: AppView, hotkey: Option<Seq<char>>)
    ensures
        ({
            let s = v.snapshot(hotkey);
            &&& s.mode == v.mode
            &&& s.selected_monitor == v.selected_monitor
            &&& s.minimize_on_activate == v.minimize_on_activate
            &&& s.close_behavior == v.close_behavior
            &&& s.hotkey == hotkey
            &&& field_value(v.custom.left) matches Some(n) ==> s.custom_left == n
            &&& field_value(v.custom.top) matches Some(n) ==> s.custom_top == n
            &&& field_value(v.custom.width) matches Some(n) ==> s.custom_width == n
            &&& field_value(v.custom.height) matches Some(n) ==> s.custom_height == n
            &&& field_value(v.padding) matches Some(n) ==> s.padding == n
        }),
{
}

/// A recorded combo is registered anew exactly when it differs from the bound
/// one in its modifiers or its key; the bound combo itself is never
/// registered twice.
pub proof fn lemma_changed_combo_needs_register(cur: CapturedView, c: CapturedView)
    ensures
        !same_combo(cur, c) <==> (cur.mods != c.mods || cur.key != c.key),
        same_combo(c, c),
{
}

/// After a successful activation with "minimize on activate", the settings
/// window is minimized unless the cage is that very window: a cage on any
/// other window, or on a rectangle, minimizes it.
pub proof fn lemma_activation_minimizes_unless_self(v: AppView, mode: CageMode)
    requires
        v.main_window,
        v.minimize_on_activate,
    ensures
        ({
            let cmds = spec_activated(v, mode).1;
            let is_self = mode matches CageMode::Window { hwnd } && v.window_hwnd == Some(hwnd);
            &&& !is_self ==> cmds == seq![
                Command::TrayActive(true),
                Command::Minimize(true),
                Command::SetIcon(IconState::Active),
            ]
            &&& is_self ==> cmds == seq![
                Command::TrayActive(true),
                Command::SetIcon(IconState::Active),
            ]
        }),
{
}

/// The confirming second reset brings every saved setting back to its
/// default, the custom rectangle included: the state after it saves as the
/// default settings (with whatever hotkey text is then bound), and its
/// rectangle fields read 100, 100, 800, 600.
pub proof fn lemma_reset_restores_every_default(v: AppView, hotkey: Option<Seq<char>>)
    requires
        v.reset_pending,
    ensures
        ({
            let b = spec_reset(v).0;
            &&& b.custom == (CustomRectView {
                left: int_repr(100),
                top: int_repr(100),
                width: int_repr(800),
                height: int_repr(600),
            })
            &&& b.snapshot(hotkey) == (SettingsView { hotkey, ..default_settings() })
        }),
{
    lemma_i32_round_trip(100);
    lemma_i32_round_trip(800);
    lemma_i32_round_trip(600);
    lemma_i32_round_trip(4);
}

} // verus!
