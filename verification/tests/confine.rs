use cursory::confine::{
    clip_target, read_window_rect, resolve_fits, resolve_rect, CageMode, ClipAction, ClipState,
    ConfineError, WindowProbe,
};
use cursory::geometry::ScreenRect;

fn rect(l: i32, t: i32, r: i32, b: i32) -> ScreenRect {
    ScreenRect::new(l, t, r, b)
}

fn live_window(frame: Option<ScreenRect>, window_rect: Result<ScreenRect, u32>) -> WindowProbe {
    WindowProbe { is_window: true, is_visible: true, is_iconic: false, frame, window_rect }
}

#[test]
fn fixed_cage_is_inset_by_padding() {
    let m = CageMode::Fixed(rect(0, 0, 100, 50));
    let p = WindowProbe::missing();
    assert_eq!(resolve_rect(m, 0, &p), Ok(rect(0, 0, 100, 50)));
    assert_eq!(resolve_rect(m, 4, &p), Ok(rect(4, 4, 96, 46)));
    assert_eq!(resolve_rect(m, 25, &p), Err(ConfineError::InvalidRect(rect(25, 25, 75, 25))));
    assert_eq!(resolve_rect(m, -5, &p), Ok(rect(-5, -5, 105, 55)));
}

#[test]
fn window_cage_prefers_the_compositor_frame() {
    let p = live_window(Some(rect(10, 10, 210, 110)), Ok(rect(0, 0, 220, 120)));
    assert_eq!(read_window_rect(5, &p), Ok(rect(10, 10, 210, 110)));
    let flat = live_window(Some(rect(10, 10, 10, 110)), Ok(rect(0, 0, 220, 120)));
    assert_eq!(read_window_rect(5, &flat), Ok(rect(0, 0, 220, 120)));
    let no_frame = live_window(None, Err(1400));
    assert_eq!(read_window_rect(5, &no_frame), Err(ConfineError::Win32(1400)));
    let degenerate = live_window(None, Ok(rect(3, 3, 3, 9)));
    assert_eq!(read_window_rect(5, &degenerate), Err(ConfineError::InvalidRect(rect(3, 3, 3, 9))));
}

#[test]
fn vanished_or_minimized_windows_are_refused() {
    let p = live_window(Some(rect(0, 0, 10, 10)), Ok(rect(0, 0, 10, 10)));
    assert_eq!(read_window_rect(0, &p), Err(ConfineError::NoHandle));
    assert_eq!(read_window_rect(1, &WindowProbe::missing()), Err(ConfineError::NoHandle));
    let hidden = WindowProbe { is_visible: false, ..p };
    assert_eq!(read_window_rect(1, &hidden), Err(ConfineError::NoHandle));
    let iconic = WindowProbe { is_iconic: true, ..p };
    assert_eq!(read_window_rect(1, &iconic), Err(ConfineError::InvalidRect(rect(0, 0, 0, 0))));
}

#[test]
fn padding_that_overflows_is_detected() {
    let m = CageMode::Fixed(rect(i32::MAX - 1, 0, i32::MAX, 10));
    assert!(!resolve_fits(m, 5, &WindowProbe::missing()));
    assert!(resolve_fits(m, 0, &WindowProbe::missing()));
}

#[test]
fn clip_target_rejects_empty_rectangles() {
    assert_eq!(clip_target(rect(0, 0, 1, 1)), Ok(rect(0, 0, 1, 1)));
    assert_eq!(clip_target(rect(0, 0, 0, 1)), Err(ConfineError::InvalidRect(rect(0, 0, 0, 1))));
}

#[test]
fn error_messages() {
    assert_eq!(
        ConfineError::InvalidRect(rect(1, -2, 3, 4)).message(),
        "invalid rect: ScreenRect { left: 1, top: -2, right: 3, bottom: 4 }"
    );
    assert_eq!(ConfineError::Win32(5).message(), "ClipCursor failed with Win32 error code 5");
    assert_eq!(ConfineError::NoHandle.message(), "window handle not available");
}

#[test]
fn refused_activation_changes_nothing() {
    let mut s = ClipState::new();
    let r = s.activate(CageMode::Fixed(rect(0, 0, 4, 4)), 2, &WindowProbe::missing());
    assert_eq!(r, Err(ConfineError::InvalidRect(rect(2, 2, 2, 2))));
    assert!(!s.active);
    assert!(s.mode.is_none());
}

#[test]
fn active_cage_follows_mode_and_padding() {
    let mut s = ClipState::new();
    let p = WindowProbe::missing();
    assert_eq!(s.set_mode(CageMode::Fixed(rect(0, 0, 10, 10)), &p), Ok(None));
    assert_eq!(s.set_padding(3, &p), Ok(None));
    assert_eq!(s.padding, 3);
    assert_eq!(s.activate(CageMode::Fixed(rect(0, 0, 100, 100)), 10, &p), Ok(rect(10, 10, 90, 90)));
    assert_eq!(s.set_padding(20, &p), Ok(Some(rect(20, 20, 80, 80))));
    assert_eq!(s.set_padding(60, &p), Err(ConfineError::InvalidRect(rect(60, 60, 40, 40))));
    assert_eq!(s.padding, 20);
    assert_eq!(s.set_mode(CageMode::Fixed(rect(0, 0, 200, 200)), &p), Ok(Some(rect(20, 20, 180, 180))));
    assert_eq!(s.tick(&p), ClipAction::Apply(rect(20, 20, 180, 180)));
    s.deactivate();
    assert_eq!(s.tick(&p), ClipAction::Keep);
}

#[test]
fn closed_target_window_releases_once() {
    let mut s = ClipState::new();
    let alive = WindowProbe {
        is_window: true,
        is_visible: true,
        is_iconic: false,
        frame: Some(rect(0, 0, 300, 300)),
        window_rect: Ok(rect(0, 0, 300, 300)),
    };
    assert_eq!(s.activate(CageMode::Window { hwnd: 42 }, 0, &alive), Ok(rect(0, 0, 300, 300)));
    let minimized = WindowProbe { is_iconic: true, ..alive };
    assert_eq!(s.tick(&minimized), ClipAction::Keep);
    assert!(s.active);
    assert_eq!(s.tick(&WindowProbe::missing()), ClipAction::Release);
    assert!(!s.active);
    assert_eq!(s.take_auto_release().as_deref(), Some("target window closed"));
    assert_eq!(s.take_auto_release(), None);
    assert_eq!(s.tick(&alive), ClipAction::Keep);
}
