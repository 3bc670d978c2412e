use cursory::domain::Mode;
use cursory::geometry::ScreenRect;
use cursory::monitor::{bounding_box, monitor_caption, virtual_screen, MonitorInfo};

fn monitor(l: i32, t: i32, r: i32, b: i32) -> MonitorInfo {
    MonitorInfo {
        name: format!("DISPLAY{l}"),
        bounds: ScreenRect::new(l, t, r, b),
        work_area: ScreenRect::new(l, t, r, b - 40),
        is_primary: l == 0,
    }
}

#[test]
fn rectangle_extent_and_validity() {
    let r = ScreenRect::from_xywh(10, 20, 300, 200);
    assert_eq!(r, ScreenRect::new(10, 20, 310, 220));
    assert_eq!((r.width(), r.height()), (300, 200));
    assert!(r.is_valid());
    assert!(!ScreenRect::new(5, 5, 5, 10).is_valid());
    assert!(!ScreenRect::new(5, 5, 10, 4).is_valid());
    assert_eq!(r.inset(10), ScreenRect::new(20, 30, 300, 210));
    assert_eq!(r.inset(-1), ScreenRect::new(9, 19, 311, 221));
    assert!(r.can_inset(5));
    assert!(!ScreenRect::new(i32::MIN, 0, 0, 1).can_inset(-1));
}

#[test]
fn virtual_screen_encloses_all_monitors() {
    assert_eq!(virtual_screen(&[]), None);
    let ms = vec![monitor(0, 0, 1920, 1080), monitor(-1280, 200, 0, 1224), monitor(1920, -100, 3840, 980)];
    assert_eq!(virtual_screen(&ms), Some(ScreenRect::new(-1280, -100, 3840, 1224)));
    assert_eq!(bounding_box(&ms[..1]), ScreenRect::new(0, 0, 1920, 1080));
    assert_eq!(bounding_box(&[]), ScreenRect::new(i32::MAX, i32::MAX, i32::MIN, i32::MIN));
}

#[test]
fn mode_labels() {
    assert_eq!(Mode::Window.label(), "App window");
    assert_eq!(Mode::Monitor.label(), "Monitor");
    assert_eq!(Mode::Custom.label(), "Custom rect");
}

#[test]
fn monitor_caption_describes_the_selected_display() {
    let ms = vec![
        MonitorInfo {
            name: "A".to_string(),
            bounds: ScreenRect::new(0, 0, 1920, 1080),
            work_area: ScreenRect::new(0, 0, 1920, 1040),
            is_primary: true,
        },
        MonitorInfo {
            name: "B".to_string(),
            bounds: ScreenRect::new(-1280, 100, 0, 1124),
            work_area: ScreenRect::new(-1280, 100, 0, 1084),
            is_primary: false,
        },
    ];
    assert_eq!(monitor_caption(&ms, 0).unwrap(), "#1  1920×1080 at (0,0) · primary");
    assert_eq!(monitor_caption(&ms, 1).unwrap(), "#2  1280×1024 at (-1280,100)");
    assert_eq!(monitor_caption(&ms, 5).unwrap(), "#2  1280×1024 at (-1280,100)");
    assert!(monitor_caption(&[], 0).is_none());
}
