use cursory::domain::{CloseBehavior, Mode};
use cursory::settings::{parse_settings, render_settings, Settings};

fn same(a: &Settings, b: &Settings) -> bool {
    a.mode == b.mode
        && a.selected_monitor == b.selected_monitor
        && a.custom_left == b.custom_left
        && a.custom_top == b.custom_top
        && a.custom_width == b.custom_width
        && a.custom_height == b.custom_height
        && a.padding == b.padding
        && a.minimize_on_activate == b.minimize_on_activate
        && a.close_behavior == b.close_behavior
        && a.hotkey == b.hotkey
}

#[test]
fn defaults_match_a_fresh_install() {
    let d = Settings::default();
    assert_eq!(d.mode, Mode::Monitor);
    assert_eq!(d.selected_monitor, 0);
    assert_eq!((d.custom_left, d.custom_top, d.custom_width, d.custom_height), (100, 100, 800, 600));
    assert_eq!(d.padding, 4);
    assert!(d.minimize_on_activate);
    assert_eq!(d.close_behavior, CloseBehavior::ToTray);
    assert!(d.hotkey.is_none());
}

#[test]
fn empty_file_gives_defaults() {
    assert!(same(&parse_settings(""), &Settings::default()));
}

#[test]
fn rendered_file_has_one_line_per_setting() {
    let s = Settings {
        mode: Mode::Custom,
        selected_monitor: 2,
        custom_left: -10,
        custom_top: 20,
        custom_width: 640,
        custom_height: 480,
        padding: 0,
        minimize_on_activate: false,
        close_behavior: CloseBehavior::Exit,
        hotkey: Some("control+alt+KeyL".to_string()),
    };
    assert_eq!(
        render_settings(&s),
        "mode=Custom\nselected_monitor=2\ncustom_left=-10\ncustom_top=20\ncustom_width=640\n\
         custom_height=480\npadding=0\nminimize_on_activate=false\nclose_behavior=Exit\n\
         hotkey=control+alt+KeyL\n"
    );
    let d = Settings::default();
    assert!(render_settings(&d).ends_with("close_behavior=ToTray\nhotkey=\n"));
}

#[test]
fn saving_then_loading_gives_the_same_settings() {
    let s = Settings {
        mode: Mode::Window,
        selected_monitor: 7,
        custom_left: i32::MIN,
        custom_top: i32::MAX,
        custom_width: 1,
        custom_height: 2,
        padding: -3,
        minimize_on_activate: true,
        close_behavior: CloseBehavior::Exit,
        hotkey: Some("shift+F4".to_string()),
    };
    assert!(same(&parse_settings(&render_settings(&s)), &s));
    let d = Settings::default();
    assert!(same(&parse_settings(&render_settings(&d)), &d));
}

#[test]
fn lenient_reading_keeps_defaults_for_bad_lines() {
    let text = "garbage line\nmode = Window \r\nselected_monitor=-1\ncustom_left=abc\n\
                custom_top= 5 \nunknown=1\npadding=\nminimize_on_activate=TrUe\n\
                close_behavior=Nowhere\nhotkey=   \n=x\n";
    let s = parse_settings(text);
    assert_eq!(s.mode, Mode::Window);
    assert_eq!(s.selected_monitor, 0);
    assert_eq!(s.custom_left, 100);
    assert_eq!(s.custom_top, 5);
    assert_eq!(s.padding, 4);
    assert!(s.minimize_on_activate);
    assert_eq!(s.close_behavior, CloseBehavior::ToTray);
    assert!(s.hotkey.is_none());
}

#[test]
fn only_true_in_any_case_enables_a_flag() {
    assert!(!parse_settings("minimize_on_activate=yes").minimize_on_activate);
    assert!(!parse_settings("minimize_on_activate=false").minimize_on_activate);
    assert!(parse_settings("minimize_on_activate=TRUE").minimize_on_activate);
}

#[test]
fn value_may_contain_equals_signs_and_later_lines_win() {
    let s = parse_settings("hotkey= a=b \nmode=Custom\nmode=Monitor");
    assert_eq!(s.hotkey.as_deref(), Some("a=b"));
    assert_eq!(s.mode, Mode::Monitor);
}
