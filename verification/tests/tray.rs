use cursory::domain::IconState;
use cursory::tray::{best_ico_image, tray_tip, write_wide_fixed, TrayState};

fn ico(entries: &[(u8, &[u8])]) -> Vec<u8> {
    let mut out = vec![0, 0, 1, 0, entries.len() as u8, 0];
    let mut offset = 6 + 16 * entries.len();
    for (w, data) in entries {
        out.extend_from_slice(&[*w, *w, 0, 0, 1, 0, 32, 0]);
        out.extend_from_slice(&(data.len() as u32).to_le_bytes());
        out.extend_from_slice(&(offset as u32).to_le_bytes());
        offset += data.len();
    }
    for (_, data) in entries {
        out.extend_from_slice(data);
    }
    out
}

#[test]
fn widest_image_is_chosen() {
    let bytes = ico(&[(16, b"small"), (0, b"huge!"), (64, b"mid")]);
    assert_eq!(best_ico_image(&bytes), Some(&b"huge!"[..]));
    let bytes = ico(&[(32, b"first"), (32, b"second")]);
    assert_eq!(best_ico_image(&bytes), Some(&b"first"[..]));
}

#[test]
fn malformed_icons_are_rejected() {
    assert_eq!(best_ico_image(&[0, 0, 1, 0]), None);
    assert_eq!(best_ico_image(&ico(&[])), None);
    let mut cursor = ico(&[(16, b"x")]);
    cursor[2] = 2;
    assert_eq!(best_ico_image(&cursor), None);
    let mut cut = ico(&[(16, b"abc"), (48, b"defg")]);
    cut.truncate(cut.len() - 1);
    assert_eq!(best_ico_image(&cut), None);
    let mut short_dir = ico(&[(16, b"abc")]);
    short_dir[4] = 3;
    assert_eq!(best_ico_image(&short_dir), None);
}

#[test]
fn tooltip_text_is_copied_and_truncated() {
    let mut buf = [0xFFFFu16; 5];
    write_wide_fixed(&mut buf, "ab");
    assert_eq!(buf, [97, 98, 0xFFFF, 0xFFFF, 0xFFFF]);
    let mut small = [0u16; 3];
    write_wide_fixed(&mut small, "Cursory");
    assert_eq!(small, [67, 117, 114]);
    let mut wide = [0u16; 4];
    write_wide_fixed(&mut wide, "a😀");
    let expected: Vec<u16> = "a😀".encode_utf16().collect();
    assert_eq!(&wide[..3], &expected[..]);
    let mut cut = [0u16; 2];
    write_wide_fixed(&mut cut, "a😀");
    assert_eq!(cut, [97, expected[1]]);
}

#[test]
fn tips_and_probe_lifecycle() {
    assert_eq!(tray_tip(IconState::Idle), "Cursory");
    assert_eq!(tray_tip(IconState::Active), "Cursory - active");
    let mut t = TrayState::new();
    assert!(t.should_probe_minimized());
    t.begin_minimize_probe();
    assert!(!t.should_probe_minimized());
    t.end_minimize_probe();
    t.mark_hidden();
    assert!(!t.should_probe_minimized());
    t.mark_restored();
    assert!(t.should_probe_minimized());
}
