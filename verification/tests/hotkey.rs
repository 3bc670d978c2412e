use cursory::hotkey::{
    code_label, describe, describe_captured, describe_modifiers, format_register_error,
    from_iced, hotkey_text, initial_combo, is_cancel_key, is_reserved_code, parse_saved_hotkey,
    toggle_fired, Captured, HotkeyBinding, HotkeyMods, HotkeyRecorder, PhysicalKey,
    RegisterFailure,
};

fn captured(code: &str) -> Option<Captured> {
    from_iced(&PhysicalKey::Code(code.to_string()), HotkeyMods::none())
}

fn mods(ctrl: bool, alt: bool, shift: bool, meta: bool) -> HotkeyMods {
    HotkeyMods { ctrl, alt, shift, meta }
}

#[test]
fn representative_keys_map_through_debug_names() {
    let cases = [
        ("KeyA", "KeyA"),
        ("KeyL", "KeyL"),
        ("Digit0", "Digit0"),
        ("F1", "F1"),
        ("F12", "F12"),
        ("Space", "Space"),
        ("Enter", "Enter"),
        ("ArrowUp", "ArrowUp"),
        ("Numpad0", "Numpad0"),
        ("NumpadAdd", "NumpadAdd"),
        ("Minus", "Minus"),
        ("BracketLeft", "BracketLeft"),
    ];
    for (iced_code, expected) in cases {
        let got = captured(iced_code).map(|c| c.key);
        assert_eq!(got.as_deref(), Some(expected), "mapping failed for {iced_code:?}");
    }
}

#[test]
fn reserved_keys_are_rejected() {
    assert!(captured("Escape").is_none());
    assert!(captured("ControlLeft").is_none());
    assert!(captured("AltRight").is_none());
}

#[test]
fn unidentified_physical_is_rejected() {
    assert!(from_iced(&PhysicalKey::Unidentified, HotkeyMods::none()).is_none());
}

#[test]
fn captured_combo_keeps_held_modifiers() {
    let c = from_iced(&PhysicalKey::Code("KeyK".to_string()), mods(true, false, true, false))
        .unwrap();
    assert_eq!(c.mods, mods(true, false, true, false));
    assert_eq!(c.key, "KeyK");
    assert_eq!(describe_captured(&c), "Ctrl+Shift+K");
}

#[test]
fn unknown_key_name_is_rejected() {
    assert!(captured("NotAKey").is_none());
}

#[test]
fn every_reserved_name_is_reserved() {
    for name in [
        "Escape", "ShiftLeft", "ShiftRight", "ControlLeft", "ControlRight", "AltLeft",
        "AltRight", "SuperLeft", "SuperRight", "Fn", "FnLock", "Hyper", "Meta",
    ] {
        assert!(is_reserved_code(name), "{name}");
    }
    assert!(!is_reserved_code("KeyA"));
    assert!(!is_reserved_code("escape"));
}

#[test]
fn cancel_key_is_escape_only() {
    assert!(is_cancel_key(&PhysicalKey::Code("Escape".to_string())));
    assert!(!is_cancel_key(&PhysicalKey::Code("Enter".to_string())));
    assert!(!is_cancel_key(&PhysicalKey::Unidentified));
}

#[test]
fn code_labels_shorten_prefixes() {
    assert_eq!(code_label("KeyL"), "L");
    assert_eq!(code_label("Digit7"), "7");
    assert_eq!(code_label("Numpad3"), "Num3");
    assert_eq!(code_label("NumpadAdd"), "NumAdd");
    assert_eq!(code_label("F5"), "F5");
    assert_eq!(code_label("Key"), "");
}

#[test]
fn modifier_descriptions_join_in_fixed_order() {
    assert_eq!(describe_modifiers(HotkeyMods::none()), "");
    assert_eq!(describe_modifiers(mods(true, true, true, true)), "Ctrl+Alt+Shift+Win");
    assert_eq!(describe_modifiers(mods(false, true, false, true)), "Alt+Win");
    assert_eq!(describe(mods(true, true, false, false), "KeyL"), "Ctrl+Alt+L");
    assert_eq!(describe(HotkeyMods::none(), "F9"), "F9");
}

#[test]
fn saved_text_lists_modifiers_then_key() {
    let c = Captured { mods: mods(true, true, true, true), key: "KeyQ".to_string() };
    assert_eq!(hotkey_text(&c), "shift+control+alt+meta+KeyQ");
    let c = Captured { mods: HotkeyMods::none(), key: "F2".to_string() };
    assert_eq!(hotkey_text(&c), "F2");
}

#[test]
fn saved_text_parses_back() {
    let c = Captured { mods: mods(true, false, true, false), key: "KeyQ".to_string() };
    let back = parse_saved_hotkey(&hotkey_text(&c)).unwrap();
    assert_eq!(back.mods, c.mods);
    assert_eq!(back.key, c.key);
}

#[test]
fn initial_combo_falls_back_to_default() {
    let d = initial_combo(None);
    assert_eq!(d.mods, mods(true, true, false, false));
    assert_eq!(d.key, "KeyL");
    let bad = initial_combo(Some("shift+"));
    assert_eq!(bad.mods, mods(true, true, false, false));
    assert_eq!(bad.key, "KeyL");
    let saved = initial_combo(Some("shift+alt+KeyQ"));
    assert_eq!(saved.mods, mods(false, true, true, false));
    assert_eq!(saved.key, "KeyQ");
}

#[test]
fn register_errors_name_the_combo() {
    let c = Captured { mods: mods(true, true, false, false), key: "KeyL".to_string() };
    assert_eq!(
        format_register_error(&RegisterFailure::AlreadyRegistered, &c),
        "Ctrl+Alt+L is already bound to this app"
    );
    assert_eq!(
        format_register_error(&RegisterFailure::Unavailable, &c),
        "Ctrl+Alt+L is unavailable — another app or the OS may be using it"
    );
    assert_eq!(
        format_register_error(&RegisterFailure::FailedToUnregister("boom".to_string()), &c),
        "failed to release previous hotkey: boom"
    );
    assert_eq!(
        format_register_error(&RegisterFailure::Other("odd".to_string()), &c),
        "failed to bind Ctrl+Alt+L: odd"
    );
}

#[test]
fn binding_skips_rebinding_the_same_combo() {
    let mut b = HotkeyBinding::new();
    let c = Captured { mods: mods(true, true, false, false), key: "KeyL".to_string() };
    assert!(b.needs_register(&c));
    assert!(b.serialize().is_none());
    b.commit(c.clone());
    assert!(!b.needs_register(&c));
    assert_eq!(b.describe(), "Ctrl+Alt+L");
    assert_eq!(b.serialize().as_deref(), Some("control+alt+KeyL"));
    let other = Captured { mods: mods(true, true, false, false), key: "KeyK".to_string() };
    assert!(b.needs_register(&other));
}

#[test]
fn toggle_fires_only_on_press_of_bound_id() {
    assert!(!toggle_fired(&[], Some(7)));
    assert!(!toggle_fired(&[(7, false)], Some(7)));
    assert!(!toggle_fired(&[(8, true)], Some(7)));
    assert!(toggle_fired(&[(8, true), (7, false), (7, true)], Some(7)));
    assert!(!toggle_fired(&[(7, true)], None));
}

#[test]
fn recorder_session_transitions() {
    let mut r = HotkeyRecorder::new();
    assert!(!r.is_recording());
    r.start();
    assert!(r.is_recording());
    r.set_modifiers(mods(true, false, false, false));
    assert_eq!(r.pending_mods(), mods(true, false, false, false));
    r.set_combo(Captured { mods: mods(true, false, false, false), key: "KeyA".to_string() });
    assert_eq!(r.pending().unwrap().key, "KeyA");
    r.clear();
    assert!(r.is_recording());
    assert!(r.pending().is_none());
    assert_eq!(r.pending_mods(), HotkeyMods::none());
    r.stop();
    assert!(!r.is_recording());
}
