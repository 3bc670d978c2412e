use cursory::domain::WindowInfo;
use cursory::target::{is_listed, sort_windows, title_order};

fn win(hwnd: isize, title: &str) -> WindowInfo {
    WindowInfo { hwnd, title: title.to_string() }
}

#[test]
fn only_visible_titled_windows_are_listed() {
    assert!(is_listed(true, "Notepad"));
    assert!(!is_listed(false, "Notepad"));
    assert!(!is_listed(true, "   \t"));
    assert!(!is_listed(true, ""));
    assert!(is_listed(true, "  x "));
}

#[test]
fn titles_compare_by_code_point_with_prefixes_first() {
    assert!(title_order("abc", "abd"));
    assert!(!title_order("abd", "abc"));
    assert!(title_order("ab", "abc"));
    assert!(!title_order("abc", "ab"));
    assert!(title_order("same", "same"));
    assert!(title_order("", ""));
    assert!(title_order("Z", "a"));
    assert!(!title_order("é", "z"));
}

#[test]
fn picker_is_sorted_case_insensitively_and_stably() {
    let sorted = sort_windows(vec![win(1, "b"), win(2, "A"), win(3, "a"), win(4, "C"), win(5, "B")]);
    let order: Vec<isize> = sorted.iter().map(|w| w.hwnd).collect();
    assert_eq!(order, vec![2, 3, 1, 5, 4]);
    assert!(sort_windows(Vec::new()).is_empty());
}

#[test]
fn own_window_heads_the_picker_and_is_not_repeated() {
    let ws = vec![win(7, "Editor"), win(5, "Cursory"), win(9, "Browser")];
    let choices = cursory::target::window_choices(Some(5), &ws);
    let parts: Vec<(isize, String)> = choices.iter().map(|c| (c.hwnd, c.label.clone())).collect();
    assert_eq!(
        parts,
        vec![
            (5, "(this app) Cursory".to_string()),
            (7, "Editor".to_string()),
            (9, "Browser".to_string())
        ]
    );
    let without_own = cursory::target::window_choices(None, &ws);
    assert_eq!(without_own.len(), 3);
    assert_eq!(without_own[1].label, "Cursory");
}

#[test]
fn the_chosen_entry_defaults_to_the_own_window() {
    let ws = vec![win(7, "Editor"), win(9, "Browser")];
    let choices = cursory::target::window_choices(Some(5), &ws);
    let cur = cursory::target::current_choice(&choices, None, Some(5)).unwrap();
    assert_eq!(cur.hwnd, 5);
    let cur = cursory::target::current_choice(&choices, Some(9), Some(5)).unwrap();
    assert_eq!(cur.label, "Browser");
    assert!(cursory::target::current_choice(&choices, Some(42), Some(5)).is_none());
    assert!(cursory::target::current_choice(&choices, None, None).is_none());
}
