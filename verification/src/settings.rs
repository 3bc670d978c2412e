//! The persisted settings and their `key=value` text format.
//!
//! Reading is lenient: unknown keys, lines without `=` and values that do not
//! parse leave the default in place. Writing emits one line per setting, and
//! what is written reads back unchanged (`lemma_settings_round_trip`).

use crate::domain::{CloseBehavior, Mode};
use crate::text::{
    chars_equal, chars_of, find_char, first_index, has_char, i32_to_string, int_repr,
    lemma_first_index_window, nat_repr, parse_i32, parse_usize, spec_parse_i32, spec_parse_usize,
    trim, trim_bounds, usize_to_string,
};
use vstd::prelude::*;

verus! {

/// Everything Cursory remembers between runs.
#[derive(Debug, Clone)]
pub struct Settings {
    pub mode: Mode,
    pub selected_monitor: usize,
    pub custom_left: i32,
    pub custom_top: i32,
    pub custom_width: i32,
    pub custom_height: i32,
    pub padding: i32,
    pub minimize_on_activate: bool,
    pub close_behavior: CloseBehavior,
    pub hotkey: Option<String>,
}

/// The mathematical content of [`Settings`].
pub struct SettingsView {
    pub mode: Mode,
    pub selected_monitor: usize,
    pub custom_left: i32,
    pub custom_top: i32,
    pub custom_width: i32,
    pub custom_height: i32,
    pub padding: i32,
    pub minimize_on_activate: bool,
    pub close_behavior: CloseBehavior,
    pub hotkey: Option<Seq<char>>,
}

impl View for Settings {
    type V = SettingsView;

    open spec fn view(&self) -> SettingsView {
        SettingsView {
            mode: self.mode,
            selected_monitor: self.selected_monitor,
            custom_left: self.custom_left,
            custom_top: self.custom_top,
            custom_width: self.custom_width,
            custom_height: self.custom_height,
            padding: self.padding,
            minimize_on_activate: self.minimize_on_activate,
            close_behavior: self.close_behavior,
            hotkey: match self.hotkey {
                Some(h) => Some(h@),
                None => None,
            },
        }
    }
}

/// The settings used when nothing has been saved.
pub open spec fn default_settings() -> SettingsView {
    SettingsView {
        mode: Mode::Monitor,
        selected_monitor: 0,
        custom_left: 100,
        custom_top: 100,
        custom_width: 800,
        custom_height: 600,
        padding: 4,
        minimize_on_activate: true,
        close_behavior: CloseBehavior::ToTray,
        hotkey: None,
    }
}

impl Settings {
    pub fn default() -> (s: Settings)
        ensures
            s@ == default_settings(),
    {
        Settings {
            mode: Mode::Monitor,
            selected_monitor: 0,
            custom_left: 100,
            custom_top: 100,
            custom_width: 800,
            custom_height: 600,
            padding: 4,
            minimize_on_activate: true,
            close_behavior: CloseBehavior::ToTray,
            hotkey: None,
        }
    }
}

// ---------------------------------------------------------------------------
// Reading
// ---------------------------------------------------------------------------

/// Whether `v` is `"true"` up to ASCII case.
pub open spec fn is_true_word(v: Seq<char>) -> bool {
    &&& v.len() == 4
    &&& (v[0] == 't' || v[0] == 'T')
    &&& (v[1] == 'r' || v[1] == 'R')
    &&& (v[2] == 'u' || v[2] == 'U')
    &&& (v[3] == 'e' || v[3] == 'E')
}

/// The effect of one `key = value` pair (both already trimmed) on `s`.
#[verifier::opaque]
pub open spec fn apply_setting(s: SettingsView, key: Seq<char>, value: Seq<char>) -> SettingsView {
    if key == "mode"@ {
        if value == "Window"@ {
            SettingsView { mode: Mode::Window, ..s }
        } else if value == "Monitor"@ {
            SettingsView { mode: Mode::Monitor, ..s }
        } else if value == "Custom"@ {
            SettingsView { mode: Mode::Custom, ..s }
        } else {
            s
        }
    } else if key == "selected_monitor"@ {
        match spec_parse_usize(value) {
            Some(n) => SettingsView { selected_monitor: n, ..s },
            None => s,
        }
    } else if key == "custom_left"@ {
        match spec_parse_i32(value) {
            Some(n) => SettingsView { custom_left: n, ..s },
            None => s,
        }
    } else if key == "custom_top"@ {
        match spec_parse_i32(value) {
            Some(n) => SettingsView { custom_top: n, ..s },
            None => s,
        }
    } else if key == "custom_width"@ {
        match spec_parse_i32(value) {
            Some(n) => SettingsView { custom_width: n, ..s },
            None => s,
        }
    } else if key == "custom_height"@ {
        match spec_parse_i32(value) {
            Some(n) => SettingsView { custom_height: n, ..s },
            None => s,
        }
    } else if key == "padding"@ {
        match spec_parse_i32(value) {
            Some(n) => SettingsView { padding: n, ..s },
            None => s,
        }
    } else if key == "minimize_on_activate"@ {
        SettingsView { minimize_on_activate: is_true_word(value), ..s }
    } else if key == "close_behavior"@ {
        if value == "ToTray"@ {
            SettingsView { close_behavior: CloseBehavior::ToTray, ..s }
        } else if value == "Exit"@ {
            SettingsView { close_behavior: CloseBehavior::Exit, ..s }
        } else {
            s
        }
    } else if key == "hotkey"@ {
        if value.len() > 0 {
            SettingsView { hotkey: Some(value), ..s }
        } else {
            s
        }
    } else {
        s
    }
}

/// The effect of one line: split at its first `=`, trim both sides; a line
/// without `=` changes nothing.
pub open spec fn apply_line(s: SettingsView, line: Seq<char>) -> SettingsView {
    match first_index(line, '=') {
        Some(i) => apply_setting(s, trim(line.take(i)), trim(line.skip(i + 1))),
        None => s,
    }
}

/// The effect of every `\n`-separated line of `text`, in order.
pub open spec fn apply_lines(s: SettingsView, text: Seq<char>) -> SettingsView
    decreases text.len(),
{
    if has_char(text, '\n') {
        let i = first_index(text, '\n')->0;
        if 0 <= i < text.len() {
            apply_lines(apply_line(s, text.take(i)), text.skip(i + 1))
        } else {
            s
        }
    } else {
        apply_line(s, text)
    }
}

/// The settings that a file holding `text` describes.
pub open spec fn spec_parse_settings(text: Seq<char>) -> SettingsView {
    apply_lines(default_settings(), text)
}

fn is_key(key: &[char], lit: &str) -> (b: bool)
    ensures
        b == (key@ == lit@),
{
    let l = chars_of(lit);
    chars_equal(key, l.as_slice())
}

fn apply_setting_exec(s: &mut Settings, text: &str, chars: &Vec<char>, ka: usize, kb: usize, va: usize, vb: usize)
    requires
        chars@ == text@,
        ka <= kb <= chars@.len(),
        va <= vb <= chars@.len(),
    ensures
        final(s)@ == apply_setting(old(s)@, chars@.subrange(ka as int, kb as int), chars@.subrange(va as int, vb as int)),
{
    reveal(apply_setting);
    let key = vstd::slice::slice_subrange(chars.as_slice(), ka, kb);
    let value = vstd::slice::slice_subrange(chars.as_slice(), va, vb);
    if is_key(key, "mode") {
        if is_key(value, "Window") {
            s.mode = Mode::Window;
        } else if is_key(value, "Monitor") {
            s.mode = Mode::Monitor;
        } else if is_key(value, "Custom") {
            s.mode = Mode::Custom;
        }
    } else if is_key(key, "selected_monitor") {
        if let Some(n) = parse_usize(value) {
            s.selected_monitor = n;
        }
    } else if is_key(key, "custom_left") {
        if let Some(n) = parse_i32(value) {
            s.custom_left = n;
        }
    } else if is_key(key, "custom_top") {
        if let Some(n) = parse_i32(value) {
            s.custom_top = n;
        }
    } else if is_key(key, "custom_width") {
        if let Some(n) = parse_i32(value) {
            s.custom_width = n;
        }
    } else if is_key(key, "custom_height") {
        if let Some(n) = parse_i32(value) {
            s.custom_height = n;
        }
    } else if is_key(key, "padding") {
        if let Some(n) = parse_i32(value) {
            s.padding = n;
        }
    } else if is_key(key, "minimize_on_activate") {
        let v = value;
        s.minimize_on_activate = v.len() == 4 && (v[0] == 't' || v[0] == 'T') && (v[1] == 'r'
            || v[1] == 'R') && (v[2] == 'u' || v[2] == 'U') && (v[3] == 'e' || v[3] == 'E');
    } else if is_key(key, "close_behavior") {
        if is_key(value, "ToTray") {
            s.close_behavior = CloseBehavior::ToTray;
        } else if is_key(value, "Exit") {
            s.close_behavior = CloseBehavior::Exit;
        }
    } else if is_key(key, "hotkey") {
        if va < vb {
            let h = text.substring_char(va, vb);
            s.hotkey = Some(String::from_str(h));
        }
    }
}

fn apply_line_exec(s: &mut Settings, text: &str, chars: &Vec<char>, from: usize, to: usize)
    requires
        chars@ == text@,
        from <= to <= chars@.len(),
    ensures
        final(s)@ == apply_line(old(s)@, chars@.subrange(from as int, to as int)),
{
    let ghost line = chars@.subrange(from as int, to as int);
    let eq = find_char(chars.as_slice(), from, to, '=');
    proof {
        lemma_first_index_window(chars@, from as int, to as int, '=', match eq {
            Some(i) => Some(i as int),
            None => None,
        });
    }
    if let Some(e) = eq {
        let (ka, kb) = trim_bounds(chars.as_slice(), from, e);
        let (va, vb) = trim_bounds(chars.as_slice(), e + 1, to);
        assert(line.take(e - from) =~= chars@.subrange(from as int, e as int));
        assert(line.skip(e - from + 1) =~= chars@.subrange(e + 1, to as int));
        apply_setting_exec(s, text, chars, ka, kb, va, vb);
    }
}

/// The settings described by the text of a settings file.
pub fn parse_settings(text: &str) -> (s: Settings)
    ensures
        s@ == spec_parse_settings(text@),
{
    let chars = chars_of(text);
    let n = chars.len();
    let mut s = Settings::default();
    let mut pos: usize = 0;
    assert(chars@.skip(0) =~= chars@);
    loop
        invariant
            chars@ == text@,
            n == chars@.len(),
            pos <= n,
            spec_parse_settings(text@) == apply_lines(s@, chars@.skip(pos as int)),
        decreases n - pos,
    {
        let ghost rest = chars@.skip(pos as int);
        assert(rest =~= chars@.subrange(pos as int, n as int));
        let nl = find_char(chars.as_slice(), pos, n, '\n');
        proof {
            lemma_first_index_window(chars@, pos as int, n as int, '\n', match nl {
                Some(i) => Some(i as int),
                None => None,
            });
        }
        match nl {
            Some(k) => {
                assert(rest[k - pos] == '\n');
                assert(has_char(rest, '\n'));
                assert(rest.take(k - pos) =~= chars@.subrange(pos as int, k as int));
                assert(rest.skip(k - pos + 1) =~= chars@.skip(k + 1));
                apply_line_exec(&mut s, text, &chars, pos, k);
                pos = k + 1;
            },
            None => {
                apply_line_exec(&mut s, text, &chars, pos, n);
                return s;
            },
        }
    }
}

// ---------------------------------------------------------------------------
// Writing
// ---------------------------------------------------------------------------

pub open spec fn mode_name(m: Mode) -> Seq<char> {
    match m {
        Mode::Window => "Window"@,
        Mode::Monitor => "Monitor"@,
        Mode::Custom => "Custom"@,
    }
}

pub open spec fn close_name(c: CloseBehavior) -> Seq<char> {
    match c {
        CloseBehavior::ToTray => "ToTray"@,
        CloseBehavior::Exit => "Exit"@,
    }
}

pub open spec fn bool_repr(b: bool) -> Seq<char> {
    if b {
        "true"@
    } else {
        "false"@
    }
}

/// One `key=value` line, newline included.
pub open spec fn setting_line(key: Seq<char>, value: Seq<char>) -> Seq<char> {
    key + seq!['='] + value + seq!['\n']
}

/// The text that saving `s` writes.
pub open spec fn spec_render_settings(s: SettingsView) -> Seq<char> {
    setting_line("mode"@, mode_name(s.mode))
        + setting_line("selected_monitor"@, nat_repr(s.selected_monitor as nat))
        + setting_line("custom_left"@, int_repr(s.custom_left as int))
        + setting_line("custom_top"@, int_repr(s.custom_top as int))
        + setting_line("custom_width"@, int_repr(s.custom_width as int))
        + setting_line("custom_height"@, int_repr(s.custom_height as int))
        + setting_line("padding"@, int_repr(s.padding as int))
        + setting_line("minimize_on_activate"@, bool_repr(s.minimize_on_activate))
        + setting_line("close_behavior"@, close_name(s.close_behavior))
        + setting_line("hotkey"@, hotkey_text(s.hotkey))
}

/// The text written for a hotkey: the hotkey itself, or nothing.
pub open spec fn hotkey_text(h: Option<Seq<char>>) -> Seq<char> {
    match h {
        Some(k) => k,
        None => Seq::<char>::empty(),
    }
}

fn push_line(out: &mut String, key: &str, value: &str)
    ensures
        final(out)@ == old(out)@ + setting_line(key@, value@),
{
    proof {
        reveal_strlit("=");
        reveal_strlit("\n");
    }
    out.append(key);
    out.append("=");
    out.append(value);
    out.append("\n");
    assert(final(out)@ =~= old(out)@ + setting_line(key@, value@));
}

/// The text that saving `s` writes to the settings file.
pub fn render_settings(s: &Settings) -> (out: String)
    ensures
        out@ == spec_render_settings(s@),
{
    let mode = match s.mode {
        Mode::Window => "Window",
        Mode::Monitor => "Monitor",
        Mode::Custom => "Custom",
    };
    let close = match s.close_behavior {
        CloseBehavior::ToTray => "ToTray",
        CloseBehavior::Exit => "Exit",
    };
    let minimize = if s.minimize_on_activate {
        "true"
    } else {
        "false"
    };
    let mut out = String::new();
    push_line(&mut out, "mode", mode);
    let v = usize_to_string(s.selected_monitor);
    push_line(&mut out, "selected_monitor", v.as_str());
    let v = i32_to_string(s.custom_left);
    push_line(&mut out, "custom_left", v.as_str());
    let v = i32_to_string(s.custom_top);
    push_line(&mut out, "custom_top", v.as_str());
    let v = i32_to_string(s.custom_width);
    push_line(&mut out, "custom_width", v.as_str());
    let v = i32_to_string(s.custom_height);
    push_line(&mut out, "custom_height", v.as_str());
    let v = i32_to_string(s.padding);
    push_line(&mut out, "padding", v.as_str());
    push_line(&mut out, "minimize_on_activate", minimize);
    push_line(&mut out, "close_behavior", close);
    match &s.hotkey {
        Some(h) => push_line(&mut out, "hotkey", h.as_str()),
        None => {
            proof { reveal_strlit(""); }
            push_line(&mut out, "hotkey", "");
        },
    }
    assert(out@ =~= spec_render_settings(s@));
    out
}

// ---------------------------------------------------------------------------
// Round trip
// ---------------------------------------------------------------------------

/// A hotkey text survives saving and loading unchanged when it is non-empty,
/// holds no line break and has no surrounding whitespace.
pub open spec fn hotkey_storable(h: Option<Seq<char>>) -> bool {
    match h {
        Some(k) => k.len() > 0 && !has_char(k, '\n') && trim(k) == k,
        None => true,
    }
}

/// A seq of lowercase letters and underscores is its own trim and holds neither `=` nor a line break.
proof fn lemma_key(k: Seq<char>)
    requires
        k.len() > 0,
        forall|i: int| 0 <= i < k.len() ==> ('a' <= #[trigger] k[i] <= 'z' || k[i] == '_'),
    ensures
        trim(k) == k,
        !has_char(k, '='),
        !has_char(k, '\n'),
{
    assert('a' <= k[0] <= 'z' || k[0] == '_');
    assert('a' <= k.last() <= 'z' || k.last() == '_');
}

/// A seq of ASCII letters is its own trim and holds no line break.
proof fn lemma_plain_word(w: Seq<char>)
    requires
        w.len() > 0,
        forall|i: int| 0 <= i < w.len() ==> 'A' <= #[trigger] w[i] <= 'z',
    ensures
        trim(w) == w,
        !has_char(w, '\n'),
{
    assert('A' <= w[0] <= 'z');
    assert('A' <= w.last() <= 'z');
}

/// A key and value line is read as the pair of its trimmed key and value.
proof fn lemma_line_step(s: SettingsView, key: Seq<char>, value: Seq<char>, rest: Seq<char>)
    requires
        !has_char(key, '='),
        !has_char(key, '\n'),
        !has_char(value, '\n'),
        trim(key) == key,
    ensures
        apply_lines(s, setting_line(key, value) + rest) == apply_lines(
            apply_setting(s, key, trim(value)),
            rest,
        ),
{
    let line = key + seq!['='] + value;
    let t = setting_line(key, value) + rest;
    assert(t =~= line + seq!['\n'] + rest);
    let n = line.len() as int;
    assert(t[n] == '\n');
    assert forall|j: int| 0 <= j < n implies t[j] != '\n' by {
        if j < key.len() {
            assert(t[j] == key[j]);
        } else if j > key.len() {
            assert(t[j] == value[j - key.len() - 1]);
        }
    }
    assert(t.subrange(0, t.len() as int) =~= t);
    lemma_first_index_window(t, 0, t.len() as int, '\n', Some(n));
    assert(has_char(t, '\n'));
    assert(t.take(n) =~= line);
    assert(t.skip(n + 1) =~= rest);
    let k = key.len() as int;
    assert forall|j: int| 0 <= j < k implies line[j] != '=' by {
        assert(line[j] == key[j]);
    }
    assert(line.subrange(0, line.len() as int) =~= line);
    lemma_first_index_window(line, 0, line.len() as int, '=', Some(k));
    assert(line.take(k) =~= key);
    assert(line.skip(k + 1) =~= value);
}

proof fn lemma_empty_text(s: SettingsView)
    ensures
        apply_lines(s, Seq::<char>::empty()) == s,
{
    let e = Seq::<char>::empty();
    assert(!has_char(e, '\n'));
    assert(e.subrange(0, 0) =~= e);
    lemma_first_index_window(e, 0, 0, '=', None);
}

proof fn lemma_int_value(i: i32)
    ensures
        trim(int_repr(i as int)) == int_repr(i as int),
        !has_char(int_repr(i as int), '\n'),
        spec_parse_i32(int_repr(i as int)) == Some(i),
{
    crate::text::lemma_i32_round_trip(i);
    let r = int_repr(i as int);
    if i < 0 {
        crate::text::lemma_nat_repr((-(i as int)) as nat);
        assert forall|j: int| 0 <= j < r.len() implies r[j] != '\n' by {
            if j > 0 {
                assert(r[j] == nat_repr((-(i as int)) as nat)[j - 1]);
                assert(crate::text::is_digit(nat_repr((-(i as int)) as nat)[j - 1]));
            }
        }
    } else {
        crate::text::lemma_nat_repr(i as nat);
        assert forall|j: int| 0 <= j < r.len() implies r[j] != '\n' by {
            assert(crate::text::is_digit(r[j]));
        }
    }
}

proof fn lemma_usize_value(n: usize)
    ensures
        trim(nat_repr(n as nat)) == nat_repr(n as nat),
        !has_char(nat_repr(n as nat), '\n'),
        spec_parse_usize(nat_repr(n as nat)) == Some(n),
{
    crate::text::lemma_usize_round_trip(n);
    crate::text::lemma_nat_repr(n as nat);
    let r = nat_repr(n as nat);
    assert forall|j: int| 0 <= j < r.len() implies r[j] != '\n' by {
        assert(crate::text::is_digit(r[j]));
    }
}

proof fn lemma_key_mode()
    ensures
        trim("mode"@) == "mode"@,
        !has_char("mode"@, '='),
        !has_char("mode"@, '\n'),
{
    reveal_strlit("mode");
    lemma_key("mode"@);
}

proof fn lemma_key_selected_monitor()
    ensures
        trim("selected_monitor"@) == "selected_monitor"@,
        !has_char("selected_monitor"@, '='),
        !has_char("selected_monitor"@, '\n'),
{
    reveal_strlit("selected_monitor");
    lemma_key("selected_monitor"@);
}

proof fn lemma_key_custom_left()
    ensures
        trim("custom_left"@) == "custom_left"@,
        !has_char("custom_left"@, '='),
        !has_char("custom_left"@, '\n'),
{
    reveal_strlit("custom_left");
    lemma_key("custom_left"@);
}

proof fn lemma_key_custom_top()
    ensures
        trim("custom_top"@) == "custom_top"@,
        !has_char("custom_top"@, '='),
        !has_char("custom_top"@, '\n'),
{
    reveal_strlit("custom_top");
    lemma_key("custom_top"@);
}

proof fn lemma_key_custom_width()
    ensures
        trim("custom_width"@) == "custom_width"@,
        !has_char("custom_width"@, '='),
        !has_char("custom_width"@, '\n'),
{
    reveal_strlit("custom_width");
    lemma_key("custom_width"@);
}

proof fn lemma_key_custom_height()
    ensures
        trim("custom_height"@) == "custom_height"@,
        !has_char("custom_height"@, '='),
        !has_char("custom_height"@, '\n'),
{
    reveal_strlit("custom_height");
    lemma_key("custom_height"@);
}

proof fn lemma_key_padding()
    ensures
        trim("padding"@) == "padding"@,
        !has_char("padding"@, '='),
        !has_char("padding"@, '\n'),
{
    reveal_strlit("padding");
    lemma_key("padding"@);
}

proof fn lemma_key_minimize_on_activate()
    ensures
        trim("minimize_on_activate"@) == "minimize_on_activate"@,
        !has_char("minimize_on_activate"@, '='),
        !has_char("minimize_on_activate"@, '\n'),
{
    reveal_strlit("minimize_on_activate");
    lemma_key("minimize_on_activate"@);
}

proof fn lemma_key_close_behavior()
    ensures
        trim("close_behavior"@) == "close_behavior"@,
        !has_char("close_behavior"@, '='),
        !has_char("close_behavior"@, '\n'),
{
    reveal_strlit("close_behavior");
    lemma_key("close_behavior"@);
}

proof fn lemma_key_hotkey()
    ensures
        trim("hotkey"@) == "hotkey"@,
        !has_char("hotkey"@, '='),
        !has_char("hotkey"@, '\n'),
{
    reveal_strlit("hotkey");
    lemma_key("hotkey"@);
}

proof fn lemma_word_window()
    ensures
        trim("Window"@) == "Window"@,
        !has_char("Window"@, '\n'),
{
    reveal_strlit("Window");
    lemma_plain_word("Window"@);
}

proof fn lemma_word_monitor()
    ensures
        trim("Monitor"@) == "Monitor"@,
        !has_char("Monitor"@, '\n'),
{
    reveal_strlit("Monitor");
    lemma_plain_word("Monitor"@);
}

proof fn lemma_word_custom()
    ensures
        trim("Custom"@) == "Custom"@,
        !has_char("Custom"@, '\n'),
{
    reveal_strlit("Custom");
    lemma_plain_word("Custom"@);
}

proof fn lemma_word_totray()
    ensures
        trim("ToTray"@) == "ToTray"@,
        !has_char("ToTray"@, '\n'),
{
    reveal_strlit("ToTray");
    lemma_plain_word("ToTray"@);
}

proof fn lemma_word_exit()
    ensures
        trim("Exit"@) == "Exit"@,
        !has_char("Exit"@, '\n'),
{
    reveal_strlit("Exit");
    lemma_plain_word("Exit"@);
}

proof fn lemma_word_true()
    ensures
        trim("true"@) == "true"@,
        !has_char("true"@, '\n'),
{
    reveal_strlit("true");
    lemma_plain_word("true"@);
}

proof fn lemma_word_false()
    ensures
        trim("false"@) == "false"@,
        !has_char("false"@, '\n'),
{
    reveal_strlit("false");
    lemma_plain_word("false"@);
}

/// Reading the line written for `mode` sets `mode` and nothing else.
proof fn lemma_effect_mode(s: SettingsView, t: SettingsView)
    ensures
        apply_setting(s, "mode"@, mode_name(t.mode)) == (SettingsView { mode: t.mode, ..s }),
{
    reveal(apply_setting);
    reveal_strlit("mode");
    reveal_strlit("selected_monitor");
    reveal_strlit("custom_left");
    reveal_strlit("custom_top");
    reveal_strlit("custom_width");
    reveal_strlit("custom_height");
    reveal_strlit("padding");
    reveal_strlit("minimize_on_activate");
    reveal_strlit("close_behavior");
    reveal_strlit("hotkey");
    reveal_strlit("Window");
    reveal_strlit("Monitor");
    reveal_strlit("Custom");
    reveal_strlit("ToTray");
    reveal_strlit("Exit");
    reveal_strlit("true");
    reveal_strlit("false");
    assert("Window"@[0] != "Custom"@[0]);
    assert("Window"@ != "Custom"@);
}

/// Reading the line written for `selected_monitor` sets `selected_monitor` and nothing else.
proof fn lemma_effect_selected_monitor(s: SettingsView, t: SettingsView)
    ensures
        apply_setting(s, "selected_monitor"@, nat_repr(t.selected_monitor as nat)) == (SettingsView { selected_monitor: t.selected_monitor, ..s }),
{
    reveal(apply_setting);
    reveal_strlit("mode");
    reveal_strlit("selected_monitor");
    reveal_strlit("custom_left");
    reveal_strlit("custom_top");
    reveal_strlit("custom_width");
    reveal_strlit("custom_height");
    reveal_strlit("padding");
    reveal_strlit("minimize_on_activate");
    reveal_strlit("close_behavior");
    reveal_strlit("hotkey");
    assert("selected_monitor"@.len() != "mode"@.len());
    lemma_usize_value(t.selected_monitor);
}

/// Reading the line written for `custom_left` sets `custom_left` and nothing else.
proof fn lemma_effect_custom_left(s: SettingsView, t: SettingsView)
    ensures
        apply_setting(s, "custom_left"@, int_repr(t.custom_left as int)) == (SettingsView { custom_left: t.custom_left, ..s }),
{
    reveal(apply_setting);
    reveal_strlit("mode");
    reveal_strlit("selected_monitor");
    reveal_strlit("custom_left");
    reveal_strlit("custom_top");
    reveal_strlit("custom_width");
    reveal_strlit("custom_height");
    reveal_strlit("padding");
    reveal_strlit("minimize_on_activate");
    reveal_strlit("close_behavior");
    reveal_strlit("hotkey");
    assert("custom_left"@.len() != "mode"@.len());
    assert("custom_left"@.len() != "selected_monitor"@.len());
    lemma_int_value(t.custom_left);
}

/// Reading the line written for `custom_top` sets `custom_top` and nothing else.
proof fn lemma_effect_custom_top(s: SettingsView, t: SettingsView)
    ensures
        apply_setting(s, "custom_top"@, int_repr(t.custom_top as int)) == (SettingsView { custom_top: t.custom_top, ..s }),
{
    reveal(apply_setting);
    reveal_strlit("mode");
    reveal_strlit("selected_monitor");
    reveal_strlit("custom_left");
    reveal_strlit("custom_top");
    reveal_strlit("custom_width");
    reveal_strlit("custom_height");
    reveal_strlit("padding");
    reveal_strlit("minimize_on_activate");
    reveal_strlit("close_behavior");
    reveal_strlit("hotkey");
    assert("custom_top"@.len() != "mode"@.len());
    assert("custom_top"@.len() != "selected_monitor"@.len());
    assert("custom_top"@.len() != "custom_left"@.len());
    lemma_int_value(t.custom_top);
}

/// Reading the line written for `custom_width` sets `custom_width` and nothing else.
proof fn lemma_effect_custom_width(s: SettingsView, t: SettingsView)
    ensures
        apply_setting(s, "custom_width"@, int_repr(t.custom_width as int)) == (SettingsView { custom_width: t.custom_width, ..s }),
{
    reveal(apply_setting);
    reveal_strlit("mode");
    reveal_strlit("selected_monitor");
    reveal_strlit("custom_left");
    reveal_strlit("custom_top");
    reveal_strlit("custom_width");
    reveal_strlit("custom_height");
    reveal_strlit("padding");
    reveal_strlit("minimize_on_activate");
    reveal_strlit("close_behavior");
    reveal_strlit("hotkey");
    assert("custom_width"@.len() != "mode"@.len());
    assert("custom_width"@.len() != "selected_monitor"@.len());
    assert("custom_width"@.len() != "custom_left"@.len());
    assert("custom_width"@.len() != "custom_top"@.len());
    lemma_int_value(t.custom_width);
}

/// Reading the line written for `custom_height` sets `custom_height` and nothing else.
proof fn lemma_effect_custom_height(s: SettingsView, t: SettingsView)
    ensures
        apply_setting(s, "custom_height"@, int_repr(t.custom_height as int)) == (SettingsView { custom_height: t.custom_height, ..s }),
{
    reveal(apply_setting);
    reveal_strlit("mode");
    reveal_strlit("selected_monitor");
    reveal_strlit("custom_left");
    reveal_strlit("custom_top");
    reveal_strlit("custom_width");
    reveal_strlit("custom_height");
    reveal_strlit("padding");
    reveal_strlit("minimize_on_activate");
    reveal_strlit("close_behavior");
    reveal_strlit("hotkey");
    assert("custom_height"@.len() != "mode"@.len());
    assert("custom_height"@.len() != "selected_monitor"@.len());
    assert("custom_height"@.len() != "custom_left"@.len());
    assert("custom_height"@.len() != "custom_top"@.len());
    assert("custom_height"@.len() != "custom_width"@.len());
    lemma_int_value(t.custom_height);
}

/// Reading the line written for `padding` sets `padding` and nothing else.
proof fn lemma_effect_padding(s: SettingsView, t: SettingsView)
    ensures
        apply_setting(s, "padding"@, int_repr(t.padding as int)) == (SettingsView { padding: t.padding, ..s }),
{
    reveal(apply_setting);
    reveal_strlit("mode");
    reveal_strlit("selected_monitor");
    reveal_strlit("custom_left");
    reveal_strlit("custom_top");
    reveal_strlit("custom_width");
    reveal_strlit("custom_height");
    reveal_strlit("padding");
    reveal_strlit("minimize_on_activate");
    reveal_strlit("close_behavior");
    reveal_strlit("hotkey");
    assert("padding"@.len() != "mode"@.len());
    assert("padding"@.len() != "selected_monitor"@.len());
    assert("padding"@.len() != "custom_left"@.len());
    assert("padding"@.len() != "custom_top"@.len());
    assert("padding"@.len() != "custom_width"@.len());
    assert("padding"@.len() != "custom_height"@.len());
    lemma_int_value(t.padding);
}

/// Reading the line written for `minimize_on_activate` sets `minimize_on_activate` and nothing else.
proof fn lemma_effect_minimize_on_activate(s: SettingsView, t: SettingsView)
    ensures
        apply_setting(s, "minimize_on_activate"@, bool_repr(t.minimize_on_activate)) == (SettingsView { minimize_on_activate: t.minimize_on_activate, ..s }),
{
    reveal(apply_setting);
    reveal_strlit("mode");
    reveal_strlit("selected_monitor");
    reveal_strlit("custom_left");
    reveal_strlit("custom_top");
    reveal_strlit("custom_width");
    reveal_strlit("custom_height");
    reveal_strlit("padding");
    reveal_strlit("minimize_on_activate");
    reveal_strlit("close_behavior");
    reveal_strlit("hotkey");
    assert("minimize_on_activate"@.len() != "mode"@.len());
    assert("minimize_on_activate"@.len() != "selected_monitor"@.len());
    assert("minimize_on_activate"@.len() != "custom_left"@.len());
    assert("minimize_on_activate"@.len() != "custom_top"@.len());
    assert("minimize_on_activate"@.len() != "custom_width"@.len());
    assert("minimize_on_activate"@.len() != "custom_height"@.len());
    assert("minimize_on_activate"@.len() != "padding"@.len());
    reveal_strlit("Window");
    reveal_strlit("Monitor");
    reveal_strlit("Custom");
    reveal_strlit("ToTray");
    reveal_strlit("Exit");
    reveal_strlit("true");
    reveal_strlit("false");
}

/// Reading the line written for `close_behavior` sets `close_behavior` and nothing else.
proof fn lemma_effect_close_behavior(s: SettingsView, t: SettingsView)
    ensures
        apply_setting(s, "close_behavior"@, close_name(t.close_behavior)) == (SettingsView { close_behavior: t.close_behavior, ..s }),
{
    reveal(apply_setting);
    reveal_strlit("mode");
    reveal_strlit("selected_monitor");
    reveal_strlit("custom_left");
    reveal_strlit("custom_top");
    reveal_strlit("custom_width");
    reveal_strlit("custom_height");
    reveal_strlit("padding");
    reveal_strlit("minimize_on_activate");
    reveal_strlit("close_behavior");
    reveal_strlit("hotkey");
    assert("close_behavior"@.len() != "mode"@.len());
    assert("close_behavior"@.len() != "selected_monitor"@.len());
    assert("close_behavior"@.len() != "custom_left"@.len());
    assert("close_behavior"@.len() != "custom_top"@.len());
    assert("close_behavior"@.len() != "custom_width"@.len());
    assert("close_behavior"@.len() != "custom_height"@.len());
    assert("close_behavior"@.len() != "padding"@.len());
    assert("close_behavior"@.len() != "minimize_on_activate"@.len());
    reveal_strlit("Window");
    reveal_strlit("Monitor");
    reveal_strlit("Custom");
    reveal_strlit("ToTray");
    reveal_strlit("Exit");
    reveal_strlit("true");
    reveal_strlit("false");
}

/// Reading the line written for `hotkey` sets `hotkey` and nothing else.
proof fn lemma_effect_hotkey(s: SettingsView, t: SettingsView)
    requires
        hotkey_storable(t.hotkey),
        s.hotkey == None::<Seq<char>>,
    ensures
        apply_setting(s, "hotkey"@, hotkey_text(t.hotkey)) == (SettingsView { hotkey: t.hotkey, ..s }),
{
    reveal(apply_setting);
    reveal_strlit("mode");
    reveal_strlit("selected_monitor");
    reveal_strlit("custom_left");
    reveal_strlit("custom_top");
    reveal_strlit("custom_width");
    reveal_strlit("custom_height");
    reveal_strlit("padding");
    reveal_strlit("minimize_on_activate");
    reveal_strlit("close_behavior");
    reveal_strlit("hotkey");
    assert("hotkey"@.len() != "mode"@.len());
    assert("hotkey"@.len() != "selected_monitor"@.len());
    assert("hotkey"@.len() != "custom_left"@.len());
    assert("hotkey"@.len() != "custom_top"@.len());
    assert("hotkey"@.len() != "custom_width"@.len());
    assert("hotkey"@.len() != "custom_height"@.len());
    assert("hotkey"@.len() != "padding"@.len());
    assert("hotkey"@.len() != "minimize_on_activate"@.len());
    assert("hotkey"@.len() != "close_behavior"@.len());
}

/// What saving writes, loading reads back: for every settings value whose
/// hotkey text is storable, parsing the rendered file yields that value.
pub proof fn lemma_settings_round_trip(s: SettingsView)
    requires
        hotkey_storable(s.hotkey),
    ensures
        spec_parse_settings(spec_render_settings(s)) == s,
{
    let hv = hotkey_text(s.hotkey);
    let v0 = mode_name(s.mode);
    let v1 = nat_repr(s.selected_monitor as nat);
    let v2 = int_repr(s.custom_left as int);
    let v3 = int_repr(s.custom_top as int);
    let v4 = int_repr(s.custom_width as int);
    let v5 = int_repr(s.custom_height as int);
    let v6 = int_repr(s.padding as int);
    let v7 = bool_repr(s.minimize_on_activate);
    let v8 = close_name(s.close_behavior);
    let e = Seq::<char>::empty();
    let r9 = setting_line("hotkey"@, hv) + e;
    let r8 = setting_line("close_behavior"@, v8) + r9;
    let r7 = setting_line("minimize_on_activate"@, v7) + r8;
    let r6 = setting_line("padding"@, v6) + r7;
    let r5 = setting_line("custom_height"@, v5) + r6;
    let r4 = setting_line("custom_width"@, v4) + r5;
    let r3 = setting_line("custom_top"@, v3) + r4;
    let r2 = setting_line("custom_left"@, v2) + r3;
    let r1 = setting_line("selected_monitor"@, v1) + r2;
    let r0 = setting_line("mode"@, v0) + r1;
    assert(spec_render_settings(s) =~= r0);
    let d = default_settings();
    let s0 = SettingsView { mode: s.mode, ..d };
    let s1 = SettingsView { selected_monitor: s.selected_monitor, ..s0 };
    let s2 = SettingsView { custom_left: s.custom_left, ..s1 };
    let s3 = SettingsView { custom_top: s.custom_top, ..s2 };
    let s4 = SettingsView { custom_width: s.custom_width, ..s3 };
    let s5 = SettingsView { custom_height: s.custom_height, ..s4 };
    let s6 = SettingsView { padding: s.padding, ..s5 };
    let s7 = SettingsView { minimize_on_activate: s.minimize_on_activate, ..s6 };
    let s8 = SettingsView { close_behavior: s.close_behavior, ..s7 };
    let s9 = SettingsView { hotkey: s.hotkey, ..s8 };
    assert(apply_lines(d, r0) == apply_lines(s0, r1)) by {
        lemma_key_mode();
        lemma_word_window();
        lemma_word_monitor();
        lemma_word_custom();
        lemma_line_step(d, "mode"@, v0, r1);
        lemma_effect_mode(d, s);
    }
    assert(apply_lines(s0, r1) == apply_lines(s1, r2)) by {
        lemma_key_selected_monitor();
        lemma_usize_value(s.selected_monitor);
        lemma_line_step(s0, "selected_monitor"@, v1, r2);
        lemma_effect_selected_monitor(s0, s);
    }
    assert(apply_lines(s1, r2) == apply_lines(s2, r3)) by {
        lemma_key_custom_left();
        lemma_int_value(s.custom_left);
        lemma_line_step(s1, "custom_left"@, v2, r3);
        lemma_effect_custom_left(s1, s);
    }
    assert(apply_lines(s2, r3) == apply_lines(s3, r4)) by {
        lemma_key_custom_top();
        lemma_int_value(s.custom_top);
        lemma_line_step(s2, "custom_top"@, v3, r4);
        lemma_effect_custom_top(s2, s);
    }
    assert(apply_lines(s3, r4) == apply_lines(s4, r5)) by {
        lemma_key_custom_width();
        lemma_int_value(s.custom_width);
        lemma_line_step(s3, "custom_width"@, v4, r5);
        lemma_effect_custom_width(s3, s);
    }
    assert(apply_lines(s4, r5) == apply_lines(s5, r6)) by {
        lemma_key_custom_height();
        lemma_int_value(s.custom_height);
        lemma_line_step(s4, "custom_height"@, v5, r6);
        lemma_effect_custom_height(s4, s);
    }
    assert(apply_lines(s5, r6) == apply_lines(s6, r7)) by {
        lemma_key_padding();
        lemma_int_value(s.padding);
        lemma_line_step(s5, "padding"@, v6, r7);
        lemma_effect_padding(s5, s);
    }
    assert(apply_lines(s6, r7) == apply_lines(s7, r8)) by {
        lemma_key_minimize_on_activate();
        lemma_word_true();
        lemma_word_false();
        lemma_line_step(s6, "minimize_on_activate"@, v7, r8);
        lemma_effect_minimize_on_activate(s6, s);
    }
    assert(apply_lines(s7, r8) == apply_lines(s8, r9)) by {
        lemma_key_close_behavior();
        lemma_word_totray();
        lemma_word_exit();
        lemma_line_step(s7, "close_behavior"@, v8, r9);
        lemma_effect_close_behavior(s7, s);
    }
    assert(apply_lines(s8, r9) == apply_lines(s9, e)) by {
        lemma_key_hotkey();
        if s.hotkey is None {
            assert(trim(hv) == hv);
        }
        lemma_line_step(s8, "hotkey"@, hv, e);
        lemma_effect_hotkey(s8, s);
    }
    lemma_empty_text(s9);
    assert(s9 == s);
}

} // verus!
