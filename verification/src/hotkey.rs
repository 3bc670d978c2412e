//! The global toggle hotkey: reading key presses into combos, describing
//! combos to the user, the recording session, and the binding's bookkeeping.
//!
//! A key is named by its key-code name as `keyboard_types` writes it (such as
//! `KeyA`, `Digit0`, `Numpad0`). Parsing hotkey text is left to
//! `global_hotkey`'s parser.

use global_hotkey::hotkey::{HotKey, Modifiers};
use vstd::prelude::*;

verus! {

/// The modifier keys of a combo.
#[derive(Debug, Clone, Copy, PartialEq, Eq, Structural)]
pub struct HotkeyMods {
    pub ctrl: bool,
    pub alt: bool,
    pub shift: bool,
    pub meta: bool,
}

impl HotkeyMods {
    pub fn none() -> (m: HotkeyMods)
        ensures
            !m.ctrl && !m.alt && !m.shift && !m.meta,
    {
        HotkeyMods { ctrl: false, alt: false, shift: false, meta: false }
    }
}

/// A modifier set and a key.
#[derive(Debug, Clone)]
pub struct Captured {
    pub mods: HotkeyMods,
    pub key: String,
}

pub struct CapturedView {
    pub mods: HotkeyMods,
    pub key: Seq<char>,
}

impl View for Captured {
    type V = CapturedView;

    open spec fn view(&self) -> CapturedView {
        CapturedView { mods: self.mods, key: self.key@ }
    }
}

pub open spec fn opt_view(c: Option<Captured>) -> Option<CapturedView> {
    match c {
        Some(x) => Some(x@),
        None => None,
    }
}

/// A physical key as the window system reports it: a known key code (by
/// name) or an unidentified one.
#[derive(Debug, Clone)]
pub enum PhysicalKey {
    Code(String),
    Unidentified,
}

// ---------------------------------------------------------------------------
// The hotkey text parser of global_hotkey
// ---------------------------------------------------------------------------

/// What `global_hotkey`'s `HotKey::from_str` makes of `s`: the modifiers
/// (control, alt, shift, meta) and the name of the key, or nothing when it
/// rejects the text.
pub uninterp spec fn parsed_hotkey(s: Seq<char>) -> Option<(bool, bool, bool, bool, Seq<char>)>;

pub open spec fn captured_parts(c: CapturedView) -> (bool, bool, bool, bool, Seq<char>) {
    (c.mods.ctrl, c.mods.alt, c.mods.shift, c.mods.meta, c.key)
}

/// Calls `global_hotkey::hotkey::HotKey::from_str` and reports the parsed
/// modifiers and the key's name (the `Display` form of its key code). The
/// contract only ties the result to the text through `parsed_hotkey`; which
/// texts the parser accepts, and what it makes of them, is not stated. (The
/// parser reads the "CommandOrControl" family as Meta when built for macOS and
/// as Control elsewhere, so the name describes the parser of one build.)
#[verifier::external_body]
fn parse_hotkey(s: &str) -> (r: Option<Captured>)
    ensures
        match r {
            Some(c) => parsed_hotkey(s@) == Some(captured_parts(c@)),
            None => parsed_hotkey(s@) is None,
        },
{
    match s.parse::<HotKey>() {
        Ok(h) => Some(
            Captured {
                mods: HotkeyMods {
                    ctrl: h.mods.contains(Modifiers::CONTROL),
                    alt: h.mods.contains(Modifiers::ALT),
                    shift: h.mods.contains(Modifiers::SHIFT),
                    meta: h.mods.contains(Modifiers::META),
                },
                key: h.key.to_string(),
            },
        ),
        Err(_) => None,
    }
}

/// The combo that a saved hotkey text describes, when the parser accepts it.
pub fn parse_saved_hotkey(s: &str) -> (r: Option<Captured>)
    ensures
        match r {
            Some(c) => parsed_hotkey(s@) == Some(captured_parts(c@)),
            None => parsed_hotkey(s@) is None,
        },
{
    parse_hotkey(s)
}

// ---------------------------------------------------------------------------
// Reading key presses
// ---------------------------------------------------------------------------

/// Key codes that cannot be the main key of a combo: Escape (it cancels
/// recording) and the modifier keys themselves.
#[verifier::opaque]
pub open spec fn spec_is_reserved(name: Seq<char>) -> bool {
    ||| name == "Escape"@
    ||| name == "ShiftLeft"@
    ||| name == "ShiftRight"@
    ||| name == "ControlLeft"@
    ||| name == "ControlRight"@
    ||| name == "AltLeft"@
    ||| name == "AltRight"@
    ||| name == "SuperLeft"@
    ||| name == "SuperRight"@
    ||| name == "Fn"@
    ||| name == "FnLock"@
    ||| name == "Hyper"@
    ||| name == "Meta"@
}

fn str_eq(a: &str, b: &str) -> (r: bool)
    ensures
        r == (a@ == b@),
{
    let x = crate::text::chars_of(a);
    let y = crate::text::chars_of(b);
    crate::text::chars_equal(x.as_slice(), y.as_slice())
}

pub fn is_reserved_code(name: &str) -> (b: bool)
    ensures
        b == spec_is_reserved(name@),
{
    reveal(spec_is_reserved);
    str_eq(name, "Escape") || str_eq(name, "ShiftLeft") || str_eq(name, "ShiftRight") || str_eq(
        name,
        "ControlLeft",
    ) || str_eq(name, "ControlRight") || str_eq(name, "AltLeft") || str_eq(name, "AltRight")
        || str_eq(name, "SuperLeft") || str_eq(name, "SuperRight") || str_eq(name, "Fn")
        || str_eq(name, "FnLock") || str_eq(name, "Hyper") || str_eq(name, "Meta")
}

/// Whether a press cancels recording: the Escape key.
pub fn is_cancel_key(physical: &PhysicalKey) -> (b: bool)
    ensures
        b == (physical matches PhysicalKey::Code(name) && name@ == "Escape"@),
{
    match physical {
        PhysicalKey::Code(name) => str_eq(name.as_str(), "Escape"),
        PhysicalKey::Unidentified => false,
    }
}

/// The combo a press makes: an identified, non-reserved key that the hotkey
/// parser knows, with the modifiers held. The key is named as the parser
/// names it.
#[verifier::opaque]
pub open spec fn spec_from_key(physical: PhysicalKey, mods: HotkeyMods) -> Option<CapturedView> {
    match physical {
        PhysicalKey::Unidentified => None,
        PhysicalKey::Code(name) => if spec_is_reserved(name@) {
            None
        } else {
            match parsed_hotkey(name@) {
                Some(p) => Some(CapturedView { mods, key: p.4 }),
                None => None,
            }
        },
    }
}

pub fn from_iced(physical: &PhysicalKey, mods: HotkeyMods) -> (r: Option<Captured>)
    ensures
        opt_view(r) == spec_from_key(*physical, mods),
{
    reveal(spec_from_key);
    let name = match physical {
        PhysicalKey::Code(n) => n,
        PhysicalKey::Unidentified => return None,
    };
    if is_reserved_code(name.as_str()) {
        return None;
    }
    match parse_hotkey(name.as_str()) {
        Some(parsed) => Some(Captured { mods, key: parsed.key }),
        None => None,
    }
}

// ---------------------------------------------------------------------------
// Describing combos
// ---------------------------------------------------------------------------

/// `parts` joined with `+`.
pub open spec fn join_plus(parts: Seq<Seq<char>>) -> Seq<char>
    decreases parts.len(),
{
    if parts.len() == 0 {
        Seq::empty()
    } else if parts.len() == 1 {
        parts[0]
    } else {
        join_plus(parts.drop_last()) + "+"@ + parts.last()
    }
}

/// The labels of the held modifiers, in the order Ctrl, Alt, Shift, Win.
pub open spec fn modifier_labels(m: HotkeyMods) -> Seq<Seq<char>> {
    let a = if m.ctrl {
        seq!["Ctrl"@]
    } else {
        Seq::empty()
    };
    let b = if m.alt {
        a.push("Alt"@)
    } else {
        a
    };
    let c = if m.shift {
        b.push("Shift"@)
    } else {
        b
    };
    if m.meta {
        c.push("Win"@)
    } else {
        c
    }
}

pub open spec fn spec_describe_modifiers(m: HotkeyMods) -> Seq<char> {
    join_plus(modifier_labels(m))
}

fn push_label(out: &mut String, first: &mut bool, label: &str, ghost_parts: Ghost<Seq<Seq<char>>>)
    requires
        *old(first) <==> ghost_parts@.len() == 0,
        old(out)@ == join_plus(ghost_parts@),
    ensures
        !*final(first),
        final(out)@ == join_plus(ghost_parts@.push(label@)),
{
    let ghost parts = ghost_parts@.push(label@);
    assert(parts.drop_last() =~= ghost_parts@);
    if *first {
        assert(parts.len() == 1);
        out.append(label);
        assert(out@ =~= join_plus(parts));
    } else {
        proof { reveal_strlit("+"); }
        out.append("+");
        out.append(label);
        assert(out@ =~= join_plus(parts));
    }
    *first = false;
}

/// The held modifiers as the user reads them, such as `Ctrl+Alt`; empty when none.
pub fn describe_modifiers(m: HotkeyMods) -> (s: String)
    ensures
        s@ == spec_describe_modifiers(m),
{
    let mut out = String::new();
    let mut first = true;
    let ghost mut parts: Seq<Seq<char>> = Seq::empty();
    assert(out@ =~= join_plus(parts));
    if m.ctrl {
        push_label(&mut out, &mut first, "Ctrl", Ghost(parts));
        proof { parts = parts.push("Ctrl"@); }
    }
    if m.alt {
        push_label(&mut out, &mut first, "Alt", Ghost(parts));
        proof { parts = parts.push("Alt"@); }
    }
    if m.shift {
        push_label(&mut out, &mut first, "Shift", Ghost(parts));
        proof { parts = parts.push("Shift"@); }
    }
    if m.meta {
        push_label(&mut out, &mut first, "Win", Ghost(parts));
        proof { parts = parts.push("Win"@); }
    }
    assert(parts =~= modifier_labels(m));
    out
}

/// `s` starts with `p`.
pub open spec fn has_prefix(s: Seq<char>, p: Seq<char>) -> bool {
    p.len() <= s.len() && s.take(p.len() as int) == p
}

/// A key's short label: `Key` and `Digit` prefixes dropped, `Numpad` shortened to `Num`.
pub open spec fn spec_code_label(name: Seq<char>) -> Seq<char> {
    if has_prefix(name, "Key"@) {
        name.skip(3)
    } else if has_prefix(name, "Digit"@) {
        name.skip(5)
    } else if has_prefix(name, "Numpad"@) {
        "Num"@ + name.skip(6)
    } else {
        name
    }
}

fn starts_with(chars: &Vec<char>, p: &str) -> (b: bool)
    ensures
        b == has_prefix(chars@, p@),
{
    let pc = crate::text::chars_of(p);
    if pc.len() > chars.len() {
        return false;
    }
    let head = vstd::slice::slice_subrange(chars.as_slice(), 0, pc.len());
    assert(head@ =~= chars@.take(pc@.len() as int));
    crate::text::chars_equal(head, pc.as_slice())
}

pub fn code_label(name: &str) -> (s: String)
    ensures
        s@ == spec_code_label(name@),
{
    let chars = crate::text::chars_of(name);
    let n = chars.len();
    proof {
        reveal_strlit("Key");
        reveal_strlit("Digit");
        reveal_strlit("Numpad");
        reveal_strlit("Num");
    }
    if starts_with(&chars, "Key") {
        let rest = name.substring_char(3, n);
        assert(rest@ =~= name@.skip(3));
        String::from_str(rest)
    } else if starts_with(&chars, "Digit") {
        let rest = name.substring_char(5, n);
        assert(rest@ =~= name@.skip(5));
        String::from_str(rest)
    } else if starts_with(&chars, "Numpad") {
        let rest = name.substring_char(6, n);
        assert(rest@ =~= name@.skip(6));
        String::from_str("Num").concat(rest)
    } else {
        String::from_str(name)
    }
}

/// A combo as the user reads it, such as `Ctrl+Alt+L`.
pub open spec fn spec_describe(m: HotkeyMods, key: Seq<char>) -> Seq<char> {
    let mods = spec_describe_modifiers(m);
    if mods.len() == 0 {
        spec_code_label(key)
    } else {
        mods + "+"@ + spec_code_label(key)
    }
}

pub fn describe(m: HotkeyMods, key: &str) -> (s: String)
    ensures
        s@ == spec_describe(m, key@),
{
    let mods = describe_modifiers(m);
    let label = code_label(key);
    if mods.as_str().is_empty() {
        label
    } else {
        proof { reveal_strlit("+"); }
        mods.concat("+").concat(label.as_str())
    }
}

pub fn describe_captured(c: &Captured) -> (s: String)
    ensures
        s@ == spec_describe(c.mods, c.key@),
{
    describe(c.mods, c.key.as_str())
}

/// The text a combo is saved as: lowercase modifier words, each followed by
/// `+`, in the order shift, control, alt, meta, then the key's name. This is
/// what `global_hotkey`'s `HotKey::into_string` writes.
pub open spec fn spec_hotkey_text(c: CapturedView) -> Seq<char> {
    (if c.mods.shift {
        "shift+"@
    } else {
        Seq::empty()
    }) + (if c.mods.ctrl {
        "control+"@
    } else {
        Seq::empty()
    }) + (if c.mods.alt {
        "alt+"@
    } else {
        Seq::empty()
    }) + (if c.mods.meta {
        "meta+"@
    } else {
        Seq::empty()
    }) + c.key
}

pub fn hotkey_text(c: &Captured) -> (s: String)
    ensures
        s@ == spec_hotkey_text(c@),
{
    let mut s = String::new();
    if c.mods.shift {
        s.append("shift+");
    }
    if c.mods.ctrl {
        s.append("control+");
    }
    if c.mods.alt {
        s.append("alt+");
    }
    if c.mods.meta {
        s.append("meta+");
    }
    s.append(c.key.as_str());
    assert(s@ =~= spec_hotkey_text(c@));
    s
}

// ---------------------------------------------------------------------------
// Registration failures
// ---------------------------------------------------------------------------

/// Why registering a combo with the system failed.
#[derive(Debug, Clone)]
pub enum RegisterFailure {
    /// This application already holds the combo.
    AlreadyRegistered,
    /// The system refused it (another application or the OS holds it).
    Unavailable,
    /// Releasing the previous combo failed; the text is the error's message.
    FailedToUnregister(String),
    /// Any other failure; the text is the error's message.
    Other(String),
}

pub open spec fn spec_register_message(f: RegisterFailure, combo: Seq<char>) -> Seq<char> {
    match f {
        RegisterFailure::AlreadyRegistered => combo + " is already bound to this app"@,
        RegisterFailure::Unavailable => combo
            + " is unavailable — another app or the OS may be using it"@,
        RegisterFailure::FailedToUnregister(e) => "failed to release previous hotkey: "@ + e@,
        RegisterFailure::Other(e) => "failed to bind "@ + combo + ": "@ + e@,
    }
}

/// The status message for a failed binding of `c`.
pub fn format_register_error(f: &RegisterFailure, c: &Captured) -> (s: String)
    ensures
        s@ == spec_register_message(*f, spec_describe(c.mods, c.key@)),
{
    let combo = describe_captured(c);
    match f {
        RegisterFailure::AlreadyRegistered => combo.concat(" is already bound to this app"),
        RegisterFailure::Unavailable => combo.concat(
            " is unavailable — another app or the OS may be using it",
        ),
        RegisterFailure::FailedToUnregister(e) => String::from_str(
            "failed to release previous hotkey: ",
        ).concat(e.as_str()),
        RegisterFailure::Other(e) => String::from_str("failed to bind ").concat(
            combo.as_str(),
        ).concat(": ").concat(e.as_str()),
    }
}

// ---------------------------------------------------------------------------
// The binding and its events
// ---------------------------------------------------------------------------

pub open spec fn same_combo(a: CapturedView, b: CapturedView) -> bool {
    a.mods == b.mods && a.key == b.key
}

/// Ctrl+Alt+L, the combo used when none is saved or the saved one is unusable.
pub open spec fn default_combo() -> CapturedView {
    CapturedView {
        mods: HotkeyMods { ctrl: true, alt: true, shift: false, meta: false },
        key: "KeyL"@,
    }
}

pub fn default_hotkey() -> (c: Captured)
    ensures
        same_combo(c@, default_combo()),
{
    Captured {
        mods: HotkeyMods { ctrl: true, alt: true, shift: false, meta: false },
        key: String::from_str("KeyL"),
    }
}

/// The combo to bind at start-up: the saved one when the parser accepts it,
/// else the default.
pub fn initial_combo(saved: Option<&str>) -> (c: Captured)
    ensures
        match saved {
            Some(s) => match parsed_hotkey(s@) {
                Some(p) => captured_parts(c@) == p,
                None => same_combo(c@, default_combo()),
            },
            None => same_combo(c@, default_combo()),
        },
{
    match saved {
        Some(s) => match parse_hotkey(s) {
            Some(c) => c,
            None => default_hotkey(),
        },
        None => default_hotkey(),
    }
}

/// Which combo is bound, and its description.
pub struct HotkeyBinding {
    pub current: Option<Captured>,
    pub description: String,
}

impl HotkeyBinding {
    pub fn new() -> (b: HotkeyBinding)
        ensures
            b.current is None,
            b.description@ == Seq::<char>::empty(),
    {
        HotkeyBinding { current: None, description: String::new() }
    }

    /// Whether binding `c` needs a registration: it is not already the bound combo.
    pub fn needs_register(&self, c: &Captured) -> (b: bool)
        ensures
            b == !(self.current matches Some(cur) && same_combo(cur@, c@)),
    {
        match &self.current {
            Some(cur) => !(cur.mods == c.mods && cur.key == c.key),
            None => true,
        }
    }

    /// Records that `c` is now bound.
    pub fn commit(&mut self, c: Captured)
        ensures
            final(self).current matches Some(cur) && cur@ == c@,
            final(self).description@ == spec_describe(c.mods, c.key@),
    {
        self.description = describe_captured(&c);
        self.current = Some(c);
    }

    /// The saved form of the bound combo, if any.
    pub fn serialize(&self) -> (s: Option<String>)
        ensures
            match self.current {
                Some(c) => s matches Some(t) && t@ == spec_hotkey_text(c@),
                None => s is None,
            },
    {
        match &self.current {
            Some(c) => Some(hotkey_text(c)),
            None => None,
        }
    }

    pub fn describe(&self) -> (s: &str)
        ensures
            s@ == self.description@,
    {
        self.description.as_str()
    }
}

/// Whether the bound hotkey was pressed among `events`, each an id and
/// whether it is a press.
pub fn toggle_fired(events: &[(u32, bool)], target: Option<u32>) -> (b: bool)
    ensures
        b == exists|i: int|
            0 <= i < events@.len() && target == Some(events@[i].0) && #[trigger] events@[i].1,
{
    let mut fired = false;
    let mut i: usize = 0;
    while i < events.len()
        invariant
            i <= events@.len(),
            fired == exists|j: int|
                0 <= j < i && target == Some(events@[j].0) && #[trigger] events@[j].1,
        decreases events@.len() - i,
    {
        let (id, pressed) = events[i];
        if target == Some(id) && pressed {
            fired = true;
        }
        i = i + 1;
    }
    fired
}

// ---------------------------------------------------------------------------
// The recording session
// ---------------------------------------------------------------------------

/// An in-progress hotkey recording: whether it runs, the previewed combo,
/// and the modifiers currently held.
pub struct HotkeyRecorder {
    pub recording: bool,
    pub pending: Option<Captured>,
    pub pending_mods: HotkeyMods,
}

impl HotkeyRecorder {
    pub fn new() -> (r: HotkeyRecorder)
        ensures
            !r.recording,
            r.pending is None,
            r.pending_mods == HotkeyMods::spec_none(),
    {
        HotkeyRecorder { recording: false, pending: None, pending_mods: HotkeyMods::none() }
    }

    pub fn is_recording(&self) -> (b: bool)
        ensures
            b == self.recording,
    {
        self.recording
    }

    pub fn pending(&self) -> (p: Option<Captured>)
        ensures
            opt_view(p) == opt_view(self.pending),
    {
        match &self.pending {
            Some(c) => Some(Captured { mods: c.mods, key: c.key.clone() }),
            None => None,
        }
    }

    pub fn pending_mods(&self) -> (m: HotkeyMods)
        ensures
            m == self.pending_mods,
    {
        self.pending_mods
    }

    /// Begins a session, discarding any earlier preview.
    pub fn start(&mut self)
        ensures
            final(self).recording,
            final(self).pending is None,
            final(self).pending_mods == HotkeyMods::spec_none(),
    {
        self.recording = true;
        self.clear();
    }

    /// Ends the session and drops the preview.
    pub fn stop(&mut self)
        ensures
            !final(self).recording,
            final(self).pending is None,
            final(self).pending_mods == HotkeyMods::spec_none(),
    {
        self.recording = false;
        self.clear();
    }

    /// Drops the preview but keeps recording.
    pub fn clear(&mut self)
        ensures
            final(self).recording == old(self).recording,
            final(self).pending is None,
            final(self).pending_mods == HotkeyMods::spec_none(),
    {
        self.pending = None;
        self.pending_mods = HotkeyMods::none();
    }

    /// Tracks the currently held modifiers.
    pub fn set_modifiers(&mut self, m: HotkeyMods)
        ensures
            final(self).pending_mods == m,
            final(self).recording == old(self).recording,
            opt_view(final(self).pending) == opt_view(old(self).pending),
    {
        self.pending_mods = m;
    }

    /// Records a resolved combo as the preview.
    pub fn set_combo(&mut self, c: Captured)
        ensures
            final(self).pending matches Some(p) && p@ == c@,
            final(self).recording == old(self).recording,
            final(self).pending_mods == old(self).pending_mods,
    {
        self.pending = Some(c);
    }
}

impl HotkeyMods {
    pub open spec fn spec_none() -> HotkeyMods {
        HotkeyMods { ctrl: false, alt: false, shift: false, meta: false }
    }
}

} // verus!
