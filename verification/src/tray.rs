//! The tray side: the main window's hide-to-tray lifecycle, choosing the
//! image of an `.ico` file, and the tooltip text.

use crate::domain::IconState;
use vstd::prelude::*;

verus! {

// ---------------------------------------------------------------------------
// Hide-to-tray lifecycle
// ---------------------------------------------------------------------------

/// Whether the main window is hidden in the tray, and whether a "is the window
/// minimized?" probe is in flight.
#[derive(Debug, Clone, Copy, PartialEq, Eq, Structural)]
pub struct TrayState {
    pub hidden: bool,
    pub checking_minimized: bool,
}

impl TrayState {
    /// Shown, with no probe pending.
    pub fn new() -> (s: TrayState)
        ensures
            !s.hidden,
            !s.checking_minimized,
    {
        TrayState { hidden: false, checking_minimized: false }
    }

    /// Whether to start a minimized-state probe now: only when the window is
    /// neither hidden nor already being probed.
    pub fn should_probe_minimized(&self) -> (b: bool)
        ensures
            b == (!self.hidden && !self.checking_minimized),
    {
        !self.hidden && !self.checking_minimized
    }

    pub fn begin_minimize_probe(&mut self)
        ensures
            final(self).checking_minimized,
            final(self).hidden == old(self).hidden,
    {
        self.checking_minimized = true;
    }

    pub fn end_minimize_probe(&mut self)
        ensures
            !final(self).checking_minimized,
            final(self).hidden == old(self).hidden,
    {
        self.checking_minimized = false;
    }

    pub fn mark_hidden(&mut self)
        ensures
            final(self).hidden,
            final(self).checking_minimized == old(self).checking_minimized,
    {
        self.hidden = true;
    }

    pub fn mark_restored(&mut self)
        ensures
            !final(self).hidden,
            final(self).checking_minimized == old(self).checking_minimized,
    {
        self.hidden = false;
    }
}

/// The tray tooltip for an icon state.
pub open spec fn spec_tray_tip(state: IconState) -> Seq<char> {
    match state {
        IconState::Idle => "Cursory"@,
        IconState::Active => "Cursory - active"@,
    }
}

pub fn tray_tip(state: IconState) -> (s: &'static str)
    ensures
        s@ == spec_tray_tip(state),
{
    match state {
        IconState::Idle => "Cursory",
        IconState::Active => "Cursory - active",
    }
}

// ---------------------------------------------------------------------------
// UTF-16 tooltip buffers
// ---------------------------------------------------------------------------

/// The UTF-16 code units of one character.
pub open spec fn utf16_units(c: char) -> Seq<u16> {
    if (c as int) < 0x10000 {
        seq![c as u16]
    } else {
        let v = c as int - 0x10000;
        seq![(0xD800 + v / 0x400) as u16, (0xDC00 + v % 0x400) as u16]
    }
}

/// The UTF-16 encoding of a string, as `str::encode_utf16` yields it.
pub open spec fn encode_utf16(s: Seq<char>) -> Seq<u16>
    decreases s.len(),
{
    if s.len() == 0 {
        Seq::empty()
    } else {
        encode_utf16(s.drop_last()) + utf16_units(s.last())
    }
}

/// `target` with the leading code units of `text` written over it, as many as fit.
pub open spec fn spec_write_wide(target: Seq<u16>, text: Seq<char>) -> Seq<u16> {
    let units = encode_utf16(text);
    Seq::new(
        target.len(),
        |i: int|
            if i < units.len() {
                units[i]
            } else {
                target[i]
            },
    )
}

fn char_units(c: char) -> (r: (u16, Option<u16>))
    ensures
        utf16_units(c) == match r.1 {
            Some(low) => seq![r.0, low],
            None => seq![r.0],
        },
{
    let v = c as u32;
    if v < 0x10000 {
        (v as u16, None)
    } else {
        let w = v - 0x10000;
        ((0xD800 + w / 0x400) as u16, Some((0xDC00 + w % 0x400) as u16))
    }
}

/// Copies the UTF-16 form of `text` into the front of `target`, truncating
/// where `target` ends and leaving the rest of `target` as it was.
pub fn write_wide_fixed(target: &mut [u16], text: &str)
    ensures
        final(target)@ == spec_write_wide(old(target)@, text@),
{
    let chars = crate::text::chars_of(text);
    let n = target.len();
    let ghost orig = target@;
    let mut pos: usize = 0;
    let mut ci: usize = 0;
    while ci < chars.len()
        invariant
            chars@ == text@,
            ci <= chars@.len(),
            n == target@.len(),
            n == orig.len(),
            pos as int == if encode_utf16(chars@.take(ci as int)).len() < n {
                encode_utf16(chars@.take(ci as int)).len() as int
            } else {
                n as int
            },
            forall|i: int|
                0 <= i < n ==> #[trigger] target@[i] == if i < encode_utf16(chars@.take(ci as int)).len() {
                    encode_utf16(chars@.take(ci as int))[i]
                } else {
                    orig[i]
                },
        decreases chars@.len() - ci,
    {
        let c = chars[ci];
        let ghost before = chars@.take(ci as int);
        let ghost after = chars@.take(ci + 1);
        assert(after.drop_last() =~= before);
        assert(after.last() == c);
        let (high, low) = char_units(c);
        let ghost eb = encode_utf16(before);
        assert(encode_utf16(after) == eb + utf16_units(c));
        if pos < n {
            target[pos] = high;
            pos = pos + 1;
            if let Some(l) = low {
                if pos < n {
                    target[pos] = l;
                    pos = pos + 1;
                }
            }
        }
        ci = ci + 1;
    }
    assert(chars@.take(chars@.len() as int) =~= text@);
    assert(target@ =~= spec_write_wide(orig, text@));
}

// ---------------------------------------------------------------------------
// Choosing the largest image of an .ico file
// ---------------------------------------------------------------------------

pub open spec fn le_u16(b: Seq<u8>, i: int) -> int {
    b[i] as int + 256 * (b[i + 1] as int)
}

pub open spec fn le_u32(b: Seq<u8>, i: int) -> int {
    b[i] as int + 256 * (b[i + 1] as int) + 65536 * (b[i + 2] as int) + 16777216 * (
    b[i + 3] as int)
}

/// The offset of directory entry `k`.
pub open spec fn ico_entry(k: int) -> int {
    6 + 16 * k
}

/// The width of directory entry `k` (a stored 0 means 256).
pub open spec fn ico_width(b: Seq<u8>, k: int) -> int {
    if b[ico_entry(k)] == 0 {
        256
    } else {
        b[ico_entry(k)] as int
    }
}

pub open spec fn ico_size(b: Seq<u8>, k: int) -> int {
    le_u32(b, ico_entry(k) + 8)
}

pub open spec fn ico_offset(b: Seq<u8>, k: int) -> int {
    le_u32(b, ico_entry(k) + 12)
}

/// Entry `k` lies inside the file and so does the image it points to.
pub open spec fn ico_entry_ok(b: Seq<u8>, k: int) -> bool {
    &&& ico_entry(k) + 16 <= b.len()
    &&& ico_offset(b, k) + ico_size(b, k) <= b.len()
}

/// The header says "icon" (type 1) and every one of its entries is well formed.
pub open spec fn ico_well_formed(b: Seq<u8>) -> bool {
    &&& b.len() >= 6
    &&& le_u16(b, 2) == 1
    &&& forall|k: int| 0 <= k < le_u16(b, 4) ==> #[trigger] ico_entry_ok(b, k)
}

/// Entry `k` is the first of the widest entries.
pub open spec fn ico_is_best(b: Seq<u8>, k: int) -> bool {
    &&& 0 <= k < le_u16(b, 4)
    &&& forall|j: int| 0 <= j < le_u16(b, 4) ==> #[trigger] ico_width(b, j) <= ico_width(b, k)
    &&& forall|j: int| 0 <= j < k ==> #[trigger] ico_width(b, j) < ico_width(b, k)
}

/// The image data of the widest image of an `.ico` file (the first, among
/// equally wide ones). There is none when the file is not a well-formed icon
/// or has no images.
pub fn best_ico_image(bytes: &[u8]) -> (r: Option<&[u8]>)
    ensures
        r is Some <==> ico_well_formed(bytes@) && le_u16(bytes@, 4) > 0,
        r matches Some(img) ==> exists|k: int|
            ico_is_best(bytes@, k) && img@ == bytes@.subrange(
                ico_offset(bytes@, k),
                ico_offset(bytes@, k) + ico_size(bytes@, k),
            ),
{
    let len = bytes.len();
    if len < 6 || (bytes[2] as u32 + 256 * bytes[3] as u32) != 1 {
        return None;
    }
    let count = (bytes[4] as u32 + 256 * bytes[5] as u32) as usize;
    let ghost b = bytes@;
    let mut best: Option<(u32, usize, usize)> = None;
    let ghost mut best_k: int = 0;
    let mut index: usize = 0;
    while index < count
        invariant
            b == bytes@,
            len == b.len(),
            len >= 6,
            le_u16(b, 2) == 1,
            count == le_u16(b, 4),
            count <= 65535,
            index <= count,
            forall|k: int| 0 <= k < index ==> #[trigger] ico_entry_ok(b, k),
            index == 0 <==> best is None,
            best matches Some(bw) ==> {
                &&& 0 <= best_k < index
                &&& bw.0 == ico_width(b, best_k)
                &&& bw.1 == ico_offset(b, best_k)
                &&& bw.2 == ico_size(b, best_k)
                &&& forall|j: int| 0 <= j < index ==> #[trigger] ico_width(b, j) <= ico_width(b, best_k)
                &&& forall|j: int| 0 <= j < best_k ==> #[trigger] ico_width(b, j) < ico_width(b, best_k)
            },
        decreases count - index,
    {
        let entry = 6 + index * 16;
        if entry + 16 > len {
            assert(!ico_entry_ok(b, index as int));
            return None;
        }
        let width: u32 = if bytes[entry] == 0 {
            256
        } else {
            bytes[entry] as u32
        };
        let size = bytes[entry + 8] as u64 + 256 * bytes[entry + 9] as u64 + 65536
            * bytes[entry + 10] as u64 + 16777216 * bytes[entry + 11] as u64;
        let offset = bytes[entry + 12] as u64 + 256 * bytes[entry + 13] as u64 + 65536
            * bytes[entry + 14] as u64 + 16777216 * bytes[entry + 15] as u64;
        assert(size == ico_size(b, index as int));
        assert(offset == ico_offset(b, index as int));
        if offset + size > len as u64 {
            assert(!ico_entry_ok(b, index as int));
            return None;
        }
        let better = match best {
            None => true,
            Some(bw) => width > bw.0,
        };
        if better {
            best = Some((width, offset as usize, size as usize));
            proof {
                best_k = index as int;
            }
        }
        index = index + 1;
    }
    match best {
        None => None,
        Some(bw) => {
            assert(ico_entry_ok(b, best_k));
            let img = vstd::slice::slice_subrange(bytes, bw.1, bw.1 + bw.2);
            assert(ico_is_best(b, best_k));
            Some(img)
        },
    }
}

} // verus!
