//! The target-window picker: which windows are listed, and in what order.

use crate::domain::{WindowChoice, WindowInfo};
use crate::text::{chars_of, is_blank, trim};
use vstd::prelude::*;

verus! {

/// Whether a top-level window is offered as a target: it is visible and its
/// title holds more than whitespace.
pub fn is_listed(visible: bool, title: &str) -> (b: bool)
    ensures
        b == (visible && trim(title@).len() > 0),
{
    visible && !is_blank(title)
}

// ---------------------------------------------------------------------------
// Ordering titles
// ---------------------------------------------------------------------------

/// `a` comes no later than `b` in the order of `str`'s `cmp`: compared
/// character by character by code point, a prefix first.
pub open spec fn title_le(a: Seq<char>, b: Seq<char>) -> bool
    decreases a.len(),
{
    if a.len() == 0 {
        true
    } else if b.len() == 0 {
        false
    } else if a[0] != b[0] {
        a[0] < b[0]
    } else {
        title_le(a.drop_first(), b.drop_first())
    }
}

pub proof fn lemma_title_le_reflexive(a: Seq<char>)
    ensures
        title_le(a, a),
    decreases a.len(),
{
    if a.len() > 0 {
        lemma_title_le_reflexive(a.drop_first());
    }
}

pub proof fn lemma_title_le_total(a: Seq<char>, b: Seq<char>)
    ensures
        title_le(a, b) || title_le(b, a),
    decreases a.len(),
{
    if a.len() > 0 && b.len() > 0 && a[0] == b[0] {
        lemma_title_le_total(a.drop_first(), b.drop_first());
    }
}

pub proof fn lemma_title_le_transitive(a: Seq<char>, b: Seq<char>, c: Seq<char>)
    requires
        title_le(a, b),
        title_le(b, c),
    ensures
        title_le(a, c),
    decreases a.len(),
{
    if a.len() > 0 && b.len() > 0 && c.len() > 0 && a[0] == b[0] && b[0] == c[0] {
        lemma_title_le_transitive(a.drop_first(), b.drop_first(), c.drop_first());
    }
}

/// Whether `a` sorts no later than `b` (`a <= b` for `str`).
pub fn title_order(a: &str, b: &str) -> (r: bool)
    ensures
        r == title_le(a@, b@),
{
    let x = chars_of(a);
    let y = chars_of(b);
    let mut i: usize = 0;
    assert(a@.skip(0) =~= a@);
    assert(b@.skip(0) =~= b@);
    while i < x.len() && i < y.len()
        invariant
            x@ == a@,
            y@ == b@,
            i <= x@.len(),
            i <= y@.len(),
            forall|k: int| 0 <= k < i ==> x@[k] == y@[k],
            title_le(a@, b@) == title_le(a@.skip(i as int), b@.skip(i as int)),
        decreases x@.len() - i,
    {
        let c = x[i];
        let d = y[i];
        if c != d {
            proof {
                assert(a@.skip(i as int)[0] == c);
                assert(b@.skip(i as int)[0] == d);
            }
            return c < d;
        }
        proof {
            assert(a@.skip(i as int).drop_first() =~= a@.skip(i + 1));
            assert(b@.skip(i as int).drop_first() =~= b@.skip(i + 1));
        }
        i = i + 1;
    }
    i == x.len()
}

// ---------------------------------------------------------------------------
// Sorting the picker
// ---------------------------------------------------------------------------

/// What `str::to_lowercase` makes of a text.
pub uninterp spec fn lowercase_of(s: Seq<char>) -> Seq<char>;

/// Calls `str::to_lowercase`; the result is named by `lowercase_of`.
#[verifier::external_body]
fn lowercase(s: &str) -> (r: String)
    ensures
        r@ == lowercase_of(s@),
{
    s.to_lowercase()
}

/// The key the picker sorts by.
pub open spec fn sort_key(w: WindowInfo) -> Seq<char> {
    lowercase_of(w.title@)
}

/// `r` is `w` rearranged, `r[k]` being `w[idx[k]]`.
pub open spec fn arranged(r: Seq<WindowInfo>, w: Seq<WindowInfo>, idx: Seq<int>) -> bool {
    &&& r.len() == w.len()
    &&& idx.len() == r.len()
    &&& forall|k: int| 0 <= k < r.len() ==> 0 <= #[trigger] idx[k] < w.len() && r[k] == w[idx[k]]
    &&& forall|k: int, l: int| 0 <= k < l < r.len() ==> #[trigger] idx[k] != #[trigger] idx[l]
}

/// `r` is ordered by key, and windows with equal keys keep their order.
pub open spec fn ordered_stably(r: Seq<WindowInfo>, idx: Seq<int>) -> bool {
    &&& forall|k: int, l: int|
        0 <= k < l < r.len() ==> title_le(sort_key(#[trigger] r[k]), sort_key(#[trigger] r[l]))
    &&& forall|k: int, l: int|
        0 <= k < l < r.len() && sort_key(#[trigger] r[k]) == sort_key(#[trigger] r[l]) ==> idx[k]
            < idx[l]
}

/// Sorts the picker's windows by their lowercased titles (a stable sort, as
/// `sort_by` is).
pub fn sort_windows(windows: Vec<WindowInfo>) -> (r: Vec<WindowInfo>)
    ensures
        exists|idx: Seq<int>| arranged(r@, windows@, idx) && ordered_stably(r@, idx),
{
    let ghost orig = windows@;
    let mut rest = windows;
    let mut r: Vec<WindowInfo> = Vec::new();
    let mut keys: Vec<String> = Vec::new();
    let ghost mut idx: Seq<int> = Seq::empty();
    let n = rest.len();
    let mut i: usize = 0;
    while i < n
        invariant
            n == orig.len(),
            i <= n,
            rest@ == orig.skip(i as int),
            r@.len() == i,
            keys@.len() == i,
            forall|k: int| 0 <= k < i ==> (#[trigger] keys@[k])@ == sort_key(r@[k]),
            idx.len() == i,
            forall|k: int| 0 <= k < i ==> 0 <= #[trigger] idx[k] < i && r@[k] == orig[idx[k]],
            forall|k: int, l: int| 0 <= k < l < i ==> #[trigger] idx[k] != #[trigger] idx[l],
            ordered_stably(r@, idx),
        decreases n - i,
    {
        let w = rest.remove(0);
        assert(w == orig[i as int]);
        assert(rest@ =~= orig.skip(i + 1));
        let key = lowercase(w.title.as_str());
        let mut p: usize = 0;
        while p < r.len() && title_order(keys[p].as_str(), key.as_str())
            invariant
                r@.len() == i,
                keys@.len() == i,
                p <= i,
                forall|k: int| 0 <= k < i ==> (#[trigger] keys@[k])@ == sort_key(r@[k]),
                forall|k: int| 0 <= k < p ==> title_le(sort_key(#[trigger] r@[k]), key@),
            decreases i - p,
        {
            p = p + 1;
        }
        let ghost old_r = r@;
        let ghost old_keys = keys@;
        let ghost new_key = key@;
        proof {
            assert forall|l: int| p <= l < i implies !title_le(
                sort_key(#[trigger] old_r[l]),
                new_key,
            ) by {
                if title_le(sort_key(old_r[l]), new_key) {
                    if l > p {
                        assert(title_le(sort_key(old_r[p as int]), sort_key(old_r[l])));
                        lemma_title_le_transitive(
                            sort_key(old_r[p as int]),
                            sort_key(old_r[l]),
                            new_key,
                        );
                    }
                    assert(old_keys[p as int]@ == sort_key(old_r[p as int]));
                }
            }
        }
        r.insert(p, w);
        keys.insert(p, key);
        proof {
            let new_idx = idx.insert(p as int, i as int);
            assert forall|k: int| 0 <= k < i + 1 implies (#[trigger] keys@[k])@ == sort_key(
                r@[k],
            ) by {
                if k > p {
                    assert(keys@[k] == old_keys[k - 1]);
                    assert(r@[k] == old_r[k - 1]);
                }
            }
            assert forall|k: int| 0 <= k < i + 1 implies 0 <= #[trigger] new_idx[k] < i + 1
                && r@[k] == orig[new_idx[k]] by {
                if k > p {
                    assert(new_idx[k] == idx[k - 1]);
                    assert(r@[k] == old_r[k - 1]);
                }
            }
            assert forall|k: int, l: int| 0 <= k < l < i + 1 implies #[trigger] new_idx[k]
                != #[trigger] new_idx[l] by {
                if k < p && l > p {
                    assert(new_idx[l] == idx[l - 1]);
                } else if k > p {
                    assert(new_idx[k] == idx[k - 1]);
                    assert(new_idx[l] == idx[l - 1]);
                } else if l > p {
                    assert(new_idx[l] == idx[l - 1]);
                }
            }
            assert forall|k: int, l: int| 0 <= k < l < i + 1 implies title_le(
                sort_key(#[trigger] r@[k]),
                sort_key(#[trigger] r@[l]),
            ) by {
                if k == p {
                    assert(r@[l] == old_r[l - 1]);
                    lemma_title_le_total(new_key, sort_key(old_r[l - 1]));
                } else if l == p {
                } else if k > p {
                    assert(r@[k] == old_r[k - 1]);
                    assert(r@[l] == old_r[l - 1]);
                } else if l > p {
                    assert(r@[l] == old_r[l - 1]);
                }
            }
            assert forall|k: int, l: int|
                0 <= k < l < i + 1 && sort_key(#[trigger] r@[k]) == sort_key(
                    #[trigger] r@[l],
                ) implies new_idx[k] < new_idx[l] by {
                if k == p {
                    assert(r@[l] == old_r[l - 1]);
                    lemma_title_le_reflexive(new_key);
                } else if l == p {
                } else if k > p {
                    assert(r@[k] == old_r[k - 1]);
                    assert(r@[l] == old_r[l - 1]);
                    assert(new_idx[k] == idx[k - 1]);
                    assert(new_idx[l] == idx[l - 1]);
                } else if l > p {
                    assert(r@[l] == old_r[l - 1]);
                    assert(new_idx[l] == idx[l - 1]);
                }
            }
            idx = new_idx;
        }
        i = i + 1;
    }
    assert(arranged(r@, orig, idx));
    r
}

// ---------------------------------------------------------------------------
// The picker's entries
// ---------------------------------------------------------------------------

/// The label of this app's own window in the picker.
pub open spec fn own_label() -> Seq<char> {
    "(this app) Cursory"@
}

/// The entries for the other windows, in order, leaving out `own`.
pub open spec fn other_choices(own: isize, ws: Seq<WindowInfo>) -> Seq<(isize, Seq<char>)>
    decreases ws.len(),
{
    if ws.len() == 0 {
        Seq::empty()
    } else {
        let rest = other_choices(own, ws.drop_last());
        if ws.last().hwnd == own {
            rest
        } else {
            rest.push((ws.last().hwnd, ws.last().title@))
        }
    }
}

/// The picker's entries: this app's own window first when its handle is
/// known, then every other window (a missing handle counts as 0).
pub open spec fn spec_window_choices(own: Option<isize>, ws: Seq<WindowInfo>) -> Seq<
    (isize, Seq<char>),
> {
    let h = match own {
        Some(h) => h,
        None => 0,
    };
    if h != 0 {
        seq![(h, own_label())] + other_choices(h, ws)
    } else {
        other_choices(h, ws)
    }
}

pub open spec fn choice_parts(c: WindowChoice) -> (isize, Seq<char>) {
    (c.hwnd, c.label@)
}

/// The entries of the target-window picker.
pub fn window_choices(own: Option<isize>, windows: &[WindowInfo]) -> (r: Vec<WindowChoice>)
    ensures
        r@.map_values(|c: WindowChoice| choice_parts(c)) == spec_window_choices(own, windows@),
{
    let h: isize = match own {
        Some(h) => h,
        None => 0,
    };
    let mut r: Vec<WindowChoice> = Vec::new();
    if h != 0 {
        r.push(WindowChoice { hwnd: h, label: String::from_str("(this app) Cursory") });
    }
    let ghost head = r@.map_values(|c: WindowChoice| choice_parts(c));
    let mut i: usize = 0;
    while i < windows.len()
        invariant
            i <= windows@.len(),
            head == (if h != 0 {
                seq![(h, own_label())]
            } else {
                Seq::<(isize, Seq<char>)>::empty()
            }),
            r@.map_values(|c: WindowChoice| choice_parts(c)) == head + other_choices(
                h,
                windows@.subrange(0, i as int),
            ),
        decreases windows@.len() - i,
    {
        let ghost before = r@;
        assert(windows@.subrange(0, i + 1).drop_last() =~= windows@.subrange(0, i as int));
        if windows[i].hwnd != h {
            r.push(WindowChoice { hwnd: windows[i].hwnd, label: windows[i].title.clone() });
            assert(r@.map_values(|c: WindowChoice| choice_parts(c)) =~= before.map_values(
                |c: WindowChoice| choice_parts(c),
            ).push((windows@[i as int].hwnd, windows@[i as int].title@)));
        }
        i = i + 1;
    }
    assert(windows@.subrange(0, windows@.len() as int) =~= windows@);
    r
}

/// The hwnd the picker shows as chosen: the chosen window, else this app's
/// own window (a missing handle counts as 0).
pub open spec fn chosen_hwnd(selected: Option<isize>, own: Option<isize>) -> isize {
    match selected {
        Some(s) => s,
        None => match own {
            Some(h) => h,
            None => 0,
        },
    }
}

/// The entry the picker shows as chosen: the first with the chosen hwnd.
pub fn current_choice(choices: &[WindowChoice], selected: Option<isize>, own: Option<isize>) -> (r:
    Option<WindowChoice>)
    ensures
        match r {
            Some(c) => exists|k: int|
                0 <= k < choices@.len() && choices@[k] == c && c.hwnd == chosen_hwnd(selected, own)
                    && forall|j: int| 0 <= j < k ==> (#[trigger] choices@[j]).hwnd != c.hwnd,
            None => forall|j: int|
                0 <= j < choices@.len() ==> (#[trigger] choices@[j]).hwnd != chosen_hwnd(
                    selected,
                    own,
                ),
        },
{
    let target: isize = match selected {
        Some(s) => s,
        None => match own {
            Some(h) => h,
            None => 0,
        },
    };
    let mut i: usize = 0;
    while i < choices.len()
        invariant
            i <= choices@.len(),
            target == chosen_hwnd(selected, own),
            forall|j: int| 0 <= j < i ==> (#[trigger] choices@[j]).hwnd != target,
        decreases choices@.len() - i,
    {
        if choices[i].hwnd == target {
            let c = WindowChoice { hwnd: choices[i].hwnd, label: choices[i].label.clone() };
            return Some(c);
        }
        i = i + 1;
    }
    None
}

} // verus!
