//! Character-level text handling: whitespace trimming, decimal numerals as
//! `str::parse` reads them, and decimal rendering as `ToString` writes them.

use vstd::prelude::*;

verus! {

// ---------------------------------------------------------------------------
// Whitespace and trimming
// ---------------------------------------------------------------------------

/// The Unicode `White_Space` property, which is what `char::is_whitespace`
/// and therefore `str::trim` test.
pub open spec fn is_ws(c: char) -> bool {
    ||| ('\t' <= c && c <= '\r')
    ||| c == ' '
    ||| c == '\u{85}'
    ||| c == '\u{a0}'
    ||| c == '\u{1680}'
    ||| ('\u{2000}' <= c && c <= '\u{200a}')
    ||| c == '\u{2028}'
    ||| c == '\u{2029}'
    ||| c == '\u{202f}'
    ||| c == '\u{205f}'
    ||| c == '\u{3000}'
}

/// `s` with its leading whitespace removed.
pub open spec fn trim_start(s: Seq<char>) -> Seq<char>
    decreases s.len(),
{
    if s.len() > 0 && is_ws(s[0]) {
        trim_start(s.drop_first())
    } else {
        s
    }
}

/// `s` with its trailing whitespace removed.
pub open spec fn trim_end(s: Seq<char>) -> Seq<char>
    decreases s.len(),
{
    if s.len() > 0 && is_ws(s.last()) {
        trim_end(s.drop_last())
    } else {
        s
    }
}

/// `s` with whitespace removed from both ends, as `str::trim` does.
pub open spec fn trim(s: Seq<char>) -> Seq<char> {
    trim_end(trim_start(s))
}

/// Whether `c` occurs in `s`.
pub open spec fn has_char(s: Seq<char>, c: char) -> bool {
    exists|i: int| 0 <= i < s.len() && s[i] == c
}

/// The index of the first `c` in `s`, if any.
#[verifier::opaque]
pub open spec fn first_index(s: Seq<char>, c: char) -> Option<int> {
    if has_char(s, c) {
        Some(choose|i: int| 0 <= i < s.len() && s[i] == c && forall|j: int| 0 <= j < i ==> s[j] != c)
    } else {
        None
    }
}

pub fn is_whitespace(c: char) -> (b: bool)
    ensures
        b == is_ws(c),
{
    ('\t' <= c && c <= '\r') || c == ' ' || c == '\u{85}' || c == '\u{a0}' || c == '\u{1680}'
        || ('\u{2000}' <= c && c <= '\u{200a}') || c == '\u{2028}' || c == '\u{2029}'
        || c == '\u{202f}' || c == '\u{205f}' || c == '\u{3000}'
}

/// The characters of `s`, in order.
pub fn chars_of(s: &str) -> (v: Vec<char>)
    ensures
        v@ == s@,
{
    let mut v: Vec<char> = Vec::new();
    for c in it: s.chars()
        invariant
            v@ == it.seq().take(it.index() as int),
    {
        v.push(c);
    }
    v
}

/// The bounds of the trimmed part of `s[from..to]`.
pub fn trim_bounds(s: &[char], from: usize, to: usize) -> (r: (usize, usize))
    requires
        from <= to <= s@.len(),
    ensures
        from <= r.0 <= r.1 <= to,
        s@.subrange(r.0 as int, r.1 as int) == trim(s@.subrange(from as int, to as int)),
{
    let ghost whole = s@.subrange(from as int, to as int);
    let mut a = from;
    while a < to && is_whitespace(s[a])
        invariant
            from <= a <= to <= s@.len(),
            whole == s@.subrange(from as int, to as int),
            trim_start(whole) == trim_start(s@.subrange(a as int, to as int)),
        decreases to - a,
    {
        assert(s@.subrange(a as int, to as int).drop_first() =~= s@.subrange(a + 1, to as int));
        a = a + 1;
    }
    let ghost started = s@.subrange(a as int, to as int);
    assert(trim_start(started) == started);
    let mut b = to;
    while b > a && is_whitespace(s[b - 1])
        invariant
            from <= a <= b <= to <= s@.len(),
            trim_end(started) == trim_end(s@.subrange(a as int, b as int)),
        decreases b - a,
    {
        assert(s@.subrange(a as int, b as int).drop_last() =~= s@.subrange(a as int, b - 1));
        b = b - 1;
    }
    (a, b)
}

/// The position of the first `c` in `s[from..to]`, if any.
pub fn find_char(s: &[char], from: usize, to: usize, c: char) -> (r: Option<usize>)
    requires
        from <= to <= s@.len(),
    ensures
        match r {
            Some(i) => from <= i < to && s@[i as int] == c && forall|j: int| from <= j < i ==> s@[j] != c,
            None => forall|j: int| from <= j < to ==> s@[j] != c,
        },
{
    let mut i = from;
    while i < to
        invariant
            from <= i <= to <= s@.len(),
            forall|j: int| from <= j < i ==> s@[j] != c,
        decreases to - i,
    {
        if s[i] == c {
            return Some(i);
        }
        i = i + 1;
    }
    None
}

/// Relates `find_char` on a window of `s` to `first_index` of that window.
pub proof fn lemma_first_index_window(s: Seq<char>, from: int, to: int, c: char, r: Option<int>)
    requires
        0 <= from <= to <= s.len(),
        match r {
            Some(i) => from <= i < to && s[i] == c && forall|j: int| from <= j < i ==> s[j] != c,
            None => forall|j: int| from <= j < to ==> s[j] != c,
        },
    ensures
        first_index(s.subrange(from, to), c) == match r {
            Some(i) => Some(i - from),
            None => None::<int>,
        },
{
    reveal(first_index);
    let w = s.subrange(from, to);
    match r {
        Some(i) => {
            assert(w[i - from] == c);
            assert(has_char(w, c));
            let k = choose|k: int| 0 <= k < w.len() && w[k] == c && forall|j: int| 0 <= j < k ==> w[j] != c;
            assert(exists|k: int| 0 <= k < w.len() && w[k] == c && forall|j: int| 0 <= j < k ==> w[j] != c) by {
                assert(forall|j: int| 0 <= j < i - from ==> w[j] == s[j + from]);
            }
            if k < i - from {
                assert(w[k] == s[k + from]);
            }
            if k > i - from {
                assert(w[i - from] != c);
            }
        },
        None => {
            if has_char(w, c) {
                let k = choose|k: int| 0 <= k < w.len() && w[k] == c;
                assert(s[k + from] == c);
            }
        },
    }
}

/// Whether `s` equals the characters of `lit`.
pub fn chars_equal(s: &[char], lit: &[char]) -> (b: bool)
    ensures
        b == (s@ == lit@),
{
    if s.len() != lit.len() {
        return false;
    }
    let mut i: usize = 0;
    while i < s.len()
        invariant
            s@.len() == lit@.len(),
            i <= s@.len(),
            forall|j: int| 0 <= j < i ==> s@[j] == lit@[j],
        decreases s@.len() - i,
    {
        if s[i] != lit[i] {
            return false;
        }
        i = i + 1;
    }
    assert(s@ =~= lit@);
    true
}

// ---------------------------------------------------------------------------
// Decimal numerals
// ---------------------------------------------------------------------------

pub open spec fn is_digit(c: char) -> bool {
    '0' <= c && c <= '9'
}

pub open spec fn digit_value(c: char) -> nat {
    (c as int - '0' as int) as nat
}

pub open spec fn all_digits(s: Seq<char>) -> bool {
    forall|i: int| 0 <= i < s.len() ==> is_digit(#[trigger] s[i])
}

/// The value of a string of decimal digits, most significant first.
pub open spec fn decimal_value(s: Seq<char>) -> nat
    decreases s.len(),
{
    if s.len() == 0 {
        0
    } else {
        decimal_value(s.drop_last()) * 10 + digit_value(s.last())
    }
}

/// The integer a decimal numeral denotes, as `str::parse` reads it: an
/// optional `+` (or `-`, where `allow_minus`) followed by one or more digits.
pub open spec fn numeral(s: Seq<char>, allow_minus: bool) -> Option<int> {
    if s.len() == 0 {
        None
    } else if s[0] == '+' || (allow_minus && s[0] == '-') {
        let rest = s.drop_first();
        if rest.len() > 0 && all_digits(rest) {
            if s[0] == '-' {
                Some(-(decimal_value(rest) as int))
            } else {
                Some(decimal_value(rest) as int)
            }
        } else {
            None
        }
    } else if all_digits(s) {
        Some(decimal_value(s) as int)
    } else {
        None
    }
}

/// What `str::parse::<i32>` returns on success.
pub open spec fn spec_parse_i32(s: Seq<char>) -> Option<i32> {
    match numeral(s, true) {
        Some(v) => if i32::MIN <= v <= i32::MAX {
            Some(v as i32)
        } else {
            None
        },
        None => None,
    }
}

/// What `str::parse::<usize>` returns on success.
pub open spec fn spec_parse_usize(s: Seq<char>) -> Option<usize> {
    match numeral(s, false) {
        Some(v) => if 0 <= v <= usize::MAX {
            Some(v as usize)
        } else {
            None
        },
        None => None,
    }
}

pub proof fn lemma_decimal_prefix_le(s: Seq<char>, i: int)
    requires
        0 <= i <= s.len(),
    ensures
        decimal_value(s.take(i)) <= decimal_value(s),
    decreases s.len(),
{
    if i == s.len() {
        assert(s.take(i) =~= s);
    } else {
        lemma_decimal_prefix_le(s.drop_last(), i);
        assert(s.drop_last().take(i) =~= s.take(i));
    }
}

/// The value of `s` when it is a string of at least one digit whose value is at most `limit`.
pub fn parse_digits(s: &[char], limit: u64) -> (r: Option<u64>)
    ensures
        r == (if s@.len() > 0 && all_digits(s@) && decimal_value(s@) <= limit {
            Some(decimal_value(s@) as u64)
        } else {
            None
        }),
{
    let n = s.len();
    let mut acc: u64 = 0;
    let mut i: usize = 0;
    while i < n
        invariant
            n == s@.len(),
            i <= n,
            acc as nat == decimal_value(s@.take(i as int)),
            acc <= limit,
            all_digits(s@.take(i as int)),
        decreases n - i,
    {
        let c = s[i];
        if !('0' <= c && c <= '9') {
            assert(!is_digit(s@[i as int]));
            return None;
        }
        let d: u64 = (c as u32 - '0' as u32) as u64;
        assert(s@.take(i + 1).drop_last() =~= s@.take(i as int));
        assert(decimal_value(s@.take(i + 1)) == decimal_value(s@.take(i as int)) * 10 + d);
        if d > limit || acc > (limit - d) / 10 {
            proof {
                if all_digits(s@) {
                    lemma_decimal_prefix_le(s@, i + 1);
                }
            }
            return None;
        }
        acc = acc * 10 + d;
        i = i + 1;
        assert(all_digits(s@.take(i as int))) by {
            assert forall|j: int| 0 <= j < i implies is_digit(#[trigger] s@.take(i as int)[j]) by {
                if j < i - 1 {
                    assert(s@.take(i as int)[j] == s@.take(i - 1)[j]);
                }
            }
        }
    }
    assert(s@.take(n as int) =~= s@);
    if n == 0 {
        None
    } else {
        Some(acc)
    }
}

/// `str::parse::<i32>` on the characters of `s`.
pub fn parse_i32(s: &[char]) -> (r: Option<i32>)
    ensures
        r == spec_parse_i32(s@),
{
    if s.len() == 0 {
        return None;
    }
    let first = s[0];
    if first == '+' || first == '-' {
        let rest = vstd::slice::slice_subrange(s, 1, s.len());
        assert(rest@ =~= s@.drop_first());
        if first == '-' {
            match parse_digits(rest, 2147483648) {
                Some(v) => Some((-(v as i64)) as i32),
                None => None,
            }
        } else {
            match parse_digits(rest, 2147483647) {
                Some(v) => Some(v as i32),
                None => None,
            }
        }
    } else {
        match parse_digits(s, 2147483647) {
            Some(v) => Some(v as i32),
            None => None,
        }
    }
}

/// `str::parse::<usize>` on the characters of `s`.
pub fn parse_usize(s: &[char]) -> (r: Option<usize>)
    ensures
        r == spec_parse_usize(s@),
{
    if s.len() == 0 {
        return None;
    }
    let limit = usize::MAX as u64;
    if s[0] == '+' {
        let rest = vstd::slice::slice_subrange(s, 1, s.len());
        assert(rest@ =~= s@.drop_first());
        match parse_digits(rest, limit) {
            Some(v) => Some(v as usize),
            None => None,
        }
    } else {
        match parse_digits(s, limit) {
            Some(v) => Some(v as usize),
            None => None,
        }
    }
}

/// `str::parse::<i32>` on `s` after `str::trim`.
pub fn parse_i32_trimmed(s: &str) -> (r: Option<i32>)
    ensures
        r == spec_parse_i32(trim(s@)),
{
    let v = chars_of(s);
    let (a, b) = trim_bounds(v.as_slice(), 0, v.len());
    assert(v@.subrange(0, v@.len() as int) =~= v@);
    let t = vstd::slice::slice_subrange(v.as_slice(), a, b);
    parse_i32(t)
}

/// Whether `s` is blank, that is, empty after `str::trim`.
pub fn is_blank(s: &str) -> (b: bool)
    ensures
        b == (trim(s@).len() == 0),
{
    let v = chars_of(s);
    let (a, b) = trim_bounds(v.as_slice(), 0, v.len());
    assert(v@.subrange(0, v@.len() as int) =~= v@);
    a == b
}

// ---------------------------------------------------------------------------
// Decimal rendering
// ---------------------------------------------------------------------------

pub open spec fn digit_char(d: nat) -> char {
    if d == 0 {
        '0'
    } else if d == 1 {
        '1'
    } else if d == 2 {
        '2'
    } else if d == 3 {
        '3'
    } else if d == 4 {
        '4'
    } else if d == 5 {
        '5'
    } else if d == 6 {
        '6'
    } else if d == 7 {
        '7'
    } else if d == 8 {
        '8'
    } else {
        '9'
    }
}

/// The decimal digits of `n` without leading zeros, as `ToString` writes them.
pub open spec fn nat_repr(n: nat) -> Seq<char>
    decreases n,
{
    if n < 10 {
        seq![digit_char(n)]
    } else {
        nat_repr(n / 10).push(digit_char(n % 10))
    }
}

/// The decimal form of `i`, with a leading `-` when negative.
pub open spec fn int_repr(i: int) -> Seq<char> {
    if i < 0 {
        seq!['-'] + nat_repr((-i) as nat)
    } else {
        nat_repr(i as nat)
    }
}

pub proof fn lemma_digit_char(d: nat)
    requires
        d < 10,
    ensures
        is_digit(digit_char(d)),
        digit_value(digit_char(d)) == d,
{
}

/// The rendering of a natural number is a non-empty digit string denoting it.
pub proof fn lemma_nat_repr(n: nat)
    ensures
        nat_repr(n).len() > 0,
        all_digits(nat_repr(n)),
        decimal_value(nat_repr(n)) == n,
    decreases n,
{
    if n < 10 {
        lemma_digit_char(n);
        let r = seq![digit_char(n)];
        assert(r.drop_last() =~= Seq::<char>::empty());
        assert(decimal_value(r.drop_last()) == 0);
        assert(r.last() == digit_char(n));
    } else {
        lemma_nat_repr(n / 10);
        lemma_digit_char(n % 10);
        let r = nat_repr(n);
        assert(r.drop_last() =~= nat_repr(n / 10));
        assert(r.last() == digit_char(n % 10));
        assert(n == (n / 10) * 10 + n % 10);
        assert forall|i: int| 0 <= i < r.len() implies is_digit(#[trigger] r[i]) by {
            if i < r.len() - 1 {
                assert(r[i] == nat_repr(n / 10)[i]);
            }
        }
    }
}

/// A rendered natural number holds no whitespace and no character other than digits.
pub proof fn lemma_nat_repr_is_trimmed(n: nat)
    ensures
        trim(nat_repr(n)) == nat_repr(n),
{
    lemma_nat_repr(n);
    let r = nat_repr(n);
    assert(is_digit(r[0]));
    assert(is_digit(r.last()));
}

/// What `str::parse::<i32>` reads back from `i.to_string()` is `i`.
pub proof fn lemma_i32_round_trip(i: i32)
    ensures
        spec_parse_i32(int_repr(i as int)) == Some(i),
        trim(int_repr(i as int)) == int_repr(i as int),
{
    if i < 0 {
        let m = (-(i as int)) as nat;
        lemma_nat_repr(m);
        let r = int_repr(i as int);
        assert(r.drop_first() =~= nat_repr(m));
        assert(r[0] == '-');
        let d = nat_repr(m);
        assert(is_digit(d.last()));
        assert(r.last() == d.last());
        assert(trim_start(r) == r);
    } else {
        lemma_nat_repr(i as nat);
        lemma_nat_repr_is_trimmed(i as nat);
        let r = nat_repr(i as nat);
        assert(is_digit(r[0]));
    }
}

/// What `str::parse::<usize>` reads back from `n.to_string()` is `n`.
pub proof fn lemma_usize_round_trip(n: usize)
    ensures
        spec_parse_usize(nat_repr(n as nat)) == Some(n),
        trim(nat_repr(n as nat)) == nat_repr(n as nat),
{
    lemma_nat_repr(n as nat);
    lemma_nat_repr_is_trimmed(n as nat);
    let r = nat_repr(n as nat);
    assert(is_digit(r[0]));
}

fn digit_str(d: u64) -> (s: &'static str)
    requires
        d < 10,
    ensures
        s@ == seq![digit_char(d as nat)],
{
    if d == 0 {
        proof { reveal_strlit("0"); }
        "0"
    } else if d == 1 {
        proof { reveal_strlit("1"); }
        "1"
    } else if d == 2 {
        proof { reveal_strlit("2"); }
        "2"
    } else if d == 3 {
        proof { reveal_strlit("3"); }
        "3"
    } else if d == 4 {
        proof { reveal_strlit("4"); }
        "4"
    } else if d == 5 {
        proof { reveal_strlit("5"); }
        "5"
    } else if d == 6 {
        proof { reveal_strlit("6"); }
        "6"
    } else if d == 7 {
        proof { reveal_strlit("7"); }
        "7"
    } else if d == 8 {
        proof { reveal_strlit("8"); }
        "8"
    } else {
        proof { reveal_strlit("9"); }
        "9"
    }
}

/// `n.to_string()`.
pub fn u64_to_string(n: u64) -> (s: String)
    ensures
        s@ == nat_repr(n as nat),
    decreases n,
{
    if n < 10 {
        String::from_str(digit_str(n))
    } else {
        let mut s = u64_to_string(n / 10);
        s.append(digit_str(n % 10));
        s
    }
}

/// `n.to_string()`.
pub fn usize_to_string(n: usize) -> (s: String)
    ensures
        s@ == nat_repr(n as nat),
{
    u64_to_string(n as u64)
}

/// `i.to_string()`.
pub fn i32_to_string(i: i32) -> (s: String)
    ensures
        s@ == int_repr(i as int),
{
    if i < 0 {
        let m = (-(i as i64)) as u64;
        let digits = u64_to_string(m);
        proof { reveal_strlit("-"); }
        let s = String::from_str("-").concat(digits.as_str());
        assert(s@ =~= seq!['-'] + nat_repr(m as nat));
        s
    } else {
        u64_to_string(i as u64)
    }
}

} // verus!
