//! Character-level reading of the short text messages that the browser sends:
//! whitespace trimming, prefixes, splitting, ASCII case folding and decimal bytes.

use vstd::prelude::*;
use vstd::string::StrSliceExecFns;

verus! {

/// The characters with the Unicode `White_Space` property, the set that
/// `char::is_whitespace` accepts.
pub open spec fn is_white_space(c: char) -> bool {
    let u = c as u32;
    ||| 0x09 <= u <= 0x0d
    ||| u == 0x20
    ||| u == 0x85
    ||| u == 0xa0
    ||| u == 0x1680
    ||| 0x2000 <= u <= 0x200a
    ||| u == 0x2028
    ||| u == 0x2029
    ||| u == 0x202f
    ||| u == 0x205f
    ||| u == 0x3000
}

/// `s` without its leading whitespace.
pub open spec fn trim_start(s: Seq<char>) -> Seq<char>
    decreases s.len(),
{
    if s.len() > 0 && is_white_space(s[0]) {
        trim_start(s.drop_first())
    } else {
        s
    }
}

/// `s` without its trailing whitespace.
pub open spec fn trim_end(s: Seq<char>) -> Seq<char>
    decreases s.len(),
{
    if s.len() > 0 && is_white_space(s.last()) {
        trim_end(s.drop_last())
    } else {
        s
    }
}

/// `s` without leading and trailing whitespace, as `str::trim` gives it.
pub open spec fn trim(s: Seq<char>) -> Seq<char> {
    trim_end(trim_start(s))
}

/// The lower-case form of an ASCII upper-case letter; every other character
/// stays as it is.
pub open spec fn ascii_lower_char(c: char) -> char {
    if 'A' <= c <= 'Z' {
        ((c as u32) + 32) as char
    } else {
        c
    }
}

/// `s` with every ASCII upper-case letter made lower-case, as
/// `str::to_ascii_lowercase` gives it.
pub open spec fn ascii_lower(s: Seq<char>) -> Seq<char> {
    Seq::new(s.len(), |i: int| ascii_lower_char(s[i]))
}

/// Whether `s` begins with `prefix`.
pub open spec fn has_prefix(s: Seq<char>, prefix: Seq<char>) -> bool {
    prefix.len() <= s.len() && s.subrange(0, prefix.len() as int) == prefix
}

/// Whether every character of `s` is an ASCII decimal digit.
pub open spec fn all_digits(s: Seq<char>) -> bool {
    forall|i: int| 0 <= i < s.len() ==> '0' <= #[trigger] s[i] <= '9'
}

/// The number that a string of decimal digits writes.
pub open spec fn decimal_value(s: Seq<char>) -> nat
    decreases s.len(),
{
    if s.len() == 0 {
        0
    } else {
        decimal_value(s.drop_last()) * 10 + ((s.last() as u32) - ('0' as u32)) as nat
    }
}

/// What `u8::from_str` gives for `s`: an optional `+` sign, then at least one
/// decimal digit and nothing else, writing a number no greater than 255.
pub open spec fn parse_u8_spec(s: Seq<char>) -> Option<u8> {
    let digits = if s.len() > 0 && s[0] == '+' {
        s.drop_first()
    } else {
        s
    };
    if digits.len() > 0 && all_digits(digits) && decimal_value(digits) <= 255 {
        Some(decimal_value(digits) as u8)
    } else {
        None
    }
}

/// The index of the first `c` in `s`, if there is one.
pub open spec fn first_index_of(s: Seq<char>, c: char) -> Option<int> {
    if exists|i: int| 0 <= i < s.len() && s[i] == c {
        Some(choose|i: int| 0 <= i < s.len() && s[i] == c && forall|j: int| 0 <= j < i ==> s[j] != c)
    } else {
        None
    }
}

/// Whether `c` is whitespace in the sense of [`is_white_space`].
pub fn is_white_space_char(c: char) -> (r: bool)
    ensures
        r == is_white_space(c),
{
    let u = c as u32;
    (0x09 <= u && u <= 0x0d) || u == 0x20 || u == 0x85 || u == 0xa0 || u == 0x1680 || (0x2000
        <= u && u <= 0x200a) || u == 0x2028 || u == 0x2029 || u == 0x202f || u == 0x205f || u
        == 0x3000
}

/// The bounds, within `s[from..to]`, of that part trimmed of surrounding whitespace.
pub fn trim_bounds(s: &Vec<char>, from: usize, to: usize) -> (r: (usize, usize))
    requires
        from <= to <= s.len(),
    ensures
        from <= r.0 <= r.1 <= to,
        s@.subrange(r.0 as int, r.1 as int) == trim(s@.subrange(from as int, to as int)),
{
    let mut i = from;
    while i < to && is_white_space_char(s[i])
        invariant
            from <= i <= to <= s.len(),
            trim_start(s@.subrange(i as int, to as int)) == trim_start(
                s@.subrange(from as int, to as int),
            ),
        decreases to - i,
    {
        assert(s@.subrange(i as int, to as int).drop_first() =~= s@.subrange(i + 1, to as int));
        i += 1;
    }
    assert(trim_start(s@.subrange(i as int, to as int)) == s@.subrange(i as int, to as int));
    let mut j = to;
    while j > i && is_white_space_char(s[j - 1])
        invariant
            from <= i <= j <= to <= s.len(),
            trim_end(s@.subrange(i as int, j as int)) == trim_end(s@.subrange(i as int, to as int)),
        decreases j - i,
    {
        assert(s@.subrange(i as int, j as int).drop_last() =~= s@.subrange(i as int, j - 1));
        j -= 1;
    }
    assert(trim_end(s@.subrange(i as int, j as int)) == s@.subrange(i as int, j as int));
    (i, j)
}

/// `s[from..to]` with its ASCII upper-case letters made lower-case.
pub fn to_ascii_lowercase(s: &Vec<char>, from: usize, to: usize) -> (r: Vec<char>)
    requires
        from <= to <= s.len(),
    ensures
        r@ == ascii_lower(s@.subrange(from as int, to as int)),
{
    let mut r: Vec<char> = Vec::new();
    let mut i = from;
    while i < to
        invariant
            from <= i <= to <= s.len(),
            r@ =~= ascii_lower(s@.subrange(from as int, i as int)),
        decreases to - i,
    {
        let c = s[i];
        let l = if 'A' <= c && c <= 'Z' {
            ((c as u8) + 32) as char
        } else {
            c
        };
        r.push(l);
        i += 1;
    }
    r
}

/// Whether `s[from..to]` is the text `lit`.
pub fn eq_str(s: &Vec<char>, from: usize, to: usize, lit: &str) -> (r: bool)
    requires
        from <= to <= s.len(),
    ensures
        r == (s@.subrange(from as int, to as int) == lit@),
{
    let n = lit.unicode_len();
    if to - from != n {
        return false;
    }
    let mut i: usize = 0;
    while i < n
        invariant
            from <= to <= s.len(),
            to - from == n == lit@.len(),
            i <= n,
            forall|k: int| 0 <= k < i ==> s@[from + k] == lit@[k],
        decreases n - i,
    {
        if s[from + i] != lit.get_char(i) {
            return false;
        }
        i += 1;
    }
    assert(s@.subrange(from as int, to as int) =~= lit@);
    true
}

/// What `u8::from_str` gives for `s[from..to]` (see [`parse_u8_spec`]).
pub fn parse_u8(s: &Vec<char>, from: usize, to: usize) -> (r: Option<u8>)
    requires
        from <= to <= s.len(),
    ensures
        r == parse_u8_spec(s@.subrange(from as int, to as int)),
{
    let ghost whole = s@.subrange(from as int, to as int);
    let start = if from < to && s[from] == '+' {
        from + 1
    } else {
        from
    };
    let ghost digits = s@.subrange(start as int, to as int);
    assert(digits =~= (if whole.len() > 0 && whole[0] == '+' {
        whole.drop_first()
    } else {
        whole
    }));
    if start == to {
        return None;
    }
    // `value` is the number written so far, held at 256 once it is past 255.
    let mut value: u32 = 0;
    let mut i = start;
    while i < to
        invariant
            start <= i <= to <= s.len(),
            digits == s@.subrange(start as int, to as int),
            whole == s@.subrange(from as int, to as int),
            digits == (if whole.len() > 0 && whole[0] == '+' {
                whole.drop_first()
            } else {
                whole
            }),
            all_digits(s@.subrange(start as int, i as int)),
            value == if decimal_value(s@.subrange(start as int, i as int)) <= 255 {
                decimal_value(s@.subrange(start as int, i as int))
            } else {
                256
            },
        decreases to - i,
    {
        let c = s[i];
        if c < '0' || c > '9' {
            assert(digits[i - start] == c);
            assert(!all_digits(digits));
            return None;
        }
        let ghost prefix = s@.subrange(start as int, i + 1);
        assert(prefix.drop_last() =~= s@.subrange(start as int, i as int));
        assert(prefix.last() == c);
        let d = (c as u32) - ('0' as u32);
        if value > 255 {
            value = 256;
        } else {
            value = value * 10 + d;
            if value > 255 {
                value = 256;
            }
        }
        i += 1;
    }
    assert(s@.subrange(start as int, to as int) =~= digits);
    if value <= 255 {
        Some(value as u8)
    } else {
        None
    }
}

/// The position of the first `c` in `s[from..to]`, counted from `from`.
pub fn find_char(s: &Vec<char>, from: usize, to: usize, c: char) -> (r: Option<usize>)
    requires
        from <= to <= s.len(),
    ensures
        r matches Some(k) ==> k < to - from && first_index_of(
            s@.subrange(from as int, to as int),
            c,
        ) == Some(k as int),
        r is None ==> first_index_of(s@.subrange(from as int, to as int), c) is None,
{
    let ghost t = s@.subrange(from as int, to as int);
    let mut i = from;
    while i < to
        invariant
            from <= i <= to <= s.len(),
            t == s@.subrange(from as int, to as int),
            forall|j: int| 0 <= j < i - from ==> t[j] != c,
        decreases to - i,
    {
        if s[i] == c {
            let k = i - from;
            assert(t[k as int] == c);
            let ghost w = choose|w: int| 0 <= w < t.len() && t[w] == c && forall|j: int| 0 <= j < w ==> t[j] != c;
            assert(0 <= k < t.len() && t[k as int] == c && forall|j: int| 0 <= j < k ==> t[j] != c);
            assert(w == k) by {
                if w < k {
                    assert(t[w] != c);
                }
                if w > k {
                    assert(t[k as int] != c);
                }
            }
            return Some(k);
        }
        i += 1;
    }
    None
}

/// Whether every character of `s` is whitespace.
pub open spec fn all_white_space(s: Seq<char>) -> bool {
    forall|i: int| 0 <= i < s.len() ==> is_white_space(#[trigger] s[i])
}

proof fn lemma_trim_start_skips(w: Seq<char>, a: Seq<char>)
    requires
        all_white_space(w),
    ensures
        trim_start(w + a) == trim_start(a),
    decreases w.len(),
{
    if w.len() > 0 {
        assert((w + a).drop_first() =~= w.drop_first() + a);
        assert(is_white_space(w[0]));
        lemma_trim_start_skips(w.drop_first(), a);
    } else {
        assert(w + a =~= a);
    }
}

proof fn lemma_trim_end_skips(a: Seq<char>, w: Seq<char>)
    requires
        all_white_space(w),
    ensures
        trim_end(a + w) == trim_end(a),
    decreases w.len(),
{
    if w.len() > 0 {
        assert((a + w).drop_last() =~= a + w.drop_last());
        assert(is_white_space(w.last()));
        lemma_trim_end_skips(a, w.drop_last());
    } else {
        assert(a + w =~= a);
    }
}

proof fn lemma_trim_start_append(a: Seq<char>, w: Seq<char>)
    requires
        all_white_space(w),
    ensures
        trim_end(trim_start(a + w)) == trim_end(trim_start(a)),
    decreases a.len(),
{
    if a.len() == 0 {
        assert(a + w =~= w);
        assert(w =~= Seq::<char>::empty() + w);
        lemma_trim_start_skips(w, Seq::<char>::empty());
    } else if is_white_space(a[0]) {
        assert((a + w).drop_first() =~= a.drop_first() + w);
        lemma_trim_start_append(a.drop_first(), w);
    } else {
        assert((a + w)[0] == a[0]);
        lemma_trim_end_skips(a, w);
    }
}

/// Whitespace around a text does not change it once trimmed.
pub proof fn lemma_trim_surrounding_white_space(before: Seq<char>, a: Seq<char>, after: Seq<char>)
    requires
        all_white_space(before),
        all_white_space(after),
    ensures
        trim(before + a + after) == trim(a),
{
    assert(before + a + after =~= before + (a + after));
    lemma_trim_start_skips(before, a + after);
    lemma_trim_start_append(a, after);
}

/// The characters of `s`, in order.
pub fn chars_of(s: &str) -> (r: Vec<char>)
    ensures
        r@ == s@,
{
    let mut r: Vec<char> = Vec::new();
    for c in it: s.chars()
        invariant
            it.seq() == s@,
            r@ == it.seq().take(it.index() as int),
    {
        r.push(c);
    }
    r
}

} // verus!
