//! Character-level helpers on tags and commands: prefix and substring tests,
//! the `name:value` field of a tag, textual substitution and number parsing.
use vstd::prelude::*;
use vstd::string::*;

verus! {

/// `p` begins `s`.
pub open spec fn has_prefix(s: Seq<char>, p: Seq<char>) -> bool {
    p.len() <= s.len() && s.subrange(0, p.len() as int) == p
}

/// `p` occurs in `s` starting at position `i`.
pub open spec fn occurs_at(s: Seq<char>, p: Seq<char>, i: int) -> bool {
    0 <= i && i + p.len() <= s.len() && s.subrange(i, i + p.len()) == p
}

/// `p` occurs somewhere in `s`.
pub open spec fn has_infix(s: Seq<char>, p: Seq<char>) -> bool {
    exists|i: int| occurs_at(s, p, i)
}

/// Position of the first `c` in `s` at or after `from`, or `s.len()` if there is none.
pub open spec fn find_char(s: Seq<char>, c: char, from: int) -> int
    decreases s.len() - from,
{
    if from < 0 || from >= s.len() {
        s.len() as int
    } else if s[from] == c {
        from
    } else {
        find_char(s, c, from + 1)
    }
}

/// The second `:`-separated field of `s`: what lies between the first colon
/// and the next one (or the end). `None` when `s` holds no colon.
pub open spec fn second_field(s: Seq<char>) -> Option<Seq<char>> {
    let i = find_char(s, ':', 0);
    if i >= s.len() {
        None
    } else {
        Some(s.subrange(i + 1, find_char(s, ':', i + 1)))
    }
}

/// `s` with every non-overlapping occurrence of `p`, scanned from the left,
/// replaced by `w`.
pub open spec fn replace_all(s: Seq<char>, p: Seq<char>, w: Seq<char>) -> Seq<char>
    decreases s.len(),
{
    if s.len() == 0 {
        s
    } else if p.len() > 0 && has_prefix(s, p) {
        w + replace_all(s.subrange(p.len() as int, s.len() as int), p, w)
    } else {
        seq![s[0]] + replace_all(s.subrange(1, s.len() as int), p, w)
    }
}

pub open spec fn is_digit(c: char) -> bool {
    '0' <= c && c <= '9'
}

pub open spec fn digit_value(c: char) -> nat {
    (c as u32 - '0' as u32) as nat
}

pub open spec fn all_digits(s: Seq<char>) -> bool {
    forall|i: int| 0 <= i < s.len() ==> is_digit(#[trigger] s[i])
}

/// The number that the decimal digits `s` spell.
pub open spec fn digits_value(s: Seq<char>) -> nat
    decreases s.len(),
{
    if s.len() == 0 {
        0
    } else {
        digits_value(s.drop_last()) * 10 + digit_value(s.last())
    }
}

/// `s` without one leading `+`.
pub open spec fn unsigned_body(s: Seq<char>) -> Seq<char> {
    if s.len() > 0 && s[0] == '+' {
        s.subrange(1, s.len() as int)
    } else {
        s
    }
}

/// A decimal unsigned integer: an optional `+` and at least one digit,
/// whose value fits in `usize`.
pub open spec fn parsed_usize(s: Seq<char>) -> Option<nat> {
    let t = unsigned_body(s);
    if t.len() > 0 && all_digits(t) && digits_value(t) <= usize::MAX {
        Some(digits_value(t))
    } else {
        None
    }
}

/// Milliseconds given by the first three digits after a decimal point.
pub open spec fn fraction_ms(f: Seq<char>) -> nat {
    (if f.len() > 0 { digit_value(f[0]) * 100 } else { 0 }) + (if f.len() > 1 {
        digit_value(f[1]) * 10
    } else {
        0
    }) + (if f.len() > 2 { digit_value(f[2]) } else { 0 })
}

/// Milliseconds of a plain decimal number of seconds `<digits>[.<digits>]`,
/// where either part may be empty but not both; decimals past the third
/// are dropped. `None` when malformed or when it does not fit in `u64`.
pub open spec fn decimal_seconds_ms(s: Seq<char>) -> Option<nat> {
    let d = find_char(s, '.', 0);
    let whole = s.subrange(0, d);
    let frac = if d < s.len() { s.subrange(d + 1, s.len() as int) } else { Seq::empty() };
    let ms = digits_value(whole) * 1000 + fraction_ms(frac);
    if (whole.len() > 0 || frac.len() > 0) && all_digits(whole) && all_digits(frac) && ms
        <= u64::MAX {
        Some(ms)
    } else {
        None
    }
}

/// A delay in seconds: a plain decimal number with an optional leading `+`
/// (`30`, `+5`, `1.5`, `.5`, `5.`), in whole milliseconds. A delay is a
/// length of time written as a decimal, so a sign `-`, an exponent (`1e1`)
/// and `inf` / `nan` make it malformed.
pub open spec fn parsed_seconds_ms(s: Seq<char>) -> Option<nat> {
    decimal_seconds_ms(unsigned_body(s))
}

proof fn lemma_find_char_bounds(s: Seq<char>, c: char, from: int)
    requires
        0 <= from <= s.len(),
    ensures
        from <= find_char(s, c, from) <= s.len(),
        find_char(s, c, from) < s.len() ==> s[find_char(s, c, from)] == c,
        forall|k: int| from <= k < find_char(s, c, from) ==> s[k] != c,
    decreases s.len() - from,
{
    if from < s.len() && s[from] != c {
        lemma_find_char_bounds(s, c, from + 1);
    }
}

proof fn lemma_digits_value_monotone(s: Seq<char>, n: int)
    requires
        0 <= n <= s.len(),
    ensures
        digits_value(s.subrange(0, n)) <= digits_value(s),
    decreases s.len() - n,
{
    if n < s.len() {
        lemma_digits_value_monotone(s, n + 1);
        assert(s.subrange(0, n + 1).drop_last() =~= s.subrange(0, n));
    } else {
        assert(s.subrange(0, n) =~= s);
    }
}

/// Number of characters of `s`.
pub fn char_count(s: &str) -> (r: usize)
    ensures
        r == s@.len(),
{
    s.unicode_len()
}

/// Whether `a` and `b` hold the same characters.
pub fn same_text(a: &str, b: &str) -> (r: bool)
    ensures
        r == (a@ == b@),
{
    let n = a.unicode_len();
    if n != b.unicode_len() {
        return false;
    }
    let mut i: usize = 0;
    while i < n
        invariant
            n == a@.len() == b@.len(),
            i <= n,
            forall|k: int| 0 <= k < i ==> a@[k] == b@[k],
        decreases n - i,
    {
        if a.get_char(i) != b.get_char(i) {
            return false;
        }
        i = i + 1;
    }
    assert(a@ =~= b@);
    true
}

/// Whether `p` occurs in `s` at position `at`.
fn occurs_at_exec(s: &str, p: &str, at: usize) -> (r: bool)
    ensures
        r == occurs_at(s@, p@, at as int),
{
    let n = s.unicode_len();
    let m = p.unicode_len();
    if m > n || at > n - m {
        return false;
    }
    let mut i: usize = 0;
    while i < m
        invariant
            n == s@.len(),
            m == p@.len(),
            at + m <= n,
            i <= m,
            forall|k: int| 0 <= k < i ==> s@[at + k] == p@[k],
        decreases m - i,
    {
        if s.get_char(at + i) != p.get_char(i) {
            assert(s@.subrange(at as int, at + m)[i as int] != p@[i as int]);
            return false;
        }
        i = i + 1;
    }
    assert(s@.subrange(at as int, at + m) =~= p@);
    true
}

/// Whether `s` begins with `p`.
pub fn starts_with(s: &str, p: &str) -> (r: bool)
    ensures
        r == has_prefix(s@, p@),
{
    occurs_at_exec(s, p, 0)
}

/// Whether `p` occurs anywhere in `s`.
pub fn contains(s: &str, p: &str) -> (r: bool)
    ensures
        r == has_infix(s@, p@),
{
    let n = s.unicode_len();
    let mut i: usize = 0;
    while i < n
        invariant
            n == s@.len(),
            i <= n,
            forall|k: int| 0 <= k < i ==> !occurs_at(s@, p@, k),
        decreases n - i,
    {
        if occurs_at_exec(s, p, i) {
            return true;
        }
        i = i + 1;
    }
    if occurs_at_exec(s, p, n) {
        return true;
    }
    assert forall|k: int| !occurs_at(s@, p@, k) by {
        if 0 <= k && k + p@.len() <= s@.len() {
            assert(k < n || k == n);
        }
    }
    false
}

/// Position of the first `c` in `s` at or after `from`, or the length of `s`.
fn find_char_exec(s: &str, c: char, from: usize) -> (r: usize)
    requires
        from <= s@.len(),
    ensures
        r == find_char(s@, c, from as int),
{
    let n = s.unicode_len();
    let mut i = from;
    while i < n
        invariant
            n == s@.len(),
            from <= i <= n,
            find_char(s@, c, i as int) == find_char(s@, c, from as int),
        decreases n - i,
    {
        if s.get_char(i) == c {
            return i;
        }
        i = i + 1;
    }
    i
}

/// The text between the first colon of `s` and the next colon or the end.
pub fn second_field_of(s: &str) -> (r: Option<String>)
    ensures
        r matches Some(f) ==> second_field(s@) == Some(f@),
        r is None ==> second_field(s@) is None,
{
    let n = s.unicode_len();
    let i = find_char_exec(s, ':', 0);
    if i >= n {
        return None;
    }
    proof {
        lemma_find_char_bounds(s@, ':', 0);
    }
    let j = find_char_exec(s, ':', i + 1);
    proof {
        lemma_find_char_bounds(s@, ':', i + 1);
    }
    let f = s.substring_char(i + 1, j);
    Some(f.to_owned())
}

/// `s` with each occurrence of the non-empty `p` replaced by `w`.
pub fn replace_text(s: &str, p: &str, w: &str) -> (r: String)
    requires
        p@.len() > 0,
    ensures
        r@ == replace_all(s@, p@, w@),
{
    let n = s.unicode_len();
    let m = p.unicode_len();
    let mut out = String::new();
    let mut i: usize = 0;
    assert(s@.subrange(0, n as int) =~= s@);
    assert(out@ + replace_all(s@, p@, w@) =~= replace_all(s@, p@, w@));
    while i < n
        invariant
            n == s@.len(),
            m == p@.len(),
            m > 0,
            i <= n,
            out@ + replace_all(s@.subrange(i as int, n as int), p@, w@) == replace_all(s@, p@, w@),
        decreases n - i,
    {
        let ghost rest = s@.subrange(i as int, n as int);
        if occurs_at_exec(s, p, i) {
            assert(has_prefix(rest, p@)) by {
                assert(rest.subrange(0, m as int) =~= s@.subrange(i as int, i + m));
            }
            assert(rest.subrange(m as int, rest.len() as int) =~= s@.subrange(i + m, n as int));
            out.append(w);
            assert(out@ + replace_all(s@.subrange(i + m, n as int), p@, w@) =~= replace_all(s@, p@, w@));
            i = i + m;
        } else {
            assert(!has_prefix(rest, p@)) by {
                if has_prefix(rest, p@) {
                    assert(rest.subrange(0, m as int) =~= s@.subrange(i as int, i + m));
                }
            }
            let one = s.substring_char(i, i + 1);
            assert(rest.subrange(1, rest.len() as int) =~= s@.subrange(i + 1, n as int));
            assert(one@ =~= seq![rest[0]]);
            out.append(one);
            assert(out@ + replace_all(s@.subrange(i + 1, n as int), p@, w@) =~= replace_all(s@, p@, w@));
            i = i + 1;
        }
    }
    assert(out@ =~= out@ + replace_all(s@.subrange(n as int, n as int), p@, w@));
    out
}

/// Parses a decimal unsigned integer, with an optional leading `+`.
pub fn parse_usize(s: &str) -> (r: Option<usize>)
    ensures
        r matches Some(v) ==> parsed_usize(s@) == Some(v as nat),
        r is None ==> parsed_usize(s@) is None,
{
    let n = s.unicode_len();
    let mut start: usize = 0;
    if n > 0 && s.get_char(0) == '+' {
        start = 1;
    }
    let ghost t = unsigned_body(s@);
    assert(t =~= s@.subrange(start as int, n as int));
    if start >= n {
        return None;
    }
    let mut value: usize = 0;
    let mut i = start;
    while i < n
        invariant
            n == s@.len(),
            start <= i <= n,
            t == s@.subrange(start as int, n as int),
            t == unsigned_body(s@),
            all_digits(t.subrange(0, i - start)),
            value == digits_value(t.subrange(0, i - start)),
        decreases n - i,
    {
        let c = s.get_char(i);
        let ghost k = i - start;
        assert(t.subrange(0, k + 1).drop_last() =~= t.subrange(0, k));
        assert(t[k] == c);
        if !('0' <= c && c <= '9') {
            assert(!is_digit(t[k]));
            assert(!all_digits(t));
            return None;
        }
        let d = (c as u32 - '0' as u32) as usize;
        assert(digits_value(t.subrange(0, k + 1)) == value * 10 + d);
        match value.checked_mul(10) {
            Some(v10) => match v10.checked_add(d) {
                Some(v) => {
                    value = v;
                },
                None => {
                    proof {
                        lemma_digits_value_monotone(t, k + 1);
                    }
                    return None;
                },
            },
            None => {
                proof {
                    lemma_digits_value_monotone(t, k + 1);
                }
                return None;
            },
        }
        assert(all_digits(t.subrange(0, k + 1))) by {
            assert forall|j: int| 0 <= j < k + 1 implies is_digit(#[trigger] t.subrange(0, k + 1)[j]) by {
                if j < k {
                    assert(t.subrange(0, k + 1)[j] == t.subrange(0, k)[j]);
                }
            }
        }
        i = i + 1;
    }
    assert(t.subrange(0, n - start) =~= t);
    Some(value)
}

/// Whether every character of `s` is a decimal digit.
fn all_digits_exec(s: &str) -> (r: bool)
    ensures
        r == all_digits(s@),
{
    let n = s.unicode_len();
    let mut i: usize = 0;
    while i < n
        invariant
            n == s@.len(),
            i <= n,
            forall|k: int| 0 <= k < i ==> is_digit(#[trigger] s@[k]),
        decreases n - i,
    {
        let c = s.get_char(i);
        if !('0' <= c && c <= '9') {
            return false;
        }
        i = i + 1;
    }
    true
}

/// The value of the decimal digits `s`, when there is at least one, all are
/// digits and the value fits in `u64`.
fn parse_digits(s: &str) -> (r: Option<u64>)
    ensures
        r matches Some(v) ==> s@.len() > 0 && all_digits(s@) && v == digits_value(s@),
        r is None ==> !(s@.len() > 0 && all_digits(s@) && digits_value(s@) <= u64::MAX),
{
    let n = s.unicode_len();
    if n == 0 {
        return None;
    }
    let mut value: u64 = 0;
    let mut i: usize = 0;
    while i < n
        invariant
            n == s@.len(),
            i <= n,
            all_digits(s@.subrange(0, i as int)),
            value == digits_value(s@.subrange(0, i as int)),
        decreases n - i,
    {
        let c = s.get_char(i);
        assert(s@.subrange(0, i + 1).drop_last() =~= s@.subrange(0, i as int));
        if !('0' <= c && c <= '9') {
            assert(!is_digit(s@[i as int]));
            return None;
        }
        let d = (c as u32 - '0' as u32) as u64;
        assert(digits_value(s@.subrange(0, i + 1)) == value * 10 + d);
        match value.checked_mul(10) {
            Some(v10) => match v10.checked_add(d) {
                Some(v) => {
                    value = v;
                },
                None => {
                    proof {
                        lemma_digits_value_monotone(s@, i + 1);
                    }
                    return None;
                },
            },
            None => {
                proof {
                    lemma_digits_value_monotone(s@, i + 1);
                }
                return None;
            },
        }
        assert(all_digits(s@.subrange(0, i + 1))) by {
            assert forall|j: int| 0 <= j < i + 1 implies is_digit(#[trigger] s@.subrange(0, i + 1)[j]) by {
                if j < i {
                    assert(s@.subrange(0, i + 1)[j] == s@.subrange(0, i as int)[j]);
                }
            }
        }
        i = i + 1;
    }
    assert(s@.subrange(0, n as int) =~= s@);
    Some(value)
}

/// Digit value of the character at `i` of `s`, or zero past its end.
fn digit_at(s: &str, i: usize) -> (r: u64)
    requires
        all_digits(s@),
    ensures
        r == if i < s@.len() { digit_value(s@[i as int]) } else { 0 },
        r <= 9,
{
    if i < s.unicode_len() {
        let c = s.get_char(i);
        assert(is_digit(s@[i as int]));
        (c as u32 - '0' as u32) as u64
    } else {
        0
    }
}

fn decimal_seconds_exec(s: &str) -> (r: Option<u64>)
    ensures
        r matches Some(v) ==> decimal_seconds_ms(s@) == Some(v as nat),
        r is None ==> decimal_seconds_ms(s@) is None,
{
    let n = s.unicode_len();
    let d = find_char_exec(s, '.', 0);
    proof {
        lemma_find_char_bounds(s@, '.', 0);
    }
    let whole = s.substring_char(0, d);
    let frac = if d < n {
        s.substring_char(d + 1, n)
    } else {
        s.substring_char(n, n)
    };
    assert(frac@ =~= (if d < n { s@.subrange(d + 1, n as int) } else { Seq::empty() }));
    if !all_digits_exec(frac) {
        return None;
    }
    let w = if d == 0 {
        if char_count(frac) == 0 {
            return None;
        }
        assert(whole@ =~= Seq::<char>::empty());
        0
    } else {
        match parse_digits(whole) {
            Some(w) => w,
            None => {
                return None;
            },
        }
    };
    let f = digit_at(frac, 0) * 100 + digit_at(frac, 1) * 10 + digit_at(frac, 2);
    assert(f == fraction_ms(frac@));
    match w.checked_mul(1000) {
        Some(w1000) => match w1000.checked_add(f) {
            Some(ms) => Some(ms),
            None => None,
        },
        None => None,
    }
}

/// Parses a delay in seconds (see `parsed_seconds_ms`) into milliseconds.
pub fn parse_seconds_ms(s: &str) -> (r: Option<u64>)
    ensures
        r matches Some(v) ==> parsed_seconds_ms(s@) == Some(v as nat),
        r is None ==> parsed_seconds_ms(s@) is None,
{
    let n = s.unicode_len();
    if n > 0 && s.get_char(0) == '+' {
        decimal_seconds_exec(s.substring_char(1, n))
    } else {
        decimal_seconds_exec(s)
    }
}

} // verus!
