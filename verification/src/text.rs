//! Character-level helpers: decimal numbers, whitespace trimming, splitting.
use vstd::prelude::*;

verus! {

/// The character of a decimal digit `d` (0..=9).
pub open spec fn digit_char(d: int) -> char {
    (48 + d) as char
}

/// The decimal representation of `n`, without leading zeros.
pub open spec fn decimal(n: nat) -> Seq<char>
    decreases n,
{
    if n < 10 {
        seq![digit_char(n as int)]
    } else {
        decimal(n / 10).push(digit_char((n % 10) as int))
    }
}

/// Appends one character to a string.
#[verifier::external_body]
pub(crate) fn push_char(s: &mut String, c: char)
    ensures
        final(s)@ == old(s)@.push(c),
{
    s.push(c);
}

fn digit_to_char(d: u64) -> (c: char)
    requires
        d < 10,
    ensures
        c == digit_char(d as int),
{
    let b: u8 = 48u8 + (d as u8);
    b as char
}

/// Writes `n` in decimal.
pub fn u64_to_decimal(n: u64) -> (s: String)
    ensures
        s@ == decimal(n as nat),
    decreases n,
{
    if n < 10 {
        let mut s = String::new();
        push_char(&mut s, digit_to_char(n));
        s
    } else {
        let mut s = u64_to_decimal(n / 10);
        push_char(&mut s, digit_to_char(n % 10));
        s
    }
}


/// Whether `c` has the Unicode `White_Space` property, the set that
/// `char::is_whitespace` tests.
pub open spec fn is_whitespace(c: char) -> bool {
    ||| ('\u{9}' <= c && c <= '\u{d}')
    ||| c == ' '
    ||| c == '\u{85}'
    ||| c == '\u{a0}'
    ||| c == '\u{1680}'
    ||| ('\u{2000}' <= c && c <= '\u{200a}')
    ||| c == '\u{2028}'
    ||| c == '\u{2029}'
    ||| c == '\u{202f}'
    ||| c == '\u{205f}'
    ||| c == '\u{3000}'
}

/// `s` without its leading whitespace.
pub open spec fn trim_start(s: Seq<char>) -> Seq<char>
    decreases s.len(),
{
    if s.len() > 0 && is_whitespace(s[0]) {
        trim_start(s.drop_first())
    } else {
        s
    }
}

/// `s` without its trailing whitespace.
pub open spec fn trim_end(s: Seq<char>) -> Seq<char>
    decreases s.len(),
{
    if s.len() > 0 && is_whitespace(s.last()) {
        trim_end(s.drop_last())
    } else {
        s
    }
}

/// `s` without leading and trailing whitespace, as `str::trim` gives it.
pub open spec fn trim(s: Seq<char>) -> Seq<char> {
    trim_end(trim_start(s))
}

/// Whether `c` is one of the ASCII digits `0`..`9`.
pub open spec fn is_digit(c: char) -> bool {
    '0' <= c && c <= '9'
}

/// Whether every character of `s` is an ASCII digit.
pub open spec fn all_digits(s: Seq<char>) -> bool {
    forall|i: int| 0 <= i < s.len() ==> #[trigger] is_digit(s[i])
}

/// The number that the digits `s` denote in base ten.
pub open spec fn digits_value(s: Seq<char>) -> nat
    decreases s.len(),
{
    if s.len() == 0 {
        0
    } else {
        digits_value(s.drop_last()) * 10 + ((s.last() as int - 48) as nat)
    }
}

/// The digits of an integer literal: `s` without a leading sign, if
/// `signed` allows a `-` there, or without a leading `+`.
pub open spec fn unsigned_body(s: Seq<char>, signed: bool) -> Seq<char> {
    if s.len() > 0 && (s[0] == '+' || (signed && s[0] == '-')) {
        s.drop_first()
    } else {
        s
    }
}

/// What `str::parse::<u16>` gives for `s`: an optional `+`, then at least
/// one ASCII digit and nothing else, of value at most `u16::MAX`.
pub open spec fn parse_u16(s: Seq<char>) -> Option<u16> {
    let body = unsigned_body(s, false);
    if body.len() > 0 && all_digits(body) && digits_value(body) <= u16::MAX {
        Some(digits_value(body) as u16)
    } else {
        None
    }
}

/// What `str::parse::<i64>` gives for `s`: an optional `+` or `-`, then at
/// least one ASCII digit and nothing else, of a value that fits in `i64`.
pub open spec fn parse_i64(s: Seq<char>) -> Option<i64> {
    let body = unsigned_body(s, true);
    let negative = s.len() > 0 && s[0] == '-';
    let v: int = if negative { -(digits_value(body) as int) } else { digits_value(body) as int };
    if body.len() > 0 && all_digits(body) && i64::MIN <= v <= i64::MAX {
        Some(v as i64)
    } else {
        None
    }
}

/// The characters of `s`, one by one.
pub fn chars_of(s: &str) -> (v: Vec<char>)
    ensures
        v@ == s@,
{
    let n = s.unicode_len();
    let mut v: Vec<char> = Vec::new();
    let mut i: usize = 0;
    while i < n
        invariant
            n == s@.len(),
            i <= n,
            v@ == s@.subrange(0, i as int),
        decreases n - i,
    {
        v.push(s.get_char(i));
        i = i + 1;
    }
    v
}

/// The string made of `v[from..to]`.
pub fn string_of(v: &Vec<char>, from: usize, to: usize) -> (s: String)
    requires
        from <= to <= v@.len(),
    ensures
        s@ == v@.subrange(from as int, to as int),
{
    let mut s = String::new();
    let mut i = from;
    while i < to
        invariant
            from <= i <= to,
            to <= v@.len(),
            s@ == v@.subrange(from as int, i as int),
        decreases to - i,
    {
        push_char(&mut s, v[i]);
        i = i + 1;
    }
    s
}

/// Whether `c` has the Unicode `White_Space` property.
pub fn char_is_whitespace(c: char) -> (b: bool)
    ensures
        b == is_whitespace(c),
{
    ('\u{9}' <= c && c <= '\u{d}') || c == ' ' || c == '\u{85}' || c == '\u{a0}' || c
        == '\u{1680}' || ('\u{2000}' <= c && c <= '\u{200a}') || c == '\u{2028}' || c
        == '\u{2029}' || c == '\u{202f}' || c == '\u{205f}' || c == '\u{3000}'
}


/// The bounds `(i, j)` of `v` trimmed: `v[i..j]` is `trim(v)`.
pub fn trim_bounds(v: &Vec<char>) -> (r: (usize, usize))
    ensures
        r.0 <= r.1 <= v@.len(),
        v@.subrange(r.0 as int, r.1 as int) == trim(v@),
{
    let n = v.len();
    let mut i: usize = 0;
    assert(v@.subrange(0, n as int) =~= v@);
    while i < n && char_is_whitespace(v[i])
        invariant
            n == v@.len(),
            i <= n,
            trim_start(v@) == trim_start(v@.subrange(i as int, n as int)),
        decreases n - i,
    {
        assert(v@.subrange(i as int, n as int).drop_first() =~= v@.subrange(i + 1, n as int));
        i = i + 1;
    }
    let ghost t = v@.subrange(i as int, n as int);
    assert(trim_start(v@) == t);
    let mut j: usize = n;
    while j > i && char_is_whitespace(v[j - 1])
        invariant
            n == v@.len(),
            i <= j <= n,
            t == v@.subrange(i as int, n as int),
            trim_end(t) == trim_end(v@.subrange(i as int, j as int)),
        decreases j,
    {
        assert(v@.subrange(i as int, j as int).drop_last() =~= v@.subrange(i as int, j - 1));
        j = j - 1;
    }
    (i, j)
}

/// `s` without leading and trailing whitespace.
pub fn trim_str(s: &str) -> (r: String)
    ensures
        r@ == trim(s@),
{
    let v = chars_of(s);
    let (i, j) = trim_bounds(&v);
    string_of(&v, i, j)
}


/// The value of the digits `v[start..]` capped at `cap`, or `None` when
/// one of them is not an ASCII digit.
fn capped_digits_value(v: &Vec<char>, start: usize, cap: u128) -> (r: Option<u128>)
    requires
        start <= v@.len(),
        cap <= u64::MAX,
    ensures
        r is None <==> !all_digits(v@.subrange(start as int, v@.len() as int)),
        r matches Some(x) ==> {
            let d = digits_value(v@.subrange(start as int, v@.len() as int));
            &&& d <= cap ==> x == d
            &&& d > cap ==> x == cap
        },
{
    let n = v.len();
    let mut acc: u128 = 0;
    let mut i = start;
    assert(v@.subrange(start as int, start as int) =~= Seq::<char>::empty());
    while i < n
        invariant
            n == v@.len(),
            start <= i <= n,
            cap <= u64::MAX,
            all_digits(v@.subrange(start as int, i as int)),
            digits_value(v@.subrange(start as int, i as int)) <= cap ==> acc == digits_value(
                v@.subrange(start as int, i as int),
            ),
            digits_value(v@.subrange(start as int, i as int)) > cap ==> acc == cap,
        decreases n - i,
    {
        let c = v[i];
        let ghost prev = v@.subrange(start as int, i as int);
        let ghost next = v@.subrange(start as int, i + 1);
        assert(next.drop_last() =~= prev);
        if !('0' <= c && c <= '9') {
            assert(!is_digit(v@.subrange(start as int, n as int)[i - start]));
            return None;
        }
        let d: u128 = (c as u32 - 48u32) as u128;
        assert(digits_value(next) == digits_value(prev) * 10 + d);
        acc = acc * 10 + d;
        if acc > cap {
            acc = cap;
        }
        assert forall|k: int| 0 <= k < next.len() implies #[trigger] is_digit(next[k]) by {
            if k < prev.len() {
                assert(next[k] == prev[k]);
            }
        }
        i = i + 1;
    }
    assert(v@.subrange(start as int, n as int) == v@.subrange(start as int, i as int));
    Some(acc)
}

/// Parses `s` as `str::parse::<u16>` does.
pub fn parse_u16_str(s: &str) -> (r: Option<u16>)
    ensures
        r == parse_u16(s@),
{
    let v = chars_of(s);
    let n = v.len();
    let start: usize = if n > 0 && v[0] == '+' { 1 } else { 0 };
    assert(v@.subrange(start as int, n as int) =~= unsigned_body(s@, false));
    if start == n {
        return None;
    }
    match capped_digits_value(&v, start, 65536) {
        None => None,
        Some(x) => {
            if x <= 65535 {
                Some(x as u16)
            } else {
                None
            }
        },
    }
}

/// Parses `s` as `str::parse::<i64>` does.
pub fn parse_i64_str(s: &str) -> (r: Option<i64>)
    ensures
        r == parse_i64(s@),
{
    let v = chars_of(s);
    let n = v.len();
    let negative = n > 0 && v[0] == '-';
    let start: usize = if n > 0 && (v[0] == '+' || v[0] == '-') { 1 } else { 0 };
    assert(v@.subrange(start as int, n as int) =~= unsigned_body(s@, true));
    if start == n {
        return None;
    }
    let limit: u128 = 9223372036854775808;
    match capped_digits_value(&v, start, limit + 1) {
        None => None,
        Some(x) => {
            if negative {
                if x <= limit {
                    Some((0i128 - (x as i128)) as i64)
                } else {
                    None
                }
            } else {
                if x < limit {
                    Some(x as i64)
                } else {
                    None
                }
            }
        },
    }
}


/// The pieces of `s` between the occurrences of `sep`, as `str::split`
/// gives them: one more piece than there are separators.
pub open spec fn split(s: Seq<char>, sep: char) -> Seq<Seq<char>>
    decreases s.len(),
{
    if s.len() == 0 {
        seq![Seq::empty()]
    } else {
        let p = split(s.drop_last(), sep);
        if s.last() == sep {
            p.push(Seq::empty())
        } else {
            p.update(p.len() - 1, p.last().push(s.last()))
        }
    }
}

/// `split` always gives at least one piece.
pub proof fn lemma_split_len(s: Seq<char>, sep: char)
    ensures
        split(s, sep).len() >= 1,
    decreases s.len(),
{
    if s.len() > 0 {
        lemma_split_len(s.drop_last(), sep);
    }
}

/// The views of a sequence of strings.
pub open spec fn views(v: Seq<String>) -> Seq<Seq<char>> {
    v.map_values(|p: String| p@)
}

/// Splits `s` at each `sep`.
pub fn split_str(s: &str, sep: char) -> (pieces: Vec<String>)
    ensures
        views(pieces@) == split(s@, sep),
{
    let v = chars_of(s);
    let n = v.len();
    let mut pieces: Vec<String> = Vec::new();
    let mut cur = String::new();
    let mut i: usize = 0;
    assert(views(pieces@).push(cur@) =~= split(v@.subrange(0, 0), sep));
    while i < n
        invariant
            n == v@.len(),
            i <= n,
            views(pieces@).push(cur@) == split(v@.subrange(0, i as int), sep),
        decreases n - i,
    {
        let c = v[i];
        let ghost prev = v@.subrange(0, i as int);
        let ghost next = v@.subrange(0, i + 1);
        assert(next.drop_last() =~= prev);
        assert(next.last() == c);
        proof {
            lemma_split_len(prev, sep);
        }
        if c == sep {
            let done = cur;
            pieces.push(done);
            cur = String::new();
            assert(views(pieces@).push(cur@) =~= split(next, sep));
        } else {
            push_char(&mut cur, c);
            assert(views(pieces@).push(cur@) =~= split(next, sep));
        }
        i = i + 1;
    }
    assert(v@.subrange(0, n as int) =~= v@);
    pieces.push(cur);
    assert(views(pieces@) =~= split(s@, sep));
    pieces
}


proof fn lemma_trim_start_first(s: Seq<char>)
    ensures
        trim_start(s).len() == 0 || !is_whitespace(trim_start(s)[0]),
    decreases s.len(),
{
    if s.len() > 0 && is_whitespace(s[0]) {
        lemma_trim_start_first(s.drop_first());
    }
}

proof fn lemma_trim_end_shape(s: Seq<char>)
    ensures
        trim_end(s).len() <= s.len(),
        trim_end(s) == s.subrange(0, trim_end(s).len() as int),
        trim_end(s).len() == 0 || !is_whitespace(trim_end(s).last()),
    decreases s.len(),
{
    if s.len() > 0 && is_whitespace(s.last()) {
        lemma_trim_end_shape(s.drop_last());
        assert(s.drop_last().subrange(0, trim_end(s).len() as int) =~= s.subrange(
            0,
            trim_end(s).len() as int,
        ));
    } else {
        assert(s.subrange(0, s.len() as int) =~= s);
    }
}

/// Trimming twice is trimming once.
pub proof fn lemma_trim_idempotent(s: Seq<char>)
    ensures
        trim(trim(s)) == trim(s),
{
    let ts = trim_start(s);
    let t = trim(s);
    lemma_trim_start_first(s);
    lemma_trim_end_shape(ts);
    if t.len() > 0 {
        assert(t[0] == ts[0]);
        assert(trim_start(t) == t);
        assert(trim_end(t) == t);
    } else {
        assert(trim_start(t) == t);
        assert(trim_end(t) == t);
    }
}


proof fn lemma_digit_char(d: int)
    requires
        0 <= d < 10,
    ensures
        digit_char(d) as int == 48 + d,
        is_digit(digit_char(d)),
{
}

/// The decimal representation of `n` is a non-empty run of digits that
/// denotes `n`.
pub proof fn lemma_decimal_digits(n: nat)
    ensures
        decimal(n).len() > 0,
        all_digits(decimal(n)),
        digits_value(decimal(n)) == n,
    decreases n,
{
    lemma_digit_char((n % 10) as int);
    if n < 10 {
        let d = decimal(n);
        assert(d.drop_last() =~= Seq::<char>::empty());
        assert(n % 10 == n);
        assert(d.last() as int == 48 + n);
        assert(digits_value(d.drop_last()) == 0);
        assert(digits_value(d) == n);
    } else {
        lemma_decimal_digits(n / 10);
        let d = decimal(n);
        assert(d.drop_last() =~= decimal(n / 10));
        assert(d.last() == digit_char((n % 10) as int));
        assert(digits_value(d.drop_last()) == n / 10);
        assert(d.last() as int - 48 == n % 10);
        assert(digits_value(d) == (n / 10) * 10 + n % 10);
        assert forall|i: int| 0 <= i < d.len() implies #[trigger] is_digit(d[i]) by {
            if i < d.len() - 1 {
                assert(d[i] == decimal(n / 10)[i]);
            }
        }
    }
}

/// A text whose first and last characters are not whitespace is its own trim.
pub proof fn lemma_trim_unchanged(s: Seq<char>)
    requires
        s.len() > 0,
        !is_whitespace(s[0]),
        !is_whitespace(s.last()),
    ensures
        trim(s) == s,
{
    assert(trim_start(s) == s);
    assert(trim_end(s) == s);
}

/// Whether `sep` does not occur in `s`.
pub open spec fn lacks(s: Seq<char>, sep: char) -> bool {
    forall|i: int| 0 <= i < s.len() ==> s[i] != sep
}

/// A text without the separator is a single piece.
pub proof fn lemma_split_single(t: Seq<char>, sep: char)
    requires
        lacks(t, sep),
    ensures
        split(t, sep) == seq![t],
    decreases t.len(),
{
    if t.len() > 0 {
        assert(t[t.len() - 1] != sep);
        lemma_split_single(t.drop_last(), sep);
        assert(t.drop_last().push(t.last()) =~= t);
        let p = split(t.drop_last(), sep);
        assert(p == seq![t.drop_last()]);
        assert(split(t, sep) == p.update(p.len() - 1, p.last().push(t.last())));
        assert(p.last() == t.drop_last());
        assert(p.update(0, t) =~= seq![t]);
    } else {
        assert(t =~= Seq::<char>::empty());
    }
}

/// Splitting `a`, a separator and `b` without separators gives the pieces
/// of `a` and then `b`.
pub proof fn lemma_split_append(a: Seq<char>, b: Seq<char>, sep: char)
    requires
        lacks(b, sep),
    ensures
        split(a + seq![sep] + b, sep) == split(a, sep).push(b),
    decreases b.len(),
{
    let s = a + seq![sep] + b;
    if b.len() == 0 {
        assert(b =~= Seq::<char>::empty());
        assert(s.drop_last() =~= a);
        assert(split(s, sep) =~= split(a, sep).push(b));
    } else {
        let b0 = b.drop_last();
        assert(b[b.len() - 1] != sep);
        lemma_split_append(a, b0, sep);
        assert(s.drop_last() =~= a + seq![sep] + b0);
        assert(s.last() == b.last());
        assert(b0.push(b.last()) =~= b);
        let p = split(s.drop_last(), sep);
        assert(p == split(a, sep).push(b0));
        assert(split(s, sep) == p.update(p.len() - 1, p.last().push(s.last())));
        assert(split(s, sep) =~= split(a, sep).push(b));
    }
}

} // verus!
