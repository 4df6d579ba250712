//! Text helpers over sequences of characters: splitting, trimming, decimal
//! numbers and substring search.

use vstd::prelude::*;

verus! {

/// The characters of `s`, in order.
pub fn chars_of(s: &str) -> (r: Vec<char>)
    ensures
        r@ == s@,
{
    let mut out: Vec<char> = Vec::new();
    for c in it: s.chars()
        invariant
            it.seq() == s@,
            out@ == it.seq().take(it.index() as int),
    {
        out.push(c);
    }
    assert(out@ == s@);
    out
}

/// Whether two character slices are equal.
pub fn chars_equal(a: &[char], b: &[char]) -> (r: bool)
    ensures
        r == (a@ == b@),
{
    if a.len() != b.len() {
        return false;
    }
    let mut i: usize = 0;
    while i < a.len()
        invariant
            a@.len() == b@.len(),
            i <= a@.len(),
            forall|j: int| 0 <= j < i ==> a@[j] == b@[j],
        decreases a@.len() - i,
    {
        if a[i] != b[i] {
            return false;
        }
        i = i + 1;
    }
    assert(a@ =~= b@);
    true
}

/// Whether two strings hold the same characters.
pub fn str_equal(a: &str, b: &str) -> (r: bool)
    ensures
        r == (a@ == b@),
{
    let ca = chars_of(a);
    let cb = chars_of(b);
    chars_equal(ca.as_slice(), cb.as_slice())
}

/// `String::push`: appends one character to the end of the string.
#[verifier::external_body]
fn push_char(s: &mut String, c: char)
    ensures
        final(s)@ == old(s)@.push(c),
{
    s.push(c);
}

/// Appends the characters of `t` to `s` (as `String::push_str`).
pub fn push_str(s: &mut String, t: &str)
    ensures
        final(s)@ == old(s)@ + t@,
{
    let ghost before = s@;
    for c in it: t.chars()
        invariant
            it.seq() == t@,
            s@ == before + it.seq().take(it.index() as int),
    {
        assert(it.seq().take(it.index() + 1) =~= it.seq().take(it.index() as int).push(c));
        push_char(s, c);
    }
    assert(t@.take(t@.len() as int) =~= t@);
}

/// A string holding characters `from..to` of `cs`.
pub fn string_of(cs: &[char], from: usize, to: usize) -> (r: String)
    requires
        from <= to <= cs@.len(),
    ensures
        r@ == cs@.subrange(from as int, to as int),
{
    let mut s = String::new();
    let mut i = from;
    while i < to
        invariant
            from <= i <= to <= cs@.len(),
            s@ == cs@.subrange(from as int, i as int),
        decreases to - i,
    {
        push_char(&mut s, cs[i]);
        assert(cs@.subrange(from as int, i + 1) == cs@.subrange(from as int, i as int).push(cs@[i as int]));
        i = i + 1;
    }
    s
}

/// Whether `c` has the Unicode `White_Space` property (what
/// `char::is_whitespace` tests): tab, line feed, vertical tab, form feed,
/// carriage return, space, next line, no-break space, ogham space mark, the
/// spaces U+2000 to U+200A, line and paragraph separators, narrow no-break
/// space, medium mathematical space and ideographic space.
pub open spec fn unicode_white_space(c: char) -> bool {
    ||| '\u{9}' <= c <= '\u{d}'
    ||| c == ' '
    ||| c == '\u{85}'
    ||| c == '\u{a0}'
    ||| c == '\u{1680}'
    ||| '\u{2000}' <= c <= '\u{200a}'
    ||| c == '\u{2028}'
    ||| c == '\u{2029}'
    ||| c == '\u{202f}'
    ||| c == '\u{205f}'
    ||| c == '\u{3000}'
}

/// Whether `c` is a whitespace character.
pub fn is_whitespace(c: char) -> (r: bool)
    ensures
        r == unicode_white_space(c),
{
    ('\u{9}' <= c && c <= '\u{d}') || c == ' ' || c == '\u{85}' || c == '\u{a0}' || c == '\u{1680}'
        || ('\u{2000}' <= c && c <= '\u{200a}') || c == '\u{2028}' || c == '\u{2029}' || c
        == '\u{202f}' || c == '\u{205f}' || c == '\u{3000}'
}

/// Number of leading whitespace characters of `s`.
pub open spec fn leading_ws(s: Seq<char>) -> nat
    decreases s.len(),
{
    if s.len() > 0 && unicode_white_space(s[0]) {
        1 + leading_ws(s.drop_first())
    } else {
        0
    }
}

/// Number of trailing whitespace characters of `s`.
pub open spec fn trailing_ws(s: Seq<char>) -> nat
    decreases s.len(),
{
    if s.len() > 0 && unicode_white_space(s.last()) {
        1 + trailing_ws(s.drop_last())
    } else {
        0
    }
}

/// `s` without leading and trailing whitespace (as `str::trim`).
pub open spec fn trimmed(s: Seq<char>) -> Seq<char> {
    let t = s.skip(leading_ws(s) as int);
    t.take(t.len() - trailing_ws(t))
}

proof fn lemma_leading_ws(s: Seq<char>, k: int)
    requires
        0 <= k <= s.len(),
        forall|j: int| 0 <= j < k ==> unicode_white_space(#[trigger] s[j]),
    ensures
        leading_ws(s) == k + leading_ws(s.skip(k)),
    decreases k,
{
    if k > 0 {
        lemma_leading_ws(s.drop_first(), k - 1);
        assert(s.drop_first().skip(k - 1) =~= s.skip(k));
    } else {
        assert(s.skip(0) =~= s);
    }
}

proof fn lemma_trailing_ws(s: Seq<char>, k: int)
    requires
        0 <= k <= s.len(),
        forall|j: int| s.len() - k <= j < s.len() ==> unicode_white_space(#[trigger] s[j]),
    ensures
        trailing_ws(s) == k + trailing_ws(s.take(s.len() - k)),
    decreases k,
{
    if k > 0 {
        lemma_trailing_ws(s.drop_last(), k - 1);
        assert(s.drop_last().take(s.drop_last().len() - (k - 1)) =~= s.take(s.len() - k));
    } else {
        assert(s.take(s.len() as int) =~= s);
    }
}

/// The bounds `(start, end)` of `s` without leading and trailing whitespace.
pub fn trim_bounds(s: &[char]) -> (r: (usize, usize))
    ensures
        r.0 <= r.1 <= s@.len(),
        s@.subrange(r.0 as int, r.1 as int) == trimmed(s@),
{
    let mut start: usize = 0;
    while start < s.len() && is_whitespace(s[start])
        invariant
            start <= s@.len(),
            forall|j: int| 0 <= j < start ==> unicode_white_space(#[trigger] s@[j]),
        decreases s@.len() - start,
    {
        start = start + 1;
    }
    proof {
        lemma_leading_ws(s@, start as int);
        let t = s@.skip(start as int);
        assert(leading_ws(t) == 0);
        assert(leading_ws(s@) == start);
    }
    let mut end: usize = s.len();
    while end > start && is_whitespace(s[end - 1])
        invariant
            start <= end <= s@.len(),
            forall|j: int| end <= j < s@.len() ==> unicode_white_space(#[trigger] s@[j]),
        decreases end,
    {
        end = end - 1;
    }
    proof {
        let t = s@.skip(start as int);
        let k = s@.len() - end;
        assert forall|j: int| t.len() - k <= j < t.len() implies unicode_white_space(#[trigger] t[j]) by {
            assert(t[j] == s@[start + j]);
        }
        lemma_trailing_ws(t, k);
        let u = t.take(t.len() - k);
        assert(u =~= s@.subrange(start as int, end as int));
        if u.len() > 0 {
            assert(u.last() == s@[end - 1]);
        }
        assert(trailing_ws(u) == 0);
        assert(trimmed(s@) =~= s@.subrange(start as int, end as int));
    }
    (start, end)
}

/// Splitting `s` at every `sep`, `cur` holding the part gathered so far.
pub open spec fn split_from(s: Seq<char>, sep: char, cur: Seq<char>) -> Seq<Seq<char>>
    decreases s.len(),
{
    if s.len() == 0 {
        seq![cur]
    } else if s[0] == sep {
        seq![cur] + split_from(s.drop_first(), sep, Seq::empty())
    } else {
        split_from(s.drop_first(), sep, cur.push(s[0]))
    }
}

/// The parts of `s` between occurrences of `sep` (as `str::split`): there is
/// always one more part than there are separators.
pub open spec fn split_on(s: Seq<char>, sep: char) -> Seq<Seq<char>> {
    split_from(s, sep, Seq::empty())
}

/// Splits the characters `from..to` of `s` at every `sep`.
pub fn split_chars(s: &[char], from: usize, to: usize, sep: char) -> (r: Vec<Vec<char>>)
    requires
        from <= to <= s@.len(),
    ensures
        r@.len() == split_on(s@.subrange(from as int, to as int), sep).len(),
        forall|k: int|
            0 <= k < r@.len() ==> #[trigger] r@[k]@ == split_on(s@.subrange(from as int, to as int), sep)[k],
{
    let ghost whole = s@.subrange(from as int, to as int);
    let mut done: Vec<Vec<char>> = Vec::new();
    let ghost mut done_view: Seq<Seq<char>> = Seq::empty();
    let mut cur: Vec<char> = Vec::new();
    let mut i = from;
    assert(whole.skip(0) =~= whole);
    while i < to
        invariant
            from <= i <= to <= s@.len(),
            whole == s@.subrange(from as int, to as int),
            done@.len() == done_view.len(),
            forall|k: int| 0 <= k < done@.len() ==> #[trigger] done@[k]@ == done_view[k],
            split_on(whole, sep) == done_view + split_from(whole.skip(i - from), sep, cur@),
        decreases to - i,
    {
        let c = s[i];
        let ghost rest = whole.skip(i - from);
        assert(rest[0] == c);
        assert(rest.drop_first() =~= whole.skip(i + 1 - from));
        if c == sep {
            proof {
                assert(done_view + (seq![cur@] + split_from(rest.drop_first(), sep, Seq::empty()))
                    =~= done_view.push(cur@) + split_from(rest.drop_first(), sep, Seq::empty()));
                done_view = done_view.push(cur@);
            }
            done.push(cur);
            cur = Vec::new();
            assert(cur@ =~= Seq::<char>::empty());
        } else {
            cur.push(c);
        }
        i = i + 1;
    }
    proof {
        assert(whole.skip(i - from).len() == 0);
        assert(done_view + seq![cur@] =~= done_view.push(cur@));
        done_view = done_view.push(cur@);
    }
    done.push(cur);
    done
}

/// Whether `c` is an ASCII decimal digit.
pub open spec fn is_digit(c: char) -> bool {
    '0' <= c <= '9'
}

/// The number written by the decimal digits `s`.
pub open spec fn digits_value(s: Seq<char>) -> nat
    decreases s.len(),
{
    if s.len() == 0 {
        0
    } else {
        digits_value(s.drop_last()) * 10 + (s.last() as nat - '0' as nat) as nat
    }
}

/// What `str::parse` makes of `s` for an unsigned integer type: an optional
/// `+` followed by at least one decimal digit and nothing else.
pub open spec fn unsigned_decimal(s: Seq<char>) -> Option<nat> {
    if decimal_body(s).len() > 0 && all_digits(decimal_body(s)) {
        Some(digits_value(decimal_body(s)))
    } else {
        None
    }
}

/// `s` without one leading `+`.
pub open spec fn decimal_body(s: Seq<char>) -> Seq<char> {
    if s.len() > 0 && s[0] == '+' {
        s.drop_first()
    } else {
        s
    }
}

/// Whether every character of `s` is a decimal digit.
pub open spec fn all_digits(s: Seq<char>) -> bool {
    forall|i: int| 0 <= i < s.len() ==> #[trigger] is_digit(s[i])
}

/// What `str::parse` makes of `s` for a signed integer type: an optional
/// `+` or `-` followed by at least one decimal digit and nothing else.
pub open spec fn signed_decimal(s: Seq<char>) -> Option<int> {
    if s.len() > 0 && s[0] == '-' {
        match unsigned_decimal(s.drop_first()) {
            Some(v) => if s.len() > 1 && s[1] != '+' {
                Some(-v)
            } else {
                None
            },
            None => None,
        }
    } else {
        match unsigned_decimal(s) {
            Some(v) => Some(v as int),
            None => None,
        }
    }
}

proof fn lemma_digits_value_monotone(s: Seq<char>, k: int)
    requires
        0 <= k <= s.len(),
        forall|i: int| 0 <= i < s.len() ==> #[trigger] is_digit(s[i]),
    ensures
        digits_value(s.take(k)) <= digits_value(s),
    decreases s.len() - k,
{
    if k < s.len() {
        lemma_digits_value_monotone(s, k + 1);
        assert(s.take(k + 1).drop_last() =~= s.take(k));
    } else {
        assert(s.take(k) =~= s);
    }
}

/// Parses the characters `from..to` of `s` as an unsigned decimal number at
/// most `max`, as `str::parse` does for an unsigned integer type whose largest
/// value is `max`.
pub fn parse_unsigned(s: &[char], from: usize, to: usize, max: u64) -> (r: Option<u64>)
    requires
        from <= to <= s@.len(),
    ensures
        r == match unsigned_decimal(s@.subrange(from as int, to as int)) {
            Some(v) => if v <= max {
                Some(v as u64)
            } else {
                None::<u64>
            },
            None => None::<u64>,
        },
{
    let ghost whole = s@.subrange(from as int, to as int);
    let mut start = from;
    if start < to && s[start] == '+' {
        start = start + 1;
    }
    let ghost body = s@.subrange(start as int, to as int);
    assert(body =~= decimal_body(whole));
    if start == to {
        return None;
    }
    let mut i = start;
    while i < to
        invariant
            start <= i <= to <= s@.len(),
            body == s@.subrange(start as int, to as int),
            whole == s@.subrange(from as int, to as int),
            body == decimal_body(whole),
            body.len() > 0,
            forall|j: int| 0 <= j < i - start ==> #[trigger] is_digit(body[j]),
        decreases to - i,
    {
        assert(body[i - start] == s@[i as int]);
        if !('0' <= s[i] && s[i] <= '9') {
            assert(!is_digit(body[i - start]));
            assert(!all_digits(body));
            return None;
        }
        i = i + 1;
    }
    let mut value: u64 = 0;
    let mut k = start;
    while k < to
        invariant
            start <= k <= to <= s@.len(),
            body == s@.subrange(start as int, to as int),
            whole == s@.subrange(from as int, to as int),
            body == decimal_body(whole),
            body.len() > 0,
            forall|j: int| 0 <= j < body.len() ==> #[trigger] is_digit(body[j]),
            value == digits_value(body.take(k - start)),
            value <= max,
        decreases to - k,
    {
        assert(body[k - start] == s@[k as int]);
        assert(is_digit(s@[k as int]));
        let d = (s[k] as u32 - '0' as u32) as u64;
        assert(body.take(k + 1 - start).drop_last() =~= body.take(k - start));
        assert(body.take(k + 1 - start).last() == s@[k as int]);
        let next = match value.checked_mul(10) {
            None => None,
            Some(v) => v.checked_add(d),
        };
        match next {
            Some(n) if n <= max => {
                value = n;
            },
            _ => {
                proof {
                    lemma_digits_value_monotone(body, k + 1 - start);
                    assert(digits_value(body.take(k + 1 - start)) == value * 10 + d);
                    assert(digits_value(body) > max);
                }
                return None;
            },
        }
        k = k + 1;
    }
    assert(body.take(body.len() as int) =~= body);
    Some(value)
}

/// Parses the characters `from..to` of `s` as a signed decimal number in
/// `min..=max`, as `str::parse` does for a signed integer type with that range.
pub fn parse_signed(s: &[char], from: usize, to: usize, min: i64, max: i64) -> (r: Option<i64>)
    requires
        from <= to <= s@.len(),
        i64::MIN < min <= 0 <= max,
    ensures
        r == match signed_decimal(s@.subrange(from as int, to as int)) {
            Some(v) => if min <= v <= max {
                Some(v as i64)
            } else {
                None::<i64>
            },
            None => None::<i64>,
        },
{
    let ghost whole = s@.subrange(from as int, to as int);
    if from < to && s[from] == '-' {
        assert(whole.drop_first() =~= s@.subrange(from + 1, to as int));
        if to - from >= 2 && s[from + 1] == '+' {
            return None;
        }
        let bound: u64 = (0 - min) as u64;
        match parse_unsigned(s, from + 1, to, bound) {
            Some(v) => Some(0 - (v as i64)),
            None => None,
        }
    } else {
        match parse_unsigned(s, from, to, max as u64) {
            Some(v) => Some(v as i64),
            None => None,
        }
    }
}

/// Whether `needle` occurs in `hay` starting at `i`.
pub open spec fn occurs_at(hay: Seq<char>, needle: Seq<char>, i: int) -> bool {
    0 <= i && i + needle.len() <= hay.len() && hay.subrange(i, i + needle.len()) == needle
}

/// Whether `needle` occurs in `hay` (as `str::contains` with a string pattern).
pub open spec fn contains_seq(hay: Seq<char>, needle: Seq<char>) -> bool {
    exists|i: int| #[trigger] occurs_at(hay, needle, i)
}

fn matches_at(hay: &[char], needle: &[char], i: usize) -> (r: bool)
    requires
        i + needle@.len() <= hay@.len(),
    ensures
        r == occurs_at(hay@, needle@, i as int),
{
    let hay_len = hay.len();
    let mut k: usize = 0;
    while k < needle.len()
        invariant
            hay_len == hay@.len(),
            i + needle@.len() <= hay@.len(),
            k <= needle@.len(),
            forall|j: int| 0 <= j < k ==> hay@[i + j] == needle@[j],
        decreases needle@.len() - k,
    {
        if hay[i + k] != needle[k] {
            assert(hay@.subrange(i as int, i + needle@.len())[k as int] != needle@[k as int]);
            return false;
        }
        k = k + 1;
    }
    assert(hay@.subrange(i as int, i + needle@.len()) =~= needle@);
    true
}

/// Whether `needle` occurs in `hay`.
pub fn contains_chars(hay: &[char], needle: &[char]) -> (r: bool)
    ensures
        r == contains_seq(hay@, needle@),
{
    if needle.len() > hay.len() {
        assert forall|i: int| !#[trigger] occurs_at(hay@, needle@, i) by {}
        return false;
    }
    let last = hay.len() - needle.len();
    let mut i: usize = 0;
    while i < last
        invariant
            needle@.len() <= hay@.len(),
            last == hay@.len() - needle@.len(),
            i <= last,
            forall|j: int| 0 <= j < i ==> !#[trigger] occurs_at(hay@, needle@, j),
        decreases last - i,
    {
        if matches_at(hay, needle, i) {
            return true;
        }
        i = i + 1;
    }
    if matches_at(hay, needle, last) {
        return true;
    }
    assert forall|j: int| !#[trigger] occurs_at(hay@, needle@, j) by {
        if 0 <= j < i {
        }
    }
    false
}

/// The decimal digit character for `d`.
pub open spec fn digit_char(d: nat) -> char {
    ('0' as nat + d) as char
}

/// The decimal representation of `n`, without leading zeros ("0" for 0).
pub open spec fn decimal_string(n: nat) -> Seq<char>
    decreases n,
{
    if n < 10 {
        seq![digit_char(n)]
    } else {
        decimal_string(n / 10).push(digit_char(n % 10))
    }
}

/// The decimal representation of `n` padded with leading zeros to at least
/// `width` characters (as `format!("{:0width$}", n)`).
pub open spec fn padded_decimal(n: nat, width: nat) -> Seq<char> {
    let d = decimal_string(n);
    if d.len() >= width {
        d
    } else {
        Seq::new((width - d.len()) as nat, |i: int| '0') + d
    }
}

fn digit_to_char(d: u64) -> (c: char)
    requires
        d < 10,
    ensures
        c == digit_char(d as nat),
{
    match d {
        0 => '0',
        1 => '1',
        2 => '2',
        3 => '3',
        4 => '4',
        5 => '5',
        6 => '6',
        7 => '7',
        8 => '8',
        _ => '9',
    }
}

/// Appends the decimal representation of `n`, zero-padded to `width`.
pub fn push_decimal(s: &mut String, n: u64, width: usize)
    ensures
        final(s)@ == old(s)@ + padded_decimal(n as nat, width as nat),
{
    // Digits, least significant first.
    let mut digits: Vec<char> = Vec::new();
    let mut m = n;
    let ghost mut rev: Seq<char> = Seq::empty();
    loop
        invariant_except_break
            decimal_string(n as nat) == decimal_string(m as nat) + rev,
        invariant
            digits@.len() == rev.len(),
            forall|i: int| 0 <= i < rev.len() ==> #[trigger] digits@[i] == rev[rev.len() - 1 - i],
            m <= n,
        ensures
            rev == decimal_string(n as nat),
        decreases m,
    {
        let c = digit_to_char(m % 10);
        proof {
            assert(decimal_string(m as nat) == if m < 10 {
                seq![digit_char(m as nat)]
            } else {
                decimal_string((m / 10) as nat).push(digit_char((m % 10) as nat))
            });
        }
        assert(c == digit_char((m % 10) as nat));
        if m < 10 {
            proof {
                assert(decimal_string(n as nat) =~= seq![c] + rev);
                rev = seq![c] + rev;
            }
            digits.push(c);
            break;
        }
        proof {
            assert(decimal_string(n as nat) =~= decimal_string((m / 10) as nat) + (seq![c] + rev));
            rev = seq![c] + rev;
        }
        digits.push(c);
        m = m / 10;
    }
    assert(rev == decimal_string(n as nat));
    let ghost before = s@;
    let total_pad: usize = if digits.len() < width { width - digits.len() } else { 0 };
    let mut done: usize = 0;
    assert(s@ =~= before + Seq::new(0, |i: int| '0'));
    while done < total_pad
        invariant
            done <= total_pad,
            s@ == before + Seq::new(done as nat, |i: int| '0'),
        decreases total_pad - done,
    {
        push_char(s, '0');
        assert(s@ =~= before + Seq::new((done + 1) as nat, |i: int| '0'));
        done = done + 1;
    }
    let ghost padded = s@;
    let mut k = digits.len();
    while k > 0
        invariant
            k <= digits@.len(),
            digits@.len() == rev.len(),
            forall|i: int| 0 <= i < rev.len() ==> #[trigger] digits@[i] == rev[rev.len() - 1 - i],
            s@ == padded + rev.take(rev.len() - k),
        decreases k,
    {
        push_char(s, digits[k - 1]);
        assert(rev.take(rev.len() - (k - 1)) =~= rev.take(rev.len() - k).push(rev[rev.len() - k]));
        k = k - 1;
    }
    assert(rev.take(rev.len() as int) =~= rev);
    assert(s@ =~= before + padded_decimal(n as nat, width as nat));
}

} // verus!
