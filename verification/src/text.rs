//! Text helpers. Every function states its result over the `Seq<char>` view
//! of its arguments.

use vstd::prelude::*;

verus! {

/// `String::push` appends one character.
pub assume_specification[ String::push ](s: &mut String, c: char)
    ensures
        final(s)@ == old(s)@.push(c),
;

/// The text of `s` in lower case, as the Unicode property Lowercase
/// defines it.
pub uninterp spec fn lowercase_text(s: Seq<char>) -> Seq<char>;

/// `str::to_lowercase` returns the lower-case equivalent of the text, which
/// depends on the text alone.
pub assume_specification[ str::to_lowercase ](s: &str) -> (lower: String)
    ensures
        lower@ == lowercase_text(s@),
;

/// The characters of `s`, in order.
pub fn chars_of(s: &str) -> (v: Vec<char>)
    ensures
        v@ == s@,
{
    let mut v: Vec<char> = Vec::new();
    for c in it: s.chars()
        invariant
            it.seq() == s@,
            v@ == s@.take(it.index() as int),
    {
        v.push(c);
        assert(s@.take(it.index() + 1) == s@.take(it.index() as int).push(s@[it.index() as int]));
    }
    assert(s@.take(s@.len() as int) == s@);
    v
}

/// The text made of the characters `v[from..to]`, in order.
pub fn text_of_range(v: &Vec<char>, from: usize, to: usize) -> (s: String)
    requires
        from <= to <= v.len(),
    ensures
        s@ == v@.subrange(from as int, to as int),
{
    let mut s = String::new();
    let mut i: usize = from;
    while i < to
        invariant
            from <= i <= to <= v.len(),
            s@ == v@.subrange(from as int, i as int),
        decreases to - i,
    {
        s.push(v[i]);
        i += 1;
        assert(v@.subrange(from as int, i as int) == v@.subrange(from as int, i - 1).push(
            v@[i - 1],
        ));
    }
    s
}

/// A copy of `v[from..to]`.
pub fn slice_of(v: &Vec<char>, from: usize, to: usize) -> (r: Vec<char>)
    requires
        from <= to <= v.len(),
    ensures
        r@ == v@.subrange(from as int, to as int),
{
    let mut r: Vec<char> = Vec::new();
    push_range(&mut r, v, from, to);
    r
}

/// The text made of the characters of `v`, in order.
pub fn text_of(v: &Vec<char>) -> (s: String)
    ensures
        s@ == v@,
{
    let s = text_of_range(v, 0, v.len());
    assert(v@.subrange(0, v.len() as int) == v@);
    s
}

/// Appends the characters of `s` to `out`.
pub fn push_text(out: &mut Vec<char>, s: &str)
    ensures
        final(out)@ == old(out)@ + s@,
{
    for c in it: s.chars()
        invariant
            it.seq() == s@,
            out@ == old(out)@ + s@.take(it.index() as int),
    {
        out.push(c);
        assert(s@.take(it.index() + 1) == s@.take(it.index() as int).push(s@[it.index() as int]));
    }
    assert(s@.take(s@.len() as int) == s@);
}

/// Appends `v[from..to]` to `out`.
pub fn push_range(out: &mut Vec<char>, v: &Vec<char>, from: usize, to: usize)
    requires
        from <= to <= v.len(),
    ensures
        final(out)@ == old(out)@ + v@.subrange(from as int, to as int),
{
    let mut i: usize = from;
    while i < to
        invariant
            from <= i <= to <= v.len(),
            out@ == old(out)@ + v@.subrange(from as int, i as int),
        decreases to - i,
    {
        out.push(v[i]);
        i += 1;
        assert(v@.subrange(from as int, i as int) == v@.subrange(from as int, i - 1).push(
            v@[i - 1],
        ));
    }
}

/// The decimal digit for `d` in `0..=9`.
pub open spec fn digit_char(d: int) -> char {
    if d == 0 {
        '0'
    } else if d == 1 {
        '1'
    } else if d == 2 {
        '2'
    } else if d == 3 {
        '3'
    } else if d == 4 {
        '4'
    } else if d == 5 {
        '5'
    } else if d == 6 {
        '6'
    } else if d == 7 {
        '7'
    } else if d == 8 {
        '8'
    } else {
        '9'
    }
}

/// The decimal digits of `n`, most significant first, without leading zeros.
pub open spec fn decimal_digits(n: nat) -> Seq<char>
    decreases n,
{
    if n < 10 {
        seq![digit_char(n as int)]
    } else {
        decimal_digits(n / 10).push(digit_char((n % 10) as int))
    }
}

/// The decimal text of `n`, with a leading `-` when negative.
pub open spec fn decimal(n: int) -> Seq<char> {
    if n < 0 {
        seq!['-'] + decimal_digits((-n) as nat)
    } else {
        decimal_digits(n as nat)
    }
}

fn digit(d: u64) -> (c: char)
    requires
        d < 10,
    ensures
        c == digit_char(d as int),
{
    if d == 0 {
        '0'
    } else if d == 1 {
        '1'
    } else if d == 2 {
        '2'
    } else if d == 3 {
        '3'
    } else if d == 4 {
        '4'
    } else if d == 5 {
        '5'
    } else if d == 6 {
        '6'
    } else if d == 7 {
        '7'
    } else if d == 8 {
        '8'
    } else {
        '9'
    }
}

/// Appends the decimal digits of `n` to `out`.
pub fn push_unsigned(out: &mut Vec<char>, n: u64)
    ensures
        final(out)@ == old(out)@ + decimal(n as int),
    decreases n,
{
    if n >= 10 {
        push_unsigned(out, n / 10);
    }
    out.push(digit(n % 10));
    assert(out@ == old(out)@ + decimal_digits(n as nat));
}

/// Appends the decimal text of `n` to `out`.
pub fn push_signed(out: &mut Vec<char>, n: i64)
    ensures
        final(out)@ == old(out)@ + decimal(n as int),
{
    if n < 0 {
        out.push('-');
        let magnitude: u64 = if n == i64::MIN {
            0x8000_0000_0000_0000
        } else {
            (-n) as u64
        };
        push_unsigned(out, magnitude);
        assert(out@ == old(out)@ + (seq!['-'] + decimal_digits((-n) as nat)));
    } else {
        push_unsigned(out, n as u64);
    }
}

/// `s` with every occurrence of `from` replaced by the text `to`.
pub open spec fn replace_char(s: Seq<char>, from: char, to: Seq<char>) -> Seq<char>
    decreases s.len(),
{
    if s.len() == 0 {
        Seq::empty()
    } else {
        replace_char(s.drop_last(), from, to) + (if s.last() == from {
            to
        } else {
            seq![s.last()]
        })
    }
}

/// Appends `v` to `out` with every `from` replaced by `to`.
pub fn push_replaced(out: &mut Vec<char>, v: &Vec<char>, from: char, to: &str)
    ensures
        final(out)@ == old(out)@ + replace_char(v@, from, to@),
{
    let mut i: usize = 0;
    assert(v@.take(0) == Seq::<char>::empty());
    while i < v.len()
        invariant
            i <= v.len(),
            out@ == old(out)@ + replace_char(v@.take(i as int), from, to@),
        decreases v.len() - i,
    {
        let ghost before = out@;
        if v[i] == from {
            push_text(out, to);
        } else {
            out.push(v[i]);
        }
        i += 1;
        proof {
            let prefix = v@.take(i as int);
            assert(prefix.drop_last() == v@.take(i - 1));
            assert(prefix.last() == v@[i - 1]);
            assert(out@ == old(out)@ + replace_char(prefix, from, to@));
        }
    }
    assert(v@.take(v.len() as int) == v@);
}

/// The longest suffix of `s` that does not hold `sep`: what follows the
/// last `sep`, or all of `s` where there is none.
pub open spec fn last_segment(s: Seq<char>, sep: char) -> Seq<char>
    decreases s.len(),
{
    if s.len() == 0 || s.last() == sep {
        Seq::empty()
    } else {
        last_segment(s.drop_last(), sep).push(s.last())
    }
}

/// The longest prefix of `s` that does not hold `sep`: what precedes the
/// first `sep`, or all of `s` where there is none.
pub open spec fn first_segment(s: Seq<char>, sep: char) -> Seq<char>
    decreases s.len(),
{
    if s.len() == 0 || s[0] == sep {
        Seq::empty()
    } else {
        seq![s[0]] + first_segment(s.drop_first(), sep)
    }
}

/// A suffix free of `sep` that starts at the front or right after a `sep`
/// is the last segment.
pub proof fn lemma_last_segment_from(s: Seq<char>, sep: char, start: int)
    requires
        0 <= start <= s.len(),
        start == 0 || s[start - 1] == sep,
        forall|j: int| start <= j < s.len() ==> s[j] != sep,
    ensures
        last_segment(s, sep) == s.subrange(start, s.len() as int),
    decreases s.len() - start,
{
    if start == s.len() {
        assert(s.subrange(start, s.len() as int) == Seq::<char>::empty());
    } else {
        let shorter = s.drop_last();
        lemma_last_segment_from(shorter, sep, start);
        assert(s.subrange(start, s.len() as int) == shorter.subrange(
            start,
            shorter.len() as int,
        ).push(s.last()));
    }
}

/// A prefix free of `sep` that ends at the back or right before a `sep` is
/// the first segment.
pub proof fn lemma_first_segment_to(s: Seq<char>, sep: char, end: int)
    requires
        0 <= end <= s.len(),
        end == s.len() || s[end] == sep,
        forall|j: int| 0 <= j < end ==> s[j] != sep,
    ensures
        first_segment(s, sep) == s.subrange(0, end),
    decreases end,
{
    if end == 0 {
        assert(s.subrange(0, 0) == Seq::<char>::empty());
    } else {
        let shorter = s.drop_first();
        assert forall|j: int| 0 <= j < end - 1 implies shorter[j] != sep by {
            assert(shorter[j] == s[j + 1]);
        }
        lemma_first_segment_to(shorter, sep, end - 1);
        assert(s.subrange(0, end) == seq![s[0]] + shorter.subrange(0, end - 1));
    }
}

/// The start of the last segment of `v` with respect to `sep`.
pub fn last_segment_start(v: &Vec<char>, sep: char) -> (start: usize)
    ensures
        start <= v.len(),
        last_segment(v@, sep) == v@.subrange(start as int, v.len() as int),
{
    let mut start: usize = v.len();
    while start > 0 && v[start - 1] != sep
        invariant
            start <= v.len(),
            forall|j: int| start <= j < v.len() ==> v@[j] != sep,
        decreases start,
    {
        start -= 1;
    }
    proof {
        lemma_last_segment_from(v@, sep, start as int);
    }
    start
}

/// The end of the first segment of `v` with respect to `sep`.
pub fn first_segment_end(v: &Vec<char>, sep: char) -> (end: usize)
    ensures
        end <= v.len(),
        first_segment(v@, sep) == v@.subrange(0, end as int),
{
    let mut end: usize = 0;
    while end < v.len() && v[end] != sep
        invariant
            end <= v.len(),
            forall|j: int| 0 <= j < end ==> v@[j] != sep,
        decreases v.len() - end,
    {
        end += 1;
    }
    proof {
        lemma_first_segment_to(v@, sep, end as int);
    }
    end
}

/// Whether `c` has the Unicode property White_Space.
pub open spec fn is_whitespace(c: char) -> bool {
    let u = c as u32;
    ||| 0x09 <= u <= 0x0D
    ||| u == 0x20
    ||| u == 0x85
    ||| u == 0xA0
    ||| u == 0x1680
    ||| 0x2000 <= u <= 0x200A
    ||| u == 0x2028
    ||| u == 0x2029
    ||| u == 0x202F
    ||| u == 0x205F
    ||| u == 0x3000
}

/// What is stripped from the ends of a text.
#[derive(Clone, Copy)]
pub enum Strip {
    /// Characters with the property White_Space.
    Whitespace,
    /// One given character.
    Char(char),
}

impl Strip {
    /// Whether `c` is stripped.
    pub open spec fn strips(self, c: char) -> bool {
        match self {
            Strip::Whitespace => is_whitespace(c),
            Strip::Char(p) => c == p,
        }
    }

    /// Whether `c` is stripped.
    pub fn is_stripped(self, c: char) -> (r: bool)
        ensures
            r == self.strips(c),
    {
        match self {
            Strip::Whitespace => {
                let u: u32 = c as u32;
                (0x09 <= u && u <= 0x0D) || u == 0x20 || u == 0x85 || u == 0xA0 || u == 0x1680 || (
                0x2000 <= u && u <= 0x200A) || u == 0x2028 || u == 0x2029 || u == 0x202F || u
                    == 0x205F || u == 0x3000
            },
            Strip::Char(p) => c == p,
        }
    }
}

/// `s` without its leading stripped characters.
pub open spec fn strip_start(s: Seq<char>, strip: Strip) -> Seq<char>
    decreases s.len(),
{
    if s.len() > 0 && strip.strips(s[0]) {
        strip_start(s.drop_first(), strip)
    } else {
        s
    }
}

/// `s` without its trailing stripped characters.
pub open spec fn strip_end(s: Seq<char>, strip: Strip) -> Seq<char>
    decreases s.len(),
{
    if s.len() > 0 && strip.strips(s.last()) {
        strip_end(s.drop_last(), strip)
    } else {
        s
    }
}

/// `s` without its leading and trailing stripped characters.
pub open spec fn strip_both(s: Seq<char>, strip: Strip) -> Seq<char> {
    strip_end(strip_start(s, strip), strip)
}

/// `s` without leading and trailing whitespace.
pub open spec fn trimmed(s: Seq<char>) -> Seq<char> {
    strip_both(s, Strip::Whitespace)
}

/// Skipping a run of stripped characters at the front gives `strip_start`.
pub proof fn lemma_strip_start_at(s: Seq<char>, strip: Strip, from: int)
    requires
        0 <= from <= s.len(),
        forall|j: int| 0 <= j < from ==> strip.strips(s[j]),
        from == s.len() || !strip.strips(s[from]),
    ensures
        strip_start(s, strip) == s.subrange(from, s.len() as int),
    decreases from,
{
    if from == 0 {
        assert(s.subrange(0, s.len() as int) == s);
    } else {
        let rest = s.drop_first();
        assert forall|j: int| 0 <= j < from - 1 implies strip.strips(rest[j]) by {
            assert(rest[j] == s[j + 1]);
        }
        lemma_strip_start_at(rest, strip, from - 1);
        assert(rest.subrange(from - 1, rest.len() as int) == s.subrange(from, s.len() as int));
    }
}

/// Dropping a run of stripped characters at the back gives `strip_end`.
pub proof fn lemma_strip_end_at(s: Seq<char>, strip: Strip, to: int)
    requires
        0 <= to <= s.len(),
        forall|j: int| to <= j < s.len() ==> strip.strips(s[j]),
        to == 0 || !strip.strips(s[to - 1]),
    ensures
        strip_end(s, strip) == s.subrange(0, to),
    decreases s.len() - to,
{
    if to == s.len() {
        assert(s.subrange(0, s.len() as int) == s);
    } else {
        let rest = s.drop_last();
        lemma_strip_end_at(rest, strip, to);
        assert(rest.subrange(0, to) == s.subrange(0, to));
    }
}

/// The bounds `from <= to` of `v` stripped at both ends.
pub fn strip_bounds(v: &Vec<char>, strip: Strip) -> (r: (usize, usize))
    ensures
        r.0 <= r.1 <= v.len(),
        strip_both(v@, strip) == v@.subrange(r.0 as int, r.1 as int),
{
    let mut from: usize = 0;
    while from < v.len() && strip.is_stripped(v[from])
        invariant
            from <= v.len(),
            forall|j: int| 0 <= j < from ==> strip.strips(v@[j]),
        decreases v.len() - from,
    {
        from += 1;
    }
    let mut to: usize = v.len();
    while to > from && strip.is_stripped(v[to - 1])
        invariant
            from <= to <= v.len(),
            forall|j: int| to <= j < v.len() ==> strip.strips(v@[j]),
        decreases to,
    {
        to -= 1;
    }
    proof {
        lemma_strip_start_at(v@, strip, from as int);
        let middle = v@.subrange(from as int, v.len() as int);
        assert forall|j: int| to - from <= j < middle.len() implies strip.strips(middle[j]) by {
            assert(middle[j] == v@[j + from]);
        }
        if to > from {
            assert(middle[to - from - 1] == v@[to - 1]);
        }
        lemma_strip_end_at(middle, strip, to - from);
        assert(middle.subrange(0, to - from) == v@.subrange(from as int, to as int));
    }
    (from, to)
}

/// `s` stripped of `strip` at both ends.
pub fn strip_text(s: &str, strip: Strip) -> (r: String)
    ensures
        r@ == strip_both(s@, strip),
{
    let v = chars_of(s);
    let (from, to) = strip_bounds(&v, strip);
    text_of_range(&v, from, to)
}

/// `s` without leading and trailing whitespace.
pub fn trim(s: &str) -> (r: String)
    ensures
        r@ == trimmed(s@),
{
    strip_text(s, Strip::Whitespace)
}

/// `c` with an ASCII capital letter turned into its small letter.
pub open spec fn ascii_lower(c: char) -> char {
    if 0x41 <= c as u32 <= 0x5A {
        ((c as u32) + 32) as char
    } else {
        c
    }
}

/// `s` with its ASCII capital letters turned into small letters.
pub open spec fn ascii_lowercase(s: Seq<char>) -> Seq<char> {
    Seq::new(s.len(), |i: int| ascii_lower(s[i]))
}

/// Whether `a` and `b` are equal up to the case of their ASCII letters.
pub open spec fn eq_ignoring_ascii_case(a: Seq<char>, b: Seq<char>) -> bool {
    ascii_lowercase(a) == ascii_lowercase(b)
}

fn ascii_lower_code(c: char) -> (u: u32)
    ensures
        u == ascii_lower(c) as u32,
{
    let u: u32 = c as u32;
    if 0x41 <= u && u <= 0x5A {
        u + 32
    } else {
        u
    }
}

/// Whether `v[from..to]` equals `other` up to the case of ASCII letters.
pub fn range_eq_ignoring_ascii_case(v: &Vec<char>, from: usize, to: usize, other: &str) -> (r:
    bool)
    requires
        from <= to <= v.len(),
    ensures
        r == eq_ignoring_ascii_case(v@.subrange(from as int, to as int), other@),
{
    let w = chars_of(other);
    let ghost part = v@.subrange(from as int, to as int);
    if w.len() != to - from {
        assert(ascii_lowercase(part).len() != ascii_lowercase(other@).len());
        return false;
    }
    let mut i: usize = 0;
    while i < w.len()
        invariant
            from <= to <= v.len(),
            w.len() == to - from,
            i <= w.len(),
            w@ == other@,
            part == v@.subrange(from as int, to as int),
            forall|j: int| 0 <= j < i ==> ascii_lower(part[j]) == ascii_lower(w@[j]),
        decreases w.len() - i,
    {
        if ascii_lower_code(v[from + i]) != ascii_lower_code(w[i]) {
            assert(ascii_lowercase(part)[i as int] != ascii_lowercase(other@)[i as int]);
            return false;
        }
        i += 1;
    }
    assert(ascii_lowercase(part) =~= ascii_lowercase(other@));
    true
}

/// Whether `v[from..to]` equals `other`.
pub fn range_eq(v: &Vec<char>, from: usize, to: usize, other: &str) -> (r: bool)
    requires
        from <= to <= v.len(),
    ensures
        r == (v@.subrange(from as int, to as int) == other@),
{
    let w = chars_of(other);
    let ghost part = v@.subrange(from as int, to as int);
    if w.len() != to - from {
        return false;
    }
    let mut i: usize = 0;
    while i < w.len()
        invariant
            from <= to <= v.len(),
            w.len() == to - from,
            i <= w.len(),
            w@ == other@,
            part == v@.subrange(from as int, to as int),
            forall|j: int| 0 <= j < i ==> part[j] == w@[j],
        decreases w.len() - i,
    {
        if v[from + i] != w[i] {
            assert(part[i as int] != other@[i as int]);
            return false;
        }
        i += 1;
    }
    assert(part =~= other@);
    true
}

/// Whether `a` and `b` hold the same text.
pub fn text_eq(a: &str, b: &str) -> (r: bool)
    ensures
        r == (a@ == b@),
{
    let v = chars_of(a);
    assert(v@.subrange(0, v.len() as int) == v@);
    range_eq(&v, 0, v.len(), b)
}

/// Whether `c` is an ASCII decimal digit.
pub open spec fn is_digit(c: char) -> bool {
    0x30 <= c as u32 <= 0x39
}

/// The value of the decimal digit `c`.
pub open spec fn digit_value(c: char) -> int {
    c as u32 - 0x30
}

/// The number that the decimal digits `s` denote.
pub open spec fn digits_value(s: Seq<char>) -> int
    decreases s.len(),
{
    if s.len() == 0 {
        0
    } else {
        digits_value(s.drop_last()) * 10 + digit_value(s.last())
    }
}

/// Whether `s` holds decimal digits only.
pub open spec fn all_digits(s: Seq<char>) -> bool {
    forall|i: int| 0 <= i < s.len() ==> is_digit(#[trigger] s[i])
}

/// The integer that `s` denotes: an optional `+` or `-`, then one or more
/// decimal digits and nothing else.
pub open spec fn signed_decimal_value(s: Seq<char>) -> Option<int> {
    let negative = s.len() > 0 && s[0] == '-';
    let body = if s.len() > 0 && (s[0] == '-' || s[0] == '+') {
        s.drop_first()
    } else {
        s
    };
    if body.len() == 0 || !all_digits(body) {
        None
    } else if negative {
        Some(-digits_value(body))
    } else {
        Some(digits_value(body))
    }
}

/// The 32-bit integer that `s` denotes, if it denotes one.
pub open spec fn parse_i32_text(s: Seq<char>) -> Option<i32> {
    match signed_decimal_value(s) {
        Some(value) => if i32::MIN <= value <= i32::MAX {
            Some(value as i32)
        } else {
            None
        },
        None => None,
    }
}

/// Parses `v[from..to]` as a decimal 32-bit integer with an optional sign.
pub fn parse_i32_range(v: &Vec<char>, from: usize, to: usize) -> (r: Option<i32>)
    requires
        from <= to <= v.len(),
    ensures
        r == parse_i32_text(v@.subrange(from as int, to as int)),
{
    let ghost s = v@.subrange(from as int, to as int);
    if from == to {
        return None;
    }
    assert(s[0] == v@[from as int]);
    let negative: bool = v[from] == '-';
    let start: usize = if v[from] == '-' || v[from] == '+' {
        from + 1
    } else {
        from
    };
    let ghost body = v@.subrange(start as int, to as int);
    assert(body == if s[0] == '-' || s[0] == '+' {
        s.drop_first()
    } else {
        s
    });
    if start == to {
        return None;
    }
    let limit: i64 = 10_000_000_000;
    let mut acc: i64 = 0;
    let mut i: usize = start;
    assert(body.take(0) == Seq::<char>::empty());
    while i < to
        invariant
            from <= start <= i <= to <= v.len(),
            start < to,
            s == v@.subrange(from as int, to as int),
            body == v@.subrange(start as int, to as int),
            body == if s[0] == '-' || s[0] == '+' {
                s.drop_first()
            } else {
                s
            },
            negative == (s[0] == '-'),
            limit == 10_000_000_000,
            all_digits(body.take(i - start)),
            0 <= acc <= limit,
            digits_value(body.take(i - start)) >= 0,
            acc == if digits_value(body.take(i - start)) < limit {
                digits_value(body.take(i - start))
            } else {
                limit as int
            },
        decreases to - i,
    {
        let u: u32 = v[i] as u32;
        if u < 0x30 || u > 0x39 {
            assert(body[i - start] == v@[i as int]);
            assert(!is_digit(body[i - start]));
            return None;
        }
        let d: i64 = (u - 0x30) as i64;
        let next: i64 = acc * 10 + d;
        acc = if next < limit {
            next
        } else {
            limit
        };
        i += 1;
        proof {
            let prefix = body.take(i - start);
            assert(prefix.drop_last() == body.take(i - start - 1));
            assert(prefix.last() == v@[i - 1]);
            assert forall|j: int| 0 <= j < prefix.len() implies is_digit(#[trigger] prefix[j]) by {
                if j < prefix.len() - 1 {
                    assert(prefix[j] == body.take(i - start - 1)[j]);
                }
            }
        }
    }
    assert(body.take(to - start) == body);
    if negative {
        if acc > 0x8000_0000 {
            None
        } else {
            Some((-acc) as i32)
        }
    } else {
        if acc > 0x7fff_ffff {
            None
        } else {
            Some(acc as i32)
        }
    }
}

/// The texts of a list of strings.
pub open spec fn texts(items: Seq<String>) -> Seq<Seq<char>> {
    Seq::new(items.len(), |i: int| items[i]@)
}

/// Appends a copy of `s` to `items`.
pub fn push_owned(items: &mut Vec<String>, s: &str)
    ensures
        texts(final(items)@) == texts(old(items)@).push(s@),
{
    items.push(s.to_owned());
    assert(texts(items@) =~= texts(old(items)@).push(s@));
}

/// Appends `s` to `items`.
pub fn push_string(items: &mut Vec<String>, s: String)
    ensures
        texts(final(items)@) == texts(old(items)@).push(s@),
{
    items.push(s);
    assert(texts(items@) =~= texts(old(items)@).push(s@));
}

/// Whether `s` holds no `c`.
pub open spec fn free_of(s: Seq<char>, c: char) -> bool {
    forall|i: int| 0 <= i < s.len() ==> s[i] != c
}

/// The first segment is a prefix that holds no separator, and where it is
/// not all of the text, a separator follows it.
pub proof fn lemma_first_segment_bounds(s: Seq<char>, sep: char)
    ensures
        first_segment(s, sep).len() <= s.len(),
        first_segment(s, sep) == s.subrange(0, first_segment(s, sep).len() as int),
        free_of(first_segment(s, sep), sep),
        first_segment(s, sep).len() < s.len() ==> s[first_segment(s, sep).len() as int] == sep,
    decreases s.len(),
{
    if s.len() == 0 || s[0] == sep {
        assert(s.subrange(0, 0) == Seq::<char>::empty());
    } else {
        let rest = s.drop_first();
        lemma_first_segment_bounds(rest, sep);
        let tail = first_segment(rest, sep);
        assert(seq![s[0]] + tail == s.subrange(0, tail.len() as int + 1));
        if tail.len() < rest.len() {
            assert(rest[tail.len() as int] == s[tail.len() as int + 1]);
        }
    }
}

/// The lines of a text: what stands between its newlines, so that a text
/// with `n` newlines has `n + 1` lines, the last of them what follows the
/// last newline.
pub open spec fn lines(s: Seq<char>) -> Seq<Seq<char>>
    decreases s.len(),
{
    let head = first_segment(s, '\n');
    if head.len() < s.len() {
        seq![head] + lines(s.subrange(head.len() as int + 1, s.len() as int))
    } else {
        seq![head]
    }
}

/// A text without a newline, a newline and more text: the first is the
/// first line, and the lines of the rest follow.
pub proof fn lemma_lines_prepend(line: Seq<char>, rest: Seq<char>)
    requires
        free_of(line, '\n'),
    ensures
        lines(line + seq!['\n'] + rest) == seq![line] + lines(rest),
{
    let s = line + seq!['\n'] + rest;
    lemma_first_segment_to(s, '\n', line.len() as int);
    assert(s.subrange(0, line.len() as int) == line);
    assert(s.subrange(line.len() as int + 1, s.len() as int) == rest);
}

/// A text without a newline is its own single line.
pub proof fn lemma_lines_single(line: Seq<char>)
    requires
        free_of(line, '\n'),
    ensures
        lines(line) == seq![line],
{
    lemma_first_segment_to(line, '\n', line.len() as int);
    assert(line.subrange(0, line.len() as int) == line);
}

/// Behind a text that ends in a newline, the lines of what is appended
/// take the place of its empty last line.
pub proof fn lemma_lines_append(a: Seq<char>, b: Seq<char>)
    requires
        a.len() > 0,
        a.last() == '\n',
    ensures
        lines(a).len() >= 2,
        lines(a).last() == Seq::<char>::empty(),
        lines(a + b) == lines(a).drop_last() + lines(b),
    decreases a.len(),
{
    lemma_first_segment_bounds(a, '\n');
    let head = first_segment(a, '\n');
    assert(head.len() < a.len()) by {
        if head.len() == a.len() {
            assert(head[a.len() - 1] == a[a.len() - 1]);
        }
    }
    let rest = a.subrange(head.len() as int + 1, a.len() as int);
    assert(a == head + seq!['\n'] + rest);
    assert(a + b == head + seq!['\n'] + (rest + b));
    lemma_lines_prepend(head, rest);
    lemma_lines_prepend(head, rest + b);
    if rest.len() == 0 {
        assert(rest + b == b);
        lemma_lines_single(rest);
        assert((seq![head] + seq![rest]).drop_last() == seq![head]);
    } else {
        assert(rest.last() == a.last());
        lemma_lines_append(rest, b);
        assert((seq![head] + lines(rest)).drop_last() == seq![head] + lines(rest).drop_last());
        assert(seq![head] + (lines(rest).drop_last() + lines(b)) == (seq![head] + lines(
            rest,
        ).drop_last()) + lines(b));
    }
}

/// The decimal text of a number holds digits and at most a sign, and so no
/// newline.
pub proof fn lemma_decimal_free_of_newline(n: int)
    ensures
        free_of(decimal(n), '\n'),
{
    if n < 0 {
        lemma_digits_free_of_newline((-n) as nat);
    } else {
        lemma_digits_free_of_newline(n as nat);
    }
}

/// Decimal digits hold no newline.
pub proof fn lemma_digits_free_of_newline(n: nat)
    ensures
        free_of(decimal_digits(n), '\n'),
    decreases n,
{
    if n >= 10 {
        lemma_digits_free_of_newline(n / 10);
    }
}

/// Replacing a character by a text without newlines brings no newline into
/// a text that has none.
pub proof fn lemma_replace_free_of_newline(s: Seq<char>, from: char, to: Seq<char>)
    requires
        free_of(s, '\n'),
        free_of(to, '\n'),
    ensures
        free_of(replace_char(s, from, to), '\n'),
    decreases s.len(),
{
    if s.len() > 0 {
        lemma_replace_free_of_newline(s.drop_last(), from, to);
    }
}

} // verus!
