//! Character-level helpers shared by the rest of the library.
//!
//! Strings are modelled by their sequence of characters (`s@`). Everything
//! here is stated over that model so that callers can reason about message
//! texts, prefixes and numbers without looking at bytes.

use vstd::prelude::*;

verus! {

/// Appends one character to a string.
///
/// Stands for `String::push`, which adds the given character at the end and
/// leaves everything before it untouched.
#[verifier::external_body]
pub(crate) fn push_char(s: &mut String, c: char)
    ensures
        final(s)@ == old(s)@.push(c),
{
    s.push(c);
}

/// The characters of a string, in order.
pub fn chars_of(s: &str) -> (out: Vec<char>)
    ensures
        out@ == s@,
{
    let mut out: Vec<char> = Vec::new();
    for c in it: s.chars()
        invariant
            out@ == it.seq().take(it.index() as int),
            it.seq() == s@,
    {
        out.push(c);
    }
    out
}

/// The string made of `chars[from..to]`.
pub fn string_of(chars: &Vec<char>, from: usize, to: usize) -> (out: String)
    requires
        from <= to <= chars.len(),
    ensures
        out@ == chars@.subrange(from as int, to as int),
{
    let mut out = String::new();
    let mut i: usize = from;
    while i < to
        invariant
            from <= i <= to <= chars.len(),
            out@ == chars@.subrange(from as int, i as int),
        decreases to - i,
    {
        push_char(&mut out, chars[i]);
        i += 1;
        assert(chars@.subrange(from as int, i as int) == chars@.subrange(
            from as int,
            i as int - 1,
        ).push(chars@[i as int - 1]));
    }
    out
}

/// `a` followed by `b`.
pub fn glue(a: &str, b: &str) -> (out: String)
    ensures
        out@ == a@ + b@,
{
    let mut out = String::from_str(a);
    out.append(b);
    out
}

/// The characters of each string.
pub open spec fn texts_of(strings: Seq<String>) -> Seq<Seq<char>> {
    Seq::new(strings.len(), |i: int| strings[i]@)
}

/// Whether `text` holds `prefix` starting at position `at`.
pub open spec fn has_prefix_at(text: Seq<char>, at: int, prefix: Seq<char>) -> bool {
    &&& 0 <= at
    &&& at + prefix.len() <= text.len()
    &&& text.subrange(at, at + prefix.len()) == prefix
}

/// Whether `text` begins with `prefix`.
pub open spec fn has_prefix(text: Seq<char>, prefix: Seq<char>) -> bool {
    has_prefix_at(text, 0, prefix)
}

/// Tests whether `text[at..]` begins with `prefix`.
pub fn starts_with_at(text: &Vec<char>, at: usize, prefix: &Vec<char>) -> (found: bool)
    ensures
        found == has_prefix_at(text@, at as int, prefix@),
{
    if at > text.len() || prefix.len() > text.len() - at {
        return false;
    }
    let mut i: usize = 0;
    while i < prefix.len()
        invariant
            at + prefix.len() <= text.len(),
            i <= prefix.len(),
            forall|k: int| 0 <= k < i ==> text@[at + k] == prefix@[k],
        decreases prefix.len() - i,
    {
        if text[at + i] != prefix[i] {
            assert(text@.subrange(at as int, at + prefix.len())[i as int] != prefix@[i as int]);
            return false;
        }
        i += 1;
    }
    assert(text@.subrange(at as int, at + prefix.len()) =~= prefix@);
    true
}

/// Whether two character sequences are the same, element by element.
pub fn same_chars(a: &Vec<char>, b: &Vec<char>) -> (same: bool)
    ensures
        same == (a@ == b@),
{
    if a.len() != b.len() {
        return false;
    }
    let found = starts_with_at(a, 0, b);
    assert(a@.subrange(0, a@.len() as int) == a@);
    found
}

/// The character for a decimal digit.
pub open spec fn digit_char(d: nat) -> char
    recommends
        d < 10,
{
    ((48 + d) as u8) as char
}

/// The decimal notation of `n`, without sign or leading zeros.
pub open spec fn decimal(n: nat) -> Seq<char>
    decreases n,
{
    if n < 10 {
        seq![digit_char(n)]
    } else {
        decimal(n / 10).push(digit_char(n % 10))
    }
}

fn digit(d: u8) -> (c: char)
    requires
        d < 10,
    ensures
        c == digit_char(d as nat),
{
    (48u8 + d) as char
}

/// Writes `n` in decimal.
pub fn decimal_string(n: u64) -> (out: String)
    ensures
        out@ == decimal(n as nat),
    decreases n,
{
    if n < 10 {
        let mut out = String::new();
        push_char(&mut out, digit(n as u8));
        assert(out@ =~= seq![digit_char(n as nat)]);
        out
    } else {
        let mut out = decimal_string(n / 10);
        push_char(&mut out, digit((n % 10) as u8));
        out
    }
}

/// Whether `c` is a decimal digit.
pub open spec fn is_digit(c: char) -> bool {
    '0' <= c <= '9'
}

/// The number a sequence of decimal digits denotes.
pub open spec fn digits_value(digits: Seq<char>) -> nat
    decreases digits.len(),
{
    if digits.len() == 0 {
        0
    } else {
        digits_value(digits.drop_last()) * 10 + (digits.last() as nat - 48) as nat
    }
}

/// Whether every character of `digits` is a decimal digit.
pub open spec fn all_digits(digits: Seq<char>) -> bool {
    forall|i: int| 0 <= i < digits.len() ==> is_digit(#[trigger] digits[i])
}

/// What an unsigned 64-bit number in textual form denotes: an optional `+`,
/// then one or more decimal digits whose value fits. Anything else denotes
/// nothing.
pub open spec fn parsed_u64(text: Seq<char>) -> Option<u64> {
    let digits = if text.len() > 0 && text[0] == '+' {
        text.drop_first()
    } else {
        text
    };
    if digits.len() > 0 && all_digits(digits) && digits_value(digits) <= u64::MAX {
        Some(digits_value(digits) as u64)
    } else {
        None
    }
}

/// Longer digit strings never denote less than their prefixes.
proof fn lemma_digits_value_monotone(digits: Seq<char>, shorter: int)
    requires
        0 <= shorter <= digits.len(),
    ensures
        digits_value(digits.take(shorter)) <= digits_value(digits),
    decreases digits.len(),
{
    if shorter == digits.len() {
        assert(digits.take(shorter) =~= digits);
    } else {
        lemma_digits_value_monotone(digits.drop_last(), shorter);
        assert(digits.drop_last().take(shorter) =~= digits.take(shorter));
    }
}

/// Reads the number written in `text[from..]`.
pub fn parse_u64(text: &Vec<char>, from: usize) -> (out: Option<u64>)
    requires
        from <= text.len(),
    ensures
        out == parsed_u64(text@.subrange(from as int, text.len() as int)),
{
    let ghost whole = text@.subrange(from as int, text.len() as int);
    let mut start: usize = from;
    if start < text.len() && text[start] == '+' {
        start += 1;
    }
    let ghost digits = text@.subrange(start as int, text.len() as int);
    assert(digits == if whole.len() > 0 && whole[0] == '+' {
        whole.drop_first()
    } else {
        whole
    }) by {
        if whole.len() > 0 && whole[0] == '+' {
            assert(whole.drop_first() =~= digits);
        }
    }
    if start == text.len() {
        return None;
    }
    let mut value: u64 = 0;
    let mut i: usize = start;
    while i < text.len()
        invariant
            from <= start <= i <= text.len(),
            start < text.len(),
            whole == text@.subrange(from as int, text.len() as int),
            digits == text@.subrange(start as int, text.len() as int),
            digits == if whole.len() > 0 && whole[0] == '+' {
                whole.drop_first()
            } else {
                whole
            },
            all_digits(digits.take(i - start)),
            value == digits_value(digits.take(i - start)),
        decreases text.len() - i,
    {
        let c = text[i];
        let ghost upto = digits.take(i - start + 1);
        assert(upto.drop_last() =~= digits.take(i - start));
        assert(upto.last() == c);
        if c < '0' || c > '9' {
            assert(!is_digit(digits[i - start]));
            return None;
        }
        let d: u64 = (c as u32 - 48) as u64;
        let next = match value.checked_mul(10) {
            Some(v) => v.checked_add(d),
            None => None,
        };
        match next {
            Some(v) => {
                value = v;
            },
            None => {
                proof {
                    assert(digits_value(upto) > u64::MAX);
                    lemma_digits_value_monotone(digits, i - start + 1);
                }
                return None;
            },
        }
        i += 1;
        assert forall|k: int| 0 <= k < upto.len() implies is_digit(#[trigger] upto[k]) by {
            if k < upto.len() - 1 {
                assert(upto[k] == digits.take(i - start - 1)[k]);
            }
        }
    }
    assert(digits.take(i - start) =~= digits);
    Some(value)
}

/// Whether `c` is white space in the sense of Unicode's `White_Space`
/// property.
pub open spec fn is_space(c: char) -> bool {
    let u = c as u32;
    ||| 0x09 <= u <= 0x0D
    ||| u == 0x20
    ||| u == 0x85
    ||| u == 0xA0
    ||| u == 0x1680
    ||| 0x2000 <= u <= 0x200A
    ||| u == 0x2028
    ||| u == 0x2029
    ||| u == 0x202F
    ||| u == 0x205F
    ||| u == 0x3000
}

/// Tests whether `c` is white space.
pub fn is_whitespace(c: char) -> (space: bool)
    ensures
        space == is_space(c),
{
    let u: u32 = c as u32;
    (0x09 <= u && u <= 0x0D) || u == 0x20 || u == 0x85 || u == 0xA0 || u == 0x1680 || (0x2000 <= u
        && u <= 0x200A) || u == 0x2028 || u == 0x2029 || u == 0x202F || u == 0x205F || u == 0x3000
}

/// Position of the first character at or after `from` that is not white
/// space, or the length when there is none.
pub open spec fn skip_spaces(text: Seq<char>, from: int) -> int
    decreases text.len() - from,
{
    if 0 <= from < text.len() && is_space(text[from]) {
        skip_spaces(text, from + 1)
    } else {
        from
    }
}

/// The end of the text once trailing white space after position `low` is
/// cut off: the smallest `end >= low` with only white space in
/// `text[end..high]`.
pub open spec fn drop_spaces(text: Seq<char>, low: int, high: int) -> int
    decreases high - low,
{
    if low < high <= text.len() && is_space(text[high - 1]) {
        drop_spaces(text, low, high - 1)
    } else {
        high
    }
}

/// Where the trimmed text starts.
pub open spec fn trim_start_at(text: Seq<char>) -> int {
    skip_spaces(text, 0)
}

/// Where the trimmed text ends.
pub open spec fn trim_end_at(text: Seq<char>) -> int {
    drop_spaces(text, trim_start_at(text), text.len() as int)
}

/// `text` without leading and trailing white space.
pub open spec fn trimmed(text: Seq<char>) -> Seq<char> {
    text.subrange(trim_start_at(text), trim_end_at(text))
}

/// Finds the bounds of `text` without its leading and trailing white space.
pub fn trim_bounds(text: &Vec<char>) -> (bounds: (usize, usize))
    ensures
        bounds.0 == trim_start_at(text@),
        bounds.1 == trim_end_at(text@),
        bounds.0 <= bounds.1 <= text.len(),
{
    let mut start: usize = 0;
    while start < text.len() && is_whitespace(text[start])
        invariant
            start <= text.len(),
            skip_spaces(text@, start as int) == skip_spaces(text@, 0),
        decreases text.len() - start,
    {
        start += 1;
    }
    let mut end: usize = text.len();
    while end > start && is_whitespace(text[end - 1])
        invariant
            start <= end <= text.len(),
            drop_spaces(text@, start as int, end as int) == drop_spaces(
                text@,
                start as int,
                text.len() as int,
            ),
        decreases end - start,
    {
        end -= 1;
    }
    (start, end)
}

/// Where the line that starts at `from` ends: at the next line feed, or at
/// the end of the text.
pub open spec fn line_end(text: Seq<char>, from: int) -> int
    decreases text.len() - from,
{
    if 0 <= from < text.len() && text[from] != '\n' {
        line_end(text, from + 1)
    } else {
        from
    }
}

/// The line that starts at `from`, without its line ending. A line ends in a
/// line feed, which may be preceded by a carriage return; the last line need
/// not end at all, and then keeps whatever it holds.
pub open spec fn line_at(text: Seq<char>, from: int) -> Seq<char> {
    let end = line_end(text, from);
    if end < text.len() && from < end && text[end - 1] == '\r' {
        text.subrange(from, end - 1)
    } else {
        text.subrange(from, end)
    }
}

/// The lines of the text from position `from` on.
pub open spec fn lines_from(text: Seq<char>, from: int) -> Seq<Seq<char>>
    decreases text.len() - from,
{
    if 0 <= from < text.len() {
        if from <= line_end(text, from) < text.len() {
            seq![line_at(text, from)] + lines_from(text, line_end(text, from) + 1)
        } else {
            seq![line_at(text, from)]
        }
    } else {
        Seq::empty()
    }
}

/// The lines of the text.
pub open spec fn lines_of(text: Seq<char>) -> Seq<Seq<char>> {
    lines_from(text, 0)
}

/// A line starts inside the text and ends inside it or at its end.
pub proof fn lemma_line_end_bounds(text: Seq<char>, from: int)
    requires
        0 <= from <= text.len(),
    ensures
        from <= line_end(text, from) <= text.len(),
        line_end(text, from) < text.len() ==> text[line_end(text, from)] == '\n',
    decreases text.len() - from,
{
    if from < text.len() && text[from] != '\n' {
        lemma_line_end_bounds(text, from + 1);
    }
}

/// Cuts the line that starts at `from` out of the text. Returns it with the
/// position at which it ends.
pub fn take_line(text: &Vec<char>, from: usize) -> (out: (Vec<char>, usize))
    requires
        from < text.len(),
    ensures
        out.0@ == line_at(text@, from as int),
        out.1 == line_end(text@, from as int),
        from <= out.1 <= text.len(),
{
    let mut end: usize = from;
    while end < text.len() && text[end] != '\n'
        invariant
            from <= end <= text.len(),
            line_end(text@, end as int) == line_end(text@, from as int),
        decreases text.len() - end,
    {
        end += 1;
    }
    let stop: usize = if end < text.len() && from < end && text[end - 1] == '\r' {
        end - 1
    } else {
        end
    };
    let mut line: Vec<char> = Vec::new();
    let mut i: usize = from;
    while i < stop
        invariant
            from <= i <= stop <= text.len(),
            line@ == text@.subrange(from as int, i as int),
        decreases stop - i,
    {
        line.push(text[i]);
        i += 1;
        assert(text@.subrange(from as int, i as int) == text@.subrange(
            from as int,
            i as int - 1,
        ).push(text@[i as int - 1]));
    }
    (line, end)
}

} // verus!
