//! Text as sequences of characters.

use vstd::prelude::*;
use vstd::string::{StringExecFns, StringSliceAdditionalSpecFns};
use vstd::utf8::encode_utf8_decode_utf8;

verus! {

/// The characters of a string, one by one.
pub fn chars_of(s: &str) -> (v: Vec<char>)
    ensures
        v@ == s@,
{
    let mut v: Vec<char> = Vec::new();
    for c in it: s.chars()
        invariant
            v@ == it.seq().take(it.index() as int),
            it.seq() == s@,
    {
        v.push(c);
    }
    v
}

/// The text of a string, if there is one.
pub open spec fn string_text(s: Option<String>) -> Option<Seq<char>> {
    match s {
        Some(s) => Some(s@),
        None => None,
    }
}

/// The text of a string slice, if there is one.
pub open spec fn str_text(s: Option<&str>) -> Option<Seq<char>> {
    match s {
        Some(s) => Some(s@),
        None => None,
    }
}

/// The pieces of a list written one after the other with `sep` between
/// each two.
pub open spec fn joined(parts: Seq<Seq<char>>, sep: Seq<char>) -> Seq<char>
    decreases parts.len(),
{
    if parts.len() == 0 {
        Seq::empty()
    } else if parts.len() == 1 {
        parts[0]
    } else {
        joined(parts.drop_last(), sep) + sep + parts.last()
    }
}

/// The text of each string of a list.
pub open spec fn texts(parts: Seq<String>) -> Seq<Seq<char>> {
    parts.map_values(|s: String| s@)
}

/// Writes the strings of a list one after the other with `sep` between
/// each two.
pub fn join(parts: &Vec<String>, sep: &str) -> (out: String)
    ensures
        out@ == joined(texts(parts@), sep@),
{
    let mut out = String::new();
    let mut i: usize = 0;
    assert(texts(parts@).take(0) =~= Seq::<Seq<char>>::empty());
    while i < parts.len()
        invariant
            i <= parts@.len(),
            out@ == joined(texts(parts@).take(i as int), sep@),
        decreases parts@.len() - i,
    {
        if i > 0 {
            out.append(sep);
        }
        out.append(parts[i].as_str());
        proof {
            let now = texts(parts@).take(i + 1);
            assert(now.drop_last() =~= texts(parts@).take(i as int));
            assert(now.last() == parts@[i as int]@);
        }
        i += 1;
    }
    assert(texts(parts@).take(i as int) =~= texts(parts@));
    out
}

/// Tells whether two strings hold the same text.
pub fn same_text(a: &str, b: &str) -> (same: bool)
    ensures
        same == (a@ == b@),
{
    let x = a.as_bytes();
    let y = b.as_bytes();
    proof {
        encode_utf8_decode_utf8(a@);
        encode_utf8_decode_utf8(b@);
    }
    if x.len() != y.len() {
        return false;
    }
    let mut i: usize = 0;
    while i < x.len()
        invariant
            i <= x@.len(),
            x@.len() == y@.len(),
            x@ == a.spec_bytes(),
            y@ == b.spec_bytes(),
            forall|k: int| 0 <= k < i ==> x@[k] == y@[k],
        decreases x@.len() - i,
    {
        if x[i] != y[i] {
            return false;
        }
        i += 1;
    }
    assert(x@ =~= y@);
    true
}

/// The lower-case form of an ASCII capital; any other character itself.
pub open spec fn ascii_lower(c: char) -> char {
    if 'A' <= c && c <= 'Z' {
        ((c as u8) + 32) as char
    } else {
        c
    }
}

/// A text with its ASCII capitals in lower case.
pub open spec fn ascii_lowered(text: Seq<char>) -> Seq<char> {
    text.map_values(|c: char| ascii_lower(c))
}

/// Puts an ASCII capital in lower case.
pub fn to_ascii_lower(c: char) -> (lower: char)
    ensures
        lower == ascii_lower(c),
{
    if 'A' <= c && c <= 'Z' {
        ((c as u8) + 32) as char
    } else {
        c
    }
}

/// Tells whether two strings hold the same text but for the case of
/// their ASCII letters.
pub fn same_text_ignoring_ascii_case(a: &str, b: &str) -> (same: bool)
    ensures
        same == (ascii_lowered(a@) == ascii_lowered(b@)),
{
    let x = chars_of(a);
    let y = chars_of(b);
    if x.len() != y.len() {
        assert(ascii_lowered(a@).len() != ascii_lowered(b@).len());
        return false;
    }
    let mut i: usize = 0;
    while i < x.len()
        invariant
            i <= x@.len(),
            x@.len() == y@.len(),
            x@ == a@,
            y@ == b@,
            forall|k: int| 0 <= k < i ==> ascii_lower(x@[k]) == ascii_lower(y@[k]),
        decreases x@.len() - i,
    {
        if to_ascii_lower(x[i]) != to_ascii_lower(y[i]) {
            assert(ascii_lowered(a@)[i as int] != ascii_lowered(b@)[i as int]);
            return false;
        }
        i += 1;
    }
    assert(ascii_lowered(a@) =~= ascii_lowered(b@));
    true
}

/// The character of a decimal digit.
pub open spec fn digit_char(d: int) -> char
    recommends
        0 <= d <= 9,
{
    if d == 0 {
        '0'
    } else if d == 1 {
        '1'
    } else if d == 2 {
        '2'
    } else if d == 3 {
        '3'
    } else if d == 4 {
        '4'
    } else if d == 5 {
        '5'
    } else if d == 6 {
        '6'
    } else if d == 7 {
        '7'
    } else if d == 8 {
        '8'
    } else {
        '9'
    }
}

/// A number written in decimal digits, without sign or leading zeros.
pub open spec fn decimal_text(n: nat) -> Seq<char>
    decreases n,
{
    if n < 10 {
        seq![digit_char(n as int)]
    } else {
        decimal_text(n / 10).push(digit_char((n % 10) as int))
    }
}

/// The digits as strings.
pub const DIGITS: [&'static str; 10] = ["0", "1", "2", "3", "4", "5", "6", "7", "8", "9"];

proof fn digits_spell_digits()
    ensures
        forall|d: int| 0 <= d <= 9 ==> (#[trigger] DIGITS[d])@ == seq![digit_char(d)],
{
    reveal_strlit("0");
    reveal_strlit("1");
    reveal_strlit("2");
    reveal_strlit("3");
    reveal_strlit("4");
    reveal_strlit("5");
    reveal_strlit("6");
    reveal_strlit("7");
    reveal_strlit("8");
    reveal_strlit("9");
    assert forall|d: int| 0 <= d <= 9 implies (#[trigger] DIGITS[d])@ == seq![digit_char(d)] by {
        assert(DIGITS[d]@ =~= seq![digit_char(d)]);
    }
}

/// Appends the decimal digits of `n` to `out`.
pub fn push_decimal(out: &mut String, n: u8)
    ensures
        final(out)@ == old(out)@ + decimal_text(n as nat),
{
    proof {
        digits_spell_digits();
        reveal_with_fuel(decimal_text, 3);
    }
    let ghost before = out@;
    if n >= 100 {
        out.append(DIGITS[(n / 100) as usize]);
    }
    if n >= 10 {
        out.append(DIGITS[((n / 10) % 10) as usize]);
    }
    out.append(DIGITS[(n % 10) as usize]);
    assert(out@ =~= before + decimal_text(n as nat));
}

/// Whether a text begins with another.
pub open spec fn has_prefix(text: Seq<char>, prefix: Seq<char>) -> bool {
    prefix.len() <= text.len() && text.take(prefix.len() as int) == prefix
}

/// Tells whether `text` begins with `prefix`.
pub fn starts_with(text: &[char], prefix: &[char]) -> (yes: bool)
    ensures
        yes == has_prefix(text@, prefix@),
{
    if prefix.len() > text.len() {
        return false;
    }
    let mut i: usize = 0;
    while i < prefix.len()
        invariant
            i <= prefix@.len() <= text@.len(),
            forall|k: int| 0 <= k < i ==> text@[k] == prefix@[k],
        decreases prefix@.len() - i,
    {
        if text[i] != prefix[i] {
            assert(text@.take(prefix@.len() as int)[i as int] != prefix@[i as int]);
            return false;
        }
        i += 1;
    }
    assert(text@.take(prefix@.len() as int) =~= prefix@);
    true
}

/// Whether a character is a decimal digit.
pub open spec fn is_digit(c: char) -> bool {
    '0' <= c && c <= '9'
}

/// The value of a decimal digit.
pub open spec fn digit_value(c: char) -> int {
    (c as int) - ('0' as int)
}

/// The number that a run of decimal digits writes; 0 for none.
pub open spec fn digits_value(digits: Seq<char>) -> int
    decreases digits.len(),
{
    if digits.len() == 0 {
        0
    } else {
        digits_value(digits.drop_last()) * 10 + digit_value(digits.last())
    }
}

/// Whether a text consists of decimal digits, and of at least one.
pub open spec fn is_number(text: Seq<char>) -> bool {
    text.len() > 0 && forall|i: int| 0 <= i < text.len() ==> is_digit(#[trigger] text[i])
}

/// A text without the plus sign that it may begin with.
pub open spec fn unsigned_part(text: Seq<char>) -> Seq<char> {
    if text.len() > 0 && text[0] == '+' {
        text.drop_first()
    } else {
        text
    }
}

/// The number below 256 that a text writes: decimal digits, at least
/// one, after an optional plus sign; leading zeros count for nothing.
/// `None` for any other text and for a number of 256 or more.
pub open spec fn parsed_u8(text: Seq<char>) -> Option<u8> {
    let digits = unsigned_part(text);
    if is_number(digits) && digits_value(digits) <= 255 {
        Some(digits_value(digits) as u8)
    } else {
        None
    }
}

proof fn digits_value_grows(digits: Seq<char>, n: int)
    requires
        0 <= n <= digits.len(),
        forall|i: int| 0 <= i < digits.len() ==> is_digit(#[trigger] digits[i]),
    ensures
        0 <= digits_value(digits.take(n)) <= digits_value(digits),
    decreases digits.len() - n,
{
    if n == digits.len() {
        assert(digits.take(n) =~= digits);
        digits_value_nonnegative(digits);
    } else {
        digits_value_grows(digits, n + 1);
        let longer = digits.take(n + 1);
        assert(longer.drop_last() =~= digits.take(n));
        assert(is_digit(digits[n]));
        assert(longer.last() == digits[n]);
        digits_value_nonnegative(digits.take(n));
    }
}

proof fn digits_value_nonnegative(digits: Seq<char>)
    requires
        forall|i: int| 0 <= i < digits.len() ==> is_digit(#[trigger] digits[i]),
    ensures
        0 <= digits_value(digits),
    decreases digits.len(),
{
    if digits.len() > 0 {
        digits_value_nonnegative(digits.drop_last());
        assert(is_digit(digits[digits.len() - 1]));
    }
}

/// Reads a number below 256 from `text`.
pub fn parse_u8(text: &[char]) -> (value: Option<u8>)
    ensures
        value == parsed_u8(text@),
{
    let start: usize = if text.len() > 0 && text[0] == '+' {
        1
    } else {
        0
    };
    let ghost digits = unsigned_part(text@);
    assert(digits =~= text@.skip(start as int));
    if start == text.len() {
        return None;
    }
    let mut value: u32 = 0;
    let mut i: usize = start;
    assert(digits.take(0) =~= Seq::<char>::empty());
    while i < text.len()
        invariant
            start <= i <= text@.len(),
            start < text@.len(),
            digits == text@.skip(start as int),
            digits == unsigned_part(text@),
            forall|k: int| 0 <= k < i - start ==> is_digit(#[trigger] digits[k]),
            value == digits_value(digits.take(i - start)),
            value <= 255,
        decreases text@.len() - i,
    {
        let c = text[i];
        assert(c == digits[i - start]);
        if !('0' <= c && c <= '9') {
            assert(!is_digit(digits[i - start]));
            return None;
        }
        let d: u32 = (c as u32) - ('0' as u32);
        assert(digits.take(i - start + 1).drop_last() =~= digits.take(i - start));
        assert(digits.take(i - start + 1).last() == c);
        value = value * 10 + d;
        if value > 255 {
            proof {
                if forall|k: int| 0 <= k < digits.len() ==> is_digit(#[trigger] digits[k]) {
                    digits_value_grows(digits, i - start + 1);
                }
            }
            return None;
        }
        i += 1;
    }
    assert(digits.take(i - start) =~= digits);
    Some(value as u8)
}

/// The decimal digits of a number below 256 read back give the number.
pub proof fn decimal_text_reads_back(n: u8)
    ensures
        parsed_u8(decimal_text(n as nat)) == Some(n),
        is_number(decimal_text(n as nat)),
{
    decimal_digits(n as nat);
}

proof fn decimal_digits(n: nat)
    ensures
        is_number(decimal_text(n)),
        digits_value(decimal_text(n)) == n,
    decreases n,
{
    if n < 10 {
        let t = decimal_text(n);
        assert(t.drop_last() =~= Seq::<char>::empty());
        assert(digits_value(t.drop_last()) == 0);
    } else {
        decimal_digits(n / 10);
        let t = decimal_text(n);
        assert(t.drop_last() =~= decimal_text(n / 10));
        assert forall|i: int| 0 <= i < t.len() implies is_digit(#[trigger] t[i]) by {
            if i < t.len() - 1 {
                assert(t[i] == decimal_text(n / 10)[i]);
            }
        }
    }
}

/// The pieces of a text between the occurrences of a separator, in order.
/// A text with n separators has n + 1 pieces, some of which may be empty.
pub open spec fn split_text(text: Seq<char>, sep: char) -> Seq<Seq<char>>
    decreases text.len(),
{
    if text.len() == 0 {
        seq![Seq::empty()]
    } else {
        let before = split_text(text.drop_last(), sep);
        if text.last() == sep {
            before.push(Seq::empty())
        } else {
            before.update(before.len() - 1, before.last().push(text.last()))
        }
    }
}

/// The text of each piece of a list.
pub open spec fn pieces(parts: Seq<Vec<char>>) -> Seq<Seq<char>> {
    parts.map_values(|p: Vec<char>| p@)
}

/// Splits a text at each occurrence of `sep`.
pub fn split_on(text: &[char], sep: char) -> (parts: Vec<Vec<char>>)
    ensures
        pieces(parts@) == split_text(text@, sep),
        parts@.len() >= 1,
{
    let mut parts: Vec<Vec<char>> = Vec::new();
    let mut current: Vec<char> = Vec::new();
    let mut i: usize = 0;
    assert(text@.take(0) =~= Seq::<char>::empty());
    assert(pieces(parts@).push(current@) =~= split_text(text@.take(0), sep));
    while i < text.len()
        invariant
            i <= text@.len(),
            pieces(parts@).push(current@) == split_text(text@.take(i as int), sep),
        decreases text@.len() - i,
    {
        let ghost done = pieces(parts@);
        let ghost piece = current@;
        assert(text@.take(i + 1).drop_last() =~= text@.take(i as int));
        if text[i] == sep {
            parts.push(current);
            current = Vec::new();
            assert(pieces(parts@) =~= done.push(piece));
            assert(pieces(parts@).push(current@) =~= done.push(piece).push(Seq::empty()));
        } else {
            current.push(text[i]);
            assert(pieces(parts@).push(current@) =~= done.push(piece).update(
                done.len() as int,
                piece.push(text@[i as int]),
            ));
        }
        i += 1;
    }
    assert(text@.take(i as int) =~= text@);
    let ghost done = pieces(parts@);
    let ghost piece = current@;
    parts.push(current);
    assert(pieces(parts@) =~= done.push(piece));
    parts
}

/// A text without the carriage return that it may end in.
pub open spec fn without_cr(line: Seq<char>) -> Seq<char> {
    if line.len() > 0 && line.last() == '\r' {
        line.drop_last()
    } else {
        line
    }
}

/// The lines of a text. Each line feed ends a line, and a carriage return
/// just before it belongs to the line ending. What follows the last line
/// feed is a line too unless it is empty, and keeps a carriage return at
/// its end.
pub open spec fn lines_text(text: Seq<char>) -> Seq<Seq<char>> {
    let parts = split_text(text, '\n');
    let ended = Seq::new((parts.len() - 1) as nat, |i: int| without_cr(parts[i]));
    if parts.last().len() == 0 {
        ended
    } else {
        ended.push(parts.last())
    }
}

/// Splits a text into its lines.
pub fn lines_of(text: &[char]) -> (lines: Vec<Vec<char>>)
    ensures
        pieces(lines@) == lines_text(text@),
{
    let mut parts = split_on(text, '\n');
    let ghost all = pieces(parts@);
    let last = match parts.pop() {
        Some(last) => last,
        None => Vec::new(),
    };
    assert(last@ == all.last());
    assert(pieces(parts@) =~= all.drop_last());
    let mut lines: Vec<Vec<char>> = Vec::new();
    let mut i: usize = 0;
    assert(pieces(lines@) =~= Seq::new(0nat, |k: int| without_cr(all[k])));
    while i < parts.len()
        invariant
            i <= parts@.len(),
            pieces(parts@) == all.drop_last(),
            all.len() >= 1,
            pieces(lines@) == Seq::new(i as nat, |k: int| without_cr(all[k])),
        decreases parts@.len() - i,
    {
        let part = &parts[i];
        assert(part@ == all[i as int]) by {
            assert(pieces(parts@).len() == parts@.len());
            assert(pieces(parts@)[i as int] == parts@[i as int]@);
            assert(all.drop_last().len() == all.len() - 1);
            assert(all.drop_last()[i as int] == all[i as int]);
        }
        let ghost done = pieces(lines@);
        let mut line: Vec<char> = Vec::new();
        let keep = if part.len() > 0 && part[part.len() - 1] == '\r' {
            part.len() - 1
        } else {
            part.len()
        };
        let mut k: usize = 0;
        while k < keep
            invariant
                k <= keep <= part@.len(),
                line@ == part@.take(k as int),
            decreases keep - k,
        {
            line.push(part[k]);
            assert(line@ =~= part@.take(k + 1));
            k += 1;
        }
        assert(line@ =~= without_cr(part@));
        lines.push(line);
        assert(pieces(lines@) =~= done.push(without_cr(all[i as int])));
        i += 1;
        assert(pieces(lines@) =~= Seq::new(i as nat, |k: int| without_cr(all[k])));
    }
    if last.len() > 0 {
        let ghost done = pieces(lines@);
        lines.push(last);
        assert(pieces(lines@) =~= done.push(all.last()));
    }
    lines
}

/// A text without the copies of `pattern` that it begins with.
pub open spec fn without_leading(text: Seq<char>, pattern: Seq<char>) -> Seq<char>
    decreases text.len(),
{
    if pattern.len() > 0 && has_prefix(text, pattern) {
        without_leading(text.skip(pattern.len() as int), pattern)
    } else {
        text
    }
}

/// Skips the copies of `pattern` that `text` begins with, and returns how
/// many characters that were.
pub fn skip_leading(text: &[char], pattern: &[char]) -> (skipped: usize)
    ensures
        skipped <= text@.len(),
        text@.skip(skipped as int) == without_leading(text@, pattern@),
{
    let mut at: usize = 0;
    assert(text@.skip(0) =~= text@);
    if pattern.len() == 0 {
        return 0;
    }
    loop
        invariant
            at <= text@.len(),
            pattern@.len() > 0,
            without_leading(text@, pattern@) == without_leading(text@.skip(at as int), pattern@),
        decreases text@.len() - at,
    {
        let rest = vstd::slice::slice_subrange(text, at, text.len());
        assert(rest@ =~= text@.skip(at as int));
        if !starts_with(rest, pattern) {
            return at;
        }
        assert(text@.skip(at as int).skip(pattern@.len() as int) =~= text@.skip(
            at + pattern@.len(),
        ));
        at += pattern.len();
    }
}

/// Whether a text holds another somewhere.
pub open spec fn holds_text(text: Seq<char>, needle: Seq<char>) -> bool {
    exists|i: int| 0 <= i <= text.len() - needle.len() && #[trigger] text.subrange(
        i,
        i + needle.len(),
    ) == needle
}

/// Tells whether `text` holds `needle` somewhere.
pub fn contains_text(text: &[char], needle: &[char]) -> (yes: bool)
    ensures
        yes == holds_text(text@, needle@),
{
    if needle.len() > text.len() {
        return false;
    }
    let last: usize = text.len() - needle.len();
    let mut i: usize = 0;
    loop
        invariant
            needle@.len() <= text@.len(),
            last == text@.len() - needle@.len(),
            i <= last,
            forall|k: int| 0 <= k < i ==> #[trigger] text@.subrange(k, k + needle@.len()) != needle@,
        decreases last - i,
    {
        let rest = vstd::slice::slice_subrange(text, i, text.len());
        assert(rest@ =~= text@.skip(i as int));
        assert(rest@.take(needle@.len() as int) =~= text@.subrange(i as int, i + needle@.len()));
        if starts_with(rest, needle) {
            return true;
        }
        if i == last {
            return false;
        }
        i += 1;
    }
}

/// Tells whether the characters are the text of the string.
pub fn text_is(chars: &[char], s: &str) -> (same: bool)
    ensures
        same == (chars@ == s@),
{
    let mut same = true;
    let mut i: usize = 0;
    for c in it: s.chars()
        invariant
            it.seq() == s@,
            same ==> i == it.index() && i <= chars@.len(),
            same ==> chars@.take(i as int) == s@.take(i as int),
            !same ==> chars@ != s@,
    {
        if same {
            if i < chars.len() && chars[i] == c {
                assert(chars@.take(i + 1) =~= chars@.take(i as int).push(c));
                assert(s@.take(i + 1) =~= s@.take(i as int).push(c));
                i += 1;
            } else {
                same = false;
                assert(chars@ != s@) by {
                    if chars@ == s@ {
                        assert(chars@[i as int] == s@[i as int]);
                    }
                }
            }
        }
    }
    if same && i == chars.len() {
        assert(chars@.take(i as int) =~= chars@);
        assert(s@.take(i as int) =~= s@);
        true
    } else {
        false
    }
}

/// Whether a character is white space, as `char::is_whitespace` tells.
pub uninterp spec fn white_space(c: char) -> bool;

/// `char::is_whitespace`. The answer is taken to depend on the character
/// alone; nothing more is claimed of it.
#[verifier::external_body]
fn is_whitespace(c: char) -> (yes: bool)
    ensures
        yes == white_space(c),
{
    c.is_whitespace()
}

/// A text without the white space that it begins with.
pub open spec fn without_leading_space(text: Seq<char>) -> Seq<char>
    decreases text.len(),
{
    if text.len() > 0 && white_space(text[0]) {
        without_leading_space(text.drop_first())
    } else {
        text
    }
}

/// A text without the white space that it ends in.
pub open spec fn without_trailing_space(text: Seq<char>) -> Seq<char>
    decreases text.len(),
{
    if text.len() > 0 && white_space(text.last()) {
        without_trailing_space(text.drop_last())
    } else {
        text
    }
}

/// A text without the white space at its two ends, as `str::trim` leaves
/// it.
pub open spec fn trimmed(text: Seq<char>) -> Seq<char> {
    without_trailing_space(without_leading_space(text))
}

/// Takes the white space off the two ends of a text.
pub fn trim(text: &[char]) -> (out: Vec<char>)
    ensures
        out@ == trimmed(text@),
{
    let mut start: usize = 0;
    assert(text@.skip(0) =~= text@);
    while start < text.len() && is_whitespace(text[start])
        invariant
            start <= text@.len(),
            without_leading_space(text@) == without_leading_space(text@.skip(start as int)),
        decreases text@.len() - start,
    {
        assert(text@.skip(start as int).drop_first() =~= text@.skip(start + 1));
        start += 1;
    }
    assert(without_leading_space(text@) == text@.skip(start as int));
    let mut end: usize = text.len();
    assert(text@.subrange(start as int, end as int) =~= text@.skip(start as int));
    while end > start && is_whitespace(text[end - 1])
        invariant
            start <= end <= text@.len(),
            trimmed(text@) == without_trailing_space(text@.subrange(start as int, end as int)),
        decreases end,
    {
        assert(text@.subrange(start as int, end as int).drop_last() =~= text@.subrange(
            start as int,
            end - 1,
        ));
        end -= 1;
    }
    assert(trimmed(text@) == text@.subrange(start as int, end as int));
    let mut out: Vec<char> = Vec::new();
    let mut i: usize = start;
    while i < end
        invariant
            start <= i <= end <= text@.len(),
            out@ == text@.subrange(start as int, i as int),
        decreases end - i,
    {
        out.push(text[i]);
        assert(out@ =~= text@.subrange(start as int, i + 1));
        i += 1;
    }
    out
}

proof fn leading_space_is_a_prefix(text: Seq<char>)
    ensures
        exists|i: int| 0 <= i <= text.len() && without_leading_space(text) == text.skip(i),
        without_leading_space(text).len() > 0 ==> !white_space(without_leading_space(text)[0]),
    decreases text.len(),
{
    if text.len() > 0 && white_space(text[0]) {
        leading_space_is_a_prefix(text.drop_first());
        let i = choose|i: int|
            0 <= i <= text.drop_first().len() && without_leading_space(text.drop_first())
                == text.drop_first().skip(i);
        assert(text.drop_first().skip(i) =~= text.skip(i + 1));
    } else {
        assert(text.skip(0) =~= text);
    }
}

proof fn trailing_space_is_a_suffix(text: Seq<char>)
    ensures
        exists|j: int| 0 <= j <= text.len() && without_trailing_space(text) == text.take(j),
        without_trailing_space(text).len() > 0 ==> !white_space(
            without_trailing_space(text).last(),
        ),
        text.len() > 0 && !white_space(text[0]) ==> without_trailing_space(text).len() > 0
            && without_trailing_space(text)[0] == text[0],
    decreases text.len(),
{
    if text.len() > 0 && white_space(text.last()) {
        trailing_space_is_a_suffix(text.drop_last());
        let j = choose|j: int|
            0 <= j <= text.drop_last().len() && without_trailing_space(text.drop_last())
                == text.drop_last().take(j);
        assert(text.drop_last().take(j) =~= text.take(j));
    } else {
        assert(text.take(text.len() as int) =~= text);
    }
}

/// What trimming does: the result is a part of the text in one piece; it
/// neither begins nor ends with white space; a text that neither begins
/// nor ends with white space, the empty text included, is left as it is;
/// and trimming twice is trimming once.
pub proof fn trimming(text: Seq<char>)
    ensures
        exists|i: int, j: int|
            0 <= i <= j <= text.len() && trimmed(text) == #[trigger] text.subrange(i, j),
        trimmed(text).len() > 0 ==> !white_space(trimmed(text)[0]) && !white_space(
            trimmed(text).last(),
        ),
        text.len() == 0 || (!white_space(text[0]) && !white_space(text.last())) ==> trimmed(text)
            == text,
        trimmed(trimmed(text)) == trimmed(text),
{
    let head = without_leading_space(text);
    leading_space_is_a_prefix(text);
    trailing_space_is_a_suffix(head);
    let i = choose|i: int| 0 <= i <= text.len() && head == text.skip(i);
    let j = choose|j: int| 0 <= j <= head.len() && without_trailing_space(head) == head.take(j);
    assert(head.take(j) =~= text.subrange(i, i + j));
    let t = trimmed(text);
    if t.len() > 0 {
        assert(head.len() > 0);
        assert(t[0] == head[0]);
    }
    leading_space_is_a_prefix(t);
    trailing_space_is_a_suffix(t);
}

} // verus!
