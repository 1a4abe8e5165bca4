//! Building text: characters from bytes, numbers in hexadecimal and in
//! decimal, trimming, searching.

use vstd::prelude::*;
use vstd::std_specs::iter::IteratorSpec;
use vstd::string::*;
use vstd::utf8::{decode_utf8, valid_utf8};

verus! {

/// `String::push`: appends one character to the string.
#[verifier::external_body]
pub(crate) fn push_char(s: &mut String, c: char)
    ensures
        final(s)@ == old(s)@.push(c),
{
    s.push(c)
}

/// `String::from_utf8`: the text that the bytes encode in UTF-8, where
/// they are valid UTF-8, and nothing where they are not.
#[verifier::external_body]
pub(crate) fn utf8_string(bytes: &[u8]) -> (r: Option<String>)
    ensures
        r is Some <==> valid_utf8(bytes@),
        r matches Some(s) ==> s@ == decode_utf8(bytes@),
{
    String::from_utf8(bytes.to_vec()).ok()
}

/// The text that `String::from_utf8_lossy` reads from bytes.
pub uninterp spec fn spec_utf8_lossy(bytes: Seq<u8>) -> Seq<char>;

/// `String::from_utf8_lossy`: the text that the bytes encode, with the
/// replacement character for what is not UTF-8; bytes that are UTF-8
/// throughout are read as they stand.
#[verifier::external_body]
pub(crate) fn utf8_lossy(bytes: &[u8]) -> (text: String)
    ensures
        text@ == spec_utf8_lossy(bytes@),
        valid_utf8(bytes@) ==> text@ == decode_utf8(bytes@),
{
    String::from_utf8_lossy(bytes).into_owned()
}

/// The text that bytes are read as where nothing may fail: what they
/// encode where they are UTF-8 throughout, else what
/// `String::from_utf8_lossy` makes of them.
pub open spec fn spec_lossy_text(bytes: Seq<u8>) -> Seq<char> {
    if valid_utf8(bytes) {
        decode_utf8(bytes)
    } else {
        spec_utf8_lossy(bytes)
    }
}

/// The upper-case form that `str::to_uppercase` gives a text.
pub uninterp spec fn spec_uppercase(text: Seq<char>) -> Seq<char>;

/// `str::to_uppercase`: the upper-case form of the text.
#[verifier::external_body]
pub(crate) fn uppercase(text: &str) -> (upper: String)
    ensures
        upper@ == spec_uppercase(text@),
{
    text.to_uppercase()
}

/// The lower-case form that `str::to_lowercase` gives a text.
pub uninterp spec fn spec_lowercase(text: Seq<char>) -> Seq<char>;

/// `str::to_lowercase`: the lower-case form of the text.
#[verifier::external_body]
pub(crate) fn lowercase(text: &str) -> (lower: String)
    ensures
        lower@ == spec_lowercase(text@),
{
    text.to_lowercase()
}

/// The form in which `{:?}` prints a text: between quotes, with escapes.
pub uninterp spec fn spec_debug_text(text: Seq<char>) -> Seq<char>;

/// `<str as Debug>::fmt`: the text as `{:?}` prints it.
#[verifier::external_body]
pub(crate) fn debug_text(text: &str) -> (quoted: String)
    ensures
        quoted@ == spec_debug_text(text@),
{
    format!("{:?}", text)
}

/// The characters of a string.
pub fn string_chars(s: &str) -> (r: Vec<char>)
    ensures
        r@ == s@,
{
    broadcast use vstd::string::group_string_axioms;

    let mut v: Vec<char> = Vec::new();
    let mut it = s.chars();
    loop
        invariant
            it.obeys_prophetic_iter_laws(),
            v@.len() <= s@.len(),
            v@ == s@.take(v@.len() as int),
            it.remaining() == s@.skip(v@.len() as int),
        ensures
            v@ == s@,
        decreases s@.len() - v@.len(),
    {
        match it.next() {
            Some(c) => {
                v.push(c);
            },
            None => {
                break ;
            },
        }
    }
    v
}

/// The string made of the characters from `from` up to `to`.
pub fn string_from_chars(chars: &[char], from: usize, to: usize) -> (s: String)
    requires
        from <= to <= chars@.len(),
    ensures
        s@ == chars@.subrange(from as int, to as int),
{
    let mut s = String::new();
    let mut i: usize = from;
    while i < to
        invariant
            from <= i <= to <= chars@.len(),
            s@ == chars@.subrange(from as int, i as int),
        decreases to - i,
    {
        push_char(&mut s, chars[i]);
        i += 1;
        assert(s@ =~= chars@.subrange(from as int, i as int));
    }
    s
}

/// White space as Unicode defines it.
pub open spec fn spec_is_whitespace(c: char) -> bool {
    let u = c as u32;
    ||| 0x09 <= u <= 0x0d
    ||| u == 0x20
    ||| u == 0x85
    ||| u == 0xa0
    ||| u == 0x1680
    ||| 0x2000 <= u <= 0x200a
    ||| u == 0x2028
    ||| u == 0x2029
    ||| u == 0x202f
    ||| u == 0x205f
    ||| u == 0x3000
}

/// Whether the character is white space as Unicode defines it.
pub fn is_whitespace(c: char) -> (r: bool)
    ensures
        r == spec_is_whitespace(c),
{
    let u: u32 = c as u32;
    (0x09 <= u && u <= 0x0d) || u == 0x20 || u == 0x85 || u == 0xa0 || u == 0x1680 || (0x2000 <= u
        && u <= 0x200a) || u == 0x2028 || u == 0x2029 || u == 0x202f || u == 0x205f || u == 0x3000
}

/// The text without the white space at its start.
pub open spec fn spec_trim_start(s: Seq<char>) -> Seq<char>
    decreases s.len(),
{
    if s.len() > 0 && spec_is_whitespace(s[0]) {
        spec_trim_start(s.drop_first())
    } else {
        s
    }
}

/// The text without the white space at its end.
pub open spec fn spec_trim_end(s: Seq<char>) -> Seq<char>
    decreases s.len(),
{
    if s.len() > 0 && spec_is_whitespace(s.last()) {
        spec_trim_end(s.drop_last())
    } else {
        s
    }
}

/// The text without the white space at its start and at its end.
pub open spec fn spec_trim(s: Seq<char>) -> Seq<char> {
    spec_trim_end(spec_trim_start(s))
}

/// The bounds of the text once the white space at both ends is cut off.
pub fn trim_bounds(chars: &[char]) -> (r: (usize, usize))
    ensures
        r.0 <= r.1 <= chars@.len(),
        chars@.subrange(r.0 as int, r.1 as int) == spec_trim(chars@),
{
    let mut start: usize = 0;
    assert(chars@.skip(0) =~= chars@);
    while start < chars.len() && is_whitespace(chars[start])
        invariant
            start <= chars@.len(),
            spec_trim_start(chars@) == spec_trim_start(chars@.skip(start as int)),
        decreases chars@.len() - start,
    {
        assert(chars@.skip(start as int).drop_first() =~= chars@.skip(start + 1));
        start += 1;
    }
    let ghost rest = chars@.skip(start as int);
    assert(spec_trim_start(chars@) == rest);
    let mut end: usize = chars.len();
    assert(rest.take(end - start) =~= rest);
    while end > start && is_whitespace(chars[end - 1])
        invariant
            start <= end <= chars@.len(),
            rest == chars@.skip(start as int),
            spec_trim_end(rest) == spec_trim_end(rest.take(end - start)),
        decreases end - start,
    {
        assert(rest.take(end - start).drop_last() =~= rest.take(end - start - 1));
        assert(rest.take(end - start).last() == chars@[end - 1]);
        end -= 1;
    }
    assert(rest.take(end - start) =~= chars@.subrange(start as int, end as int));
    assert(end > start ==> rest.take(end - start).last() == chars@[end - 1]);
    (start, end)
}

/// The text without the white space at its start and at its end.
pub fn trim(s: &str) -> (r: String)
    ensures
        r@ == spec_trim(s@),
{
    let chars = string_chars(s);
    let (start, end) = trim_bounds(chars.as_slice());
    string_from_chars(chars.as_slice(), start, end)
}

/// The characters with the code points of the bytes.
pub open spec fn spec_chars(bytes: Seq<u8>) -> Seq<char> {
    bytes.map_values(|b: u8| b as char)
}

/// The string whose characters have the code points of the bytes.
pub fn chars_string(bytes: &[u8]) -> (s: String)
    ensures
        s@ == spec_chars(bytes@),
{
    let mut s = String::new();
    let mut i: usize = 0;
    while i < bytes.len()
        invariant
            i <= bytes@.len(),
            s@ == spec_chars(bytes@.take(i as int)),
        decreases bytes@.len() - i,
    {
        push_char(&mut s, bytes[i] as char);
        i += 1;
        assert(s@ =~= spec_chars(bytes@.take(i as int)));
    }
    assert(bytes@.take(i as int) =~= bytes@);
    s
}

/// The lower-case hexadecimal digit for a value below 16.
pub open spec fn spec_hex_digit_lower(d: nat) -> char {
    if d < 10 {
        (48 + d) as char
    } else {
        (87 + d) as char
    }
}

/// The two lower-case hexadecimal digits of a byte.
pub open spec fn spec_hex_byte(b: u8) -> Seq<char> {
    seq![spec_hex_digit_lower((b / 16) as nat), spec_hex_digit_lower((b % 16) as nat)]
}

fn hex_digit_lower(d: u8) -> (c: char)
    requires
        d < 16,
    ensures
        c == spec_hex_digit_lower(d as nat),
{
    if d < 10 {
        (48 + d) as char
    } else {
        (87 + d) as char
    }
}

/// Appends the two lower-case hexadecimal digits of a byte.
pub fn push_hex_byte(s: &mut String, b: u8)
    ensures
        final(s)@ == old(s)@ + spec_hex_byte(b),
{
    push_char(s, hex_digit_lower(b / 16));
    push_char(s, hex_digit_lower(b % 16));
    assert(s@ =~= old(s)@ + spec_hex_byte(b));
}

/// The text of an optional string.
pub open spec fn spec_text_option(o: Option<String>) -> Option<Seq<char>> {
    match o {
        Some(s) => Some(s@),
        None => None,
    }
}

/// The texts of a list of strings.
pub open spec fn spec_lines(lines: Seq<String>) -> Seq<Seq<char>> {
    lines.map_values(|s: String| s@)
}

/// Appends a line to a list.
pub fn push_line(lines: &mut Vec<String>, line: String)
    ensures
        spec_lines(final(lines)@) == spec_lines(old(lines)@).push(line@),
{
    lines.push(line);
    assert(spec_lines(lines@) =~= spec_lines(old(lines)@).push(line@));
}

/// The upper-case hexadecimal digit for a value below 16.
pub open spec fn spec_hex_digit_upper(d: nat) -> char {
    if d < 10 {
        (48 + d) as char
    } else {
        (55 + d) as char
    }
}

/// The upper-case hexadecimal digits of `v`, without leading zeros
/// (a single `0` for zero).
pub open spec fn spec_hex_digits_upper(v: nat) -> Seq<char>
    decreases v,
{
    if v < 16 {
        seq![spec_hex_digit_upper(v)]
    } else {
        spec_hex_digits_upper(v / 16).push(spec_hex_digit_upper(v % 16))
    }
}

/// `count` copies of `c`.
pub open spec fn spec_repeat(c: char, count: nat) -> Seq<char> {
    Seq::new(count, |i: int| c)
}

/// `digits`, with zeros in front up to `width` characters.
pub open spec fn spec_zero_pad(digits: Seq<char>, width: nat) -> Seq<char> {
    if digits.len() >= width {
        digits
    } else {
        spec_repeat('0', (width - digits.len()) as nat) + digits
    }
}

/// `v` in upper-case hexadecimal, at least `width` digits wide.
pub open spec fn spec_hex_upper(v: nat, width: nat) -> Seq<char> {
    spec_zero_pad(spec_hex_digits_upper(v), width)
}

fn hex_digit_upper(d: u8) -> (c: char)
    requires
        d < 16,
    ensures
        c == spec_hex_digit_upper(d as nat),
{
    if d < 10 {
        (48 + d) as char
    } else {
        (55 + d) as char
    }
}

/// The string whose characters are `rev`, last first.
pub(crate) fn string_from_reversed(rev: &Vec<char>) -> (s: String)
    ensures
        s@ == rev@.reverse(),
{
    let mut s = String::new();
    let mut i: usize = rev.len();
    while i > 0
        invariant
            i <= rev@.len(),
            s@ == rev@.reverse().take(rev@.len() - i),
        decreases i,
    {
        i -= 1;
        push_char(&mut s, rev[i]);
        assert(s@ =~= rev@.reverse().take(rev@.len() - i));
    }
    assert(s@ =~= rev@.reverse());
    s
}

/// `v` in upper-case hexadecimal, at least `width` digits wide.
pub fn hex_upper(v: u64, width: usize) -> (s: String)
    ensures
        s@ == spec_hex_upper(v as nat, width as nat),
{
    let mut rev: Vec<char> = Vec::new();
    let mut rest: u64 = v;
    while rest >= 16
        invariant
            spec_hex_digits_upper(v as nat) == spec_hex_digits_upper(rest as nat) + rev@.reverse(),
        decreases rest,
    {
        let ghost before = rev@;
        rev.push(hex_digit_upper((rest % 16) as u8));
        assert(rev@.reverse() =~= seq![spec_hex_digit_upper((rest % 16) as nat)] + before.reverse());
        assert(spec_hex_digits_upper(rest as nat) =~= spec_hex_digits_upper((rest / 16) as nat)
            + seq![spec_hex_digit_upper((rest % 16) as nat)]);
        rest = rest / 16;
    }
    let ghost before = rev@;
    rev.push(hex_digit_upper(rest as u8));
    assert(rev@.reverse() =~= seq![spec_hex_digit_upper(rest as nat)] + before.reverse());
    assert(rev@.reverse() =~= spec_hex_digits_upper(v as nat));
    let ghost digits = rev@;
    while rev.len() < width
        invariant
            digits.len() <= rev@.len(),
            rev@.len() <= width || rev@ == digits,
            rev@ == digits + spec_repeat('0', (rev@.len() - digits.len()) as nat),
        decreases width - rev@.len(),
    {
        rev.push('0');
        assert(rev@ =~= digits + spec_repeat('0', (rev@.len() - digits.len()) as nat));
    }
    let s = string_from_reversed(&rev);
    assert(s@ =~= spec_hex_upper(v as nat, width as nat));
    s
}

/// The decimal digits of `v`, without leading zeros (a single `0` for zero).
pub open spec fn spec_decimal(v: nat) -> Seq<char>
    decreases v,
{
    if v < 10 {
        seq![(48 + v) as char]
    } else {
        spec_decimal(v / 10).push((48 + v % 10) as char)
    }
}

/// `v` in decimal.
pub fn decimal(v: u128) -> (s: String)
    ensures
        s@ == spec_decimal(v as nat),
{
    let mut rev: Vec<char> = Vec::new();
    let mut rest: u128 = v;
    while rest >= 10
        invariant
            spec_decimal(v as nat) == spec_decimal(rest as nat) + rev@.reverse(),
        decreases rest,
    {
        let ghost before = rev@;
        let d: u8 = (rest % 10) as u8;
        rev.push((48 + d) as char);
        assert(rev@.reverse() =~= seq![(48 + rest % 10) as char] + before.reverse());
        assert(spec_decimal(rest as nat) =~= spec_decimal((rest / 10) as nat) + seq![(48 + rest % 10) as char]);
        rest = rest / 10;
    }
    let ghost before = rev@;
    let d: u8 = rest as u8;
    rev.push((48 + d) as char);
    assert(rev@.reverse() =~= seq![(48 + rest) as char] + before.reverse());
    assert(rev@.reverse() =~= spec_decimal(v as nat));
    string_from_reversed(&rev)
}

/// The parts, with `separator` between each two.
pub open spec fn spec_join(parts: Seq<Seq<char>>, separator: Seq<char>) -> Seq<char>
    decreases parts.len(),
{
    if parts.len() == 0 {
        Seq::<char>::empty()
    } else if parts.len() == 1 {
        parts[0]
    } else {
        spec_join(parts.drop_last(), separator) + separator + parts.last()
    }
}

/// The lines, with `separator` between each two.
pub fn join_lines(lines: &Vec<String>, separator: &str) -> (text: String)
    ensures
        text@ == spec_join(spec_lines(lines@), separator@),
{
    let ghost all = spec_lines(lines@);
    let mut text = String::new();
    let mut i: usize = 0;
    assert(all.take(0) =~= Seq::<Seq<char>>::empty());
    while i < lines.len()
        invariant
            i <= lines@.len(),
            all == spec_lines(lines@),
            text@ == spec_join(all.take(i as int), separator@),
        decreases lines@.len() - i,
    {
        if i > 0 {
            text.append(separator);
        }
        text.append(lines[i].as_str());
        proof {
            let before = all.take(i as int);
            let after = all.take(i + 1);
            assert(after.drop_last() =~= before);
            assert(after.last() == lines@[i as int]@);
            if i == 0 {
                assert(text@ =~= after[0]);
            }
        }
        i += 1;
    }
    assert(all.take(i as int) =~= all);
    text
}

/// The digits in groups of three from the right, a comma between each two.
pub open spec fn spec_group_thousands(digits: Seq<char>) -> Seq<char>
    decreases digits.len(),
{
    if digits.len() <= 3 {
        digits
    } else {
        spec_group_thousands(digits.take(digits.len() - 3)) + seq![','] + digits.skip(digits.len() - 3)
    }
}

/// `v` in decimal, its digits in groups of three.
pub open spec fn spec_with_commas(v: nat) -> Seq<char> {
    spec_group_thousands(spec_decimal(v))
}

/// `v` in decimal, its digits in groups of three.
pub fn format_with_commas(v: u128) -> (text: String)
    ensures
        text@ == spec_with_commas(v as nat),
{
    let digits = string_chars(decimal(v).as_str());
    let len: usize = digits.len();
    if len <= 3 {
        return string_from_chars(digits.as_slice(), 0, len);
    }
    let first: usize = if len % 3 == 0 {
        3
    } else {
        len % 3
    };
    let mut text = string_from_chars(digits.as_slice(), 0, first);
    let mut done: usize = first;
    assert(digits@.take(first as int) =~= digits@.subrange(0, first as int));
    while done < len
        invariant
            1 <= first <= done <= len == digits@.len(),
            (len - done) % 3 == 0,
            text@ == spec_group_thousands(digits@.take(done as int)),
        decreases len - done,
    {
        push_char(&mut text, ',');
        push_char(&mut text, digits[done]);
        push_char(&mut text, digits[done + 1]);
        push_char(&mut text, digits[done + 2]);
        proof {
            let after = digits@.take(done + 3);
            assert(after.take(after.len() - 3) =~= digits@.take(done as int));
            assert(after.skip(after.len() - 3) =~= seq![
                digits@[done as int],
                digits@[done + 1],
                digits@[done + 2],
            ]);
            assert(text@ =~= spec_group_thousands(after));
        }
        done += 3;
    }
    assert(digits@.take(done as int) =~= digits@);
    text
}

/// `needle` stands in `text` at `at`.
pub open spec fn spec_text_at(text: Seq<char>, at: int, needle: Seq<char>) -> bool {
    &&& 0 <= at
    &&& at + needle.len() <= text.len()
    &&& text.subrange(at, at + needle.len()) == needle
}

/// `needle` stands somewhere in `text`.
pub open spec fn spec_contains_text(text: Seq<char>, needle: Seq<char>) -> bool {
    exists|at: int| spec_text_at(text, at, needle)
}

/// Whether `needle` stands in `text` at `at`.
pub fn text_at(text: &[char], at: usize, needle: &[char]) -> (r: bool)
    ensures
        r == spec_text_at(text@, at as int, needle@),
{
    if text.len() < at || text.len() - at < needle.len() {
        return false;
    }
    let ghost window = text@.subrange(at as int, at + needle@.len());
    let mut i: usize = 0;
    while i < needle.len()
        invariant
            i <= needle@.len(),
            at + needle@.len() <= text@.len() <= usize::MAX,
            window == text@.subrange(at as int, at + needle@.len()),
            forall|k: int| 0 <= k < i ==> window[k] == needle@[k],
        decreases needle@.len() - i,
    {
        if text[at + i] != needle[i] {
            assert(window[i as int] != needle@[i as int]);
            return false;
        }
        i += 1;
    }
    assert(window =~= needle@);
    true
}

/// Whether `needle` stands somewhere in `text`.
pub fn contains_text(text: &[char], needle: &[char]) -> (r: bool)
    ensures
        r == spec_contains_text(text@, needle@),
{
    if text.len() < needle.len() {
        return false;
    }
    let last: usize = text.len() - needle.len();
    let mut at: usize = 0;
    loop
        invariant
            at <= last,
            last + needle@.len() == text@.len(),
            forall|k: int| 0 <= k < at ==> !spec_text_at(text@, k, needle@),
        decreases last - at,
    {
        if text_at(text, at, needle) {
            return true;
        }
        if at == last {
            return false;
        }
        at += 1;
    }
}

/// Whether `text` ends with `needle`.
pub fn ends_with_text(text: &[char], needle: &[char]) -> (r: bool)
    ensures
        r == needle@.is_suffix_of(text@),
{
    if text.len() < needle.len() {
        return false;
    }
    text_at(text, text.len() - needle.len(), needle)
}

/// Whether `text` begins with `needle`.
pub fn starts_with_text(text: &[char], needle: &[char]) -> (r: bool)
    ensures
        r == needle@.is_prefix_of(text@),
{
    text_at(text, 0, needle)
}

} // verus!
