//! Searching and counting in byte buffers.

use vstd::prelude::*;

verus! {

/// The contents of a list of buffers.
pub open spec fn spec_payloads(records: Seq<Vec<u8>>) -> Seq<Seq<u8>> {
    records.map_values(|r: Vec<u8>| r@)
}

/// An upper-case ASCII letter as its lower-case twin; any other byte as itself.
pub open spec fn spec_lower(b: u8) -> u8 {
    if 65 <= b <= 90 {
        (b + 32) as u8
    } else {
        b
    }
}

/// The bytes as they are compared: as they stand, or with ASCII case folded.
pub open spec fn spec_folded(s: Seq<u8>, fold: bool) -> Seq<u8> {
    if fold {
        s.map_values(|b: u8| spec_lower(b))
    } else {
        s
    }
}

/// `needle` stands in `data` at `offset`.
pub open spec fn spec_occurs_at(data: Seq<u8>, offset: int, needle: Seq<u8>, fold: bool) -> bool {
    &&& 0 <= offset
    &&& offset + needle.len() <= data.len()
    &&& spec_folded(data.subrange(offset, offset + needle.len()), fold) == spec_folded(needle, fold)
}

/// `needle` stands in `data` at `offset`, byte for byte.
pub open spec fn spec_found_at(data: Seq<u8>, offset: int, needle: Seq<u8>) -> bool {
    spec_occurs_at(data, offset, needle, false)
}

/// The first place at or after `from` where `needle` stands wholly inside
/// the first `limit` bytes of `data`.
pub open spec fn spec_find_from(data: Seq<u8>, needle: Seq<u8>, fold: bool, from: int, limit: int) -> Option<
    int,
>
    decreases limit - from + 1,
{
    if from < 0 || from + needle.len() > limit || from + needle.len() > data.len() {
        None
    } else if spec_occurs_at(data, from, needle, fold) {
        Some(from)
    } else {
        spec_find_from(data, needle, fold, from + 1, limit)
    }
}

/// The first place where `needle` stands wholly inside the first `limit`
/// bytes of `data`.
pub open spec fn spec_find_within(data: Seq<u8>, needle: Seq<u8>, fold: bool, limit: int) -> Option<int> {
    spec_find_from(data, needle, fold, 0, limit)
}

/// `needle` stands somewhere wholly inside the first `limit` bytes of `data`.
pub open spec fn spec_contains_within(data: Seq<u8>, needle: Seq<u8>, limit: int) -> bool {
    spec_find_within(data, needle, false, limit) is Some
}

/// The sets of bytes that the analyser tells apart.
#[derive(Debug, Clone, Copy, PartialEq, Eq, Structural)]
pub enum ByteClass {
    /// Tab, line feed, carriage return, and the printable ASCII characters.
    PrintableAscii,
    /// The bytes from 128 up.
    Extended,
    /// `PrintableAscii` and `Extended` together.
    Printable,
    /// NUL and the printable ASCII characters from the space on.
    NulOrGraphic,
    /// NUL, the space and the ASCII digits.
    NulOrDigit,
    /// NUL alone.
    Nul,
}

/// Tab, line feed, carriage return, or a printable ASCII character.
pub open spec fn spec_is_printable_ascii(b: u8) -> bool {
    b == 9 || b == 10 || b == 13 || 32 <= b <= 126
}

/// Whether `b` belongs to `class`.
pub open spec fn spec_in_class(b: u8, class: ByteClass) -> bool {
    match class {
        ByteClass::PrintableAscii => spec_is_printable_ascii(b),
        ByteClass::Extended => b >= 128,
        ByteClass::Printable => spec_is_printable_ascii(b) || b >= 128,
        ByteClass::NulOrGraphic => b == 0 || 32 <= b <= 126,
        ByteClass::NulOrDigit => b == 0 || b == 32 || 48 <= b <= 57,
        ByteClass::Nul => b == 0,
    }
}

/// How many bytes of `data` belong to `class`.
pub open spec fn spec_count(data: Seq<u8>, class: ByteClass) -> nat
    decreases data.len(),
{
    if data.len() == 0 {
        0
    } else {
        spec_count(data.drop_last(), class) + if spec_in_class(data.last(), class) {
            1nat
        } else {
            0nat
        }
    }
}

/// Every byte of `data` from `from` up to `to` belongs to `class`.
pub open spec fn spec_all_in(data: Seq<u8>, from: int, to: int, class: ByteClass) -> bool {
    forall|i: int| from <= i < to ==> spec_in_class(#[trigger] data[i], class)
}

/// Whether the byte is a tab, a line feed, a carriage return or printable ASCII.
pub fn is_printable_ascii(byte: u8) -> (r: bool)
    ensures
        r == spec_is_printable_ascii(byte),
{
    byte == 9 || byte == 10 || byte == 13 || (32 <= byte && byte <= 126)
}

/// Whether `b` belongs to `class`.
pub fn in_class(b: u8, class: ByteClass) -> (r: bool)
    ensures
        r == spec_in_class(b, class),
{
    match class {
        ByteClass::PrintableAscii => is_printable_ascii(b),
        ByteClass::Extended => b >= 128,
        ByteClass::Printable => is_printable_ascii(b) || b >= 128,
        ByteClass::NulOrGraphic => b == 0 || (32 <= b && b <= 126),
        ByteClass::NulOrDigit => b == 0 || b == 32 || (48 <= b && b <= 57),
        ByteClass::Nul => b == 0,
    }
}

/// How many bytes of `data` belong to `class`.
pub fn count_in_class(data: &[u8], class: ByteClass) -> (n: usize)
    ensures
        n == spec_count(data@, class),
        n <= data@.len(),
{
    let mut n: usize = 0;
    let mut i: usize = 0;
    assert(data@.take(0) =~= Seq::<u8>::empty());
    while i < data.len()
        invariant
            i <= data@.len(),
            n <= i,
            n == spec_count(data@.take(i as int), class),
        decreases data@.len() - i,
    {
        assert(data@.take(i + 1).drop_last() =~= data@.take(i as int));
        if in_class(data[i], class) {
            n += 1;
        }
        i += 1;
    }
    assert(data@.take(i as int) =~= data@);
    n
}

/// Whether every byte from `from` up to `to` belongs to `class`.
pub fn all_in_class(data: &[u8], from: usize, to: usize, class: ByteClass) -> (r: bool)
    requires
        from <= to <= data@.len(),
    ensures
        r == spec_all_in(data@, from as int, to as int, class),
{
    let mut i: usize = from;
    while i < to
        invariant
            from <= i <= to <= data@.len(),
            spec_all_in(data@, from as int, i as int, class),
        decreases to - i,
    {
        if !in_class(data[i], class) {
            return false;
        }
        i += 1;
    }
    true
}

/// Whether `b` occurs in `data`.
pub fn contains_byte(data: &[u8], b: u8) -> (r: bool)
    ensures
        r == data@.contains(b),
{
    let mut i: usize = 0;
    while i < data.len()
        invariant
            i <= data@.len(),
            forall|k: int| 0 <= k < i ==> data@[k] != b,
        decreases data@.len() - i,
    {
        if data[i] == b {
            return true;
        }
        i += 1;
    }
    false
}

/// An upper-case ASCII letter as its lower-case twin; any other byte as itself.
pub fn ascii_lower(b: u8) -> (r: u8)
    ensures
        r == spec_lower(b),
{
    if 65 <= b && b <= 90 {
        b + 32
    } else {
        b
    }
}

/// Whether `needle` stands in `data` at `offset`.
pub fn occurs_at(data: &[u8], offset: usize, needle: &[u8], fold: bool) -> (r: bool)
    ensures
        r == spec_occurs_at(data@, offset as int, needle@, fold),
{
    if data.len() < offset || data.len() - offset < needle.len() {
        return false;
    }
    let ghost window = data@.subrange(offset as int, offset + needle@.len());
    let mut i: usize = 0;
    while i < needle.len()
        invariant
            i <= needle@.len(),
            offset + needle@.len() <= data@.len() <= usize::MAX,
            window == data@.subrange(offset as int, offset + needle@.len()),
            forall|k: int| 0 <= k < i ==> spec_folded(window, fold)[k] == spec_folded(needle@, fold)[k],
        decreases needle@.len() - i,
    {
        let a: u8 = data[offset + i];
        let b: u8 = needle[i];
        let same = if fold {
            ascii_lower(a) == ascii_lower(b)
        } else {
            a == b
        };
        assert(window[i as int] == a);
        if !same {
            assert(spec_folded(window, fold)[i as int] != spec_folded(needle@, fold)[i as int]);
            return false;
        }
        i += 1;
    }
    assert(spec_folded(window, fold) =~= spec_folded(needle@, fold));
    true
}

/// Whether `needle` stands in `data` at `offset`, byte for byte.
pub fn found_at(data: &[u8], offset: usize, needle: &[u8]) -> (r: bool)
    ensures
        r == spec_found_at(data@, offset as int, needle@),
{
    occurs_at(data, offset, needle, false)
}

/// The first place where `needle` stands wholly inside the first `limit`
/// bytes of `data`.
pub fn find_within(data: &[u8], needle: &[u8], fold: bool, limit: usize) -> (r: Option<usize>)
    ensures
        match r {
            Some(i) => spec_find_within(data@, needle@, fold, limit as int) == Some(i as int),
            None => spec_find_within(data@, needle@, fold, limit as int) is None,
        },
{
    let end: usize = if limit < data.len() {
        limit
    } else {
        data.len()
    };
    if end < needle.len() {
        return None;
    }
    let last: usize = end - needle.len();
    let mut i: usize = 0;
    loop
        invariant
            i <= last,
            last + needle@.len() == end,
            end <= data@.len() <= usize::MAX,
            end <= limit,
            end == limit || end == data@.len(),
            spec_find_within(data@, needle@, fold, limit as int) == spec_find_from(
                data@,
                needle@,
                fold,
                i as int,
                limit as int,
            ),
        decreases last - i,
    {
        if occurs_at(data, i, needle, fold) {
            return Some(i);
        }
        if i == last {
            assert(spec_find_from(data@, needle@, fold, i + 1, limit as int) is None);
            return None;
        }
        i += 1;
    }
}

/// The first place where `needle` stands in `haystack`.
pub fn find_subsequence(haystack: &[u8], needle: &[u8]) -> (r: Option<usize>)
    requires
        needle@.len() > 0,
    ensures
        match r {
            Some(i) => spec_find_within(haystack@, needle@, false, haystack@.len() as int) == Some(i as int),
            None => spec_find_within(haystack@, needle@, false, haystack@.len() as int) is None,
        },
{
    find_within(haystack, needle, false, haystack.len())
}

/// Whether `needle` stands somewhere wholly inside the first `limit` bytes.
pub fn contains_within(data: &[u8], needle: &[u8], limit: usize) -> (r: bool)
    ensures
        r == spec_contains_within(data@, needle@, limit as int),
{
    find_within(data, needle, false, limit).is_some()
}

/// A match that `spec_find_within` reports is the first one.
pub proof fn lemma_find_is_first(data: Seq<u8>, needle: Seq<u8>, fold: bool, from: int, limit: int)
    requires
        0 <= from,
    ensures
        match spec_find_from(data, needle, fold, from, limit) {
            Some(i) => {
                &&& from <= i
                &&& i + needle.len() <= limit
                &&& spec_occurs_at(data, i, needle, fold)
                &&& forall|j: int| from <= j < i ==> !spec_occurs_at(data, j, needle, fold)
            },
            None => forall|j: int|
                from <= j && j + needle.len() <= limit ==> !spec_occurs_at(data, j, needle, fold),
        },
    decreases limit - from + 1,
{
    if from + needle.len() > limit || from + needle.len() > data.len() {
    } else if spec_occurs_at(data, from, needle, fold) {
    } else {
        lemma_find_is_first(data, needle, fold, from + 1, limit);
    }
}

} // verus!
