//! Finding the BACKUP command that wrote a save set.

use vstd::prelude::*;
use vstd::slice::slice_subrange;
use vstd::string::*;
use vstd::utf8::{decode_utf8, encode_utf8, valid_utf8};
use crate::bytes::{
    find_within, is_printable_ascii, spec_find_within, spec_is_printable_ascii, spec_payloads,
};
use crate::label::{label_id, spec_label_id, LABEL_LENGTH};
use crate::text::{
    chars_string, contains_text, spec_chars, spec_contains_text, spec_text_option, spec_trim,
    spec_lossy_text, starts_with_text, string_chars, trim, utf8_lossy, utf8_string,
};

verus! {

/// `BACKUP/`.
pub const BACKUP_COMMAND_WORD: [u8; 7] = [0x42, 0x41, 0x43, 0x4b, 0x55, 0x50, 0x2f];

/// A lower-case ASCII letter as its upper-case twin; any other character
/// as itself.
pub open spec fn spec_ascii_upper(c: char) -> char {
    if 'a' <= c <= 'z' {
        ((c as u8) - 32) as char
    } else {
        c
    }
}

/// The text with its ASCII letters in upper case.
pub open spec fn spec_to_ascii_uppercase(text: Seq<char>) -> Seq<char> {
    text.map_values(|c: char| spec_ascii_upper(c))
}

/// Whether a text reads like a command: at least six bytes of UTF-8 that,
/// in upper case, name `BACKUP`, `COMMAND`, `LOG` or `VERIFY`, or hold a
/// slash or a dollar sign.
pub open spec fn spec_looks_like_command(text: Seq<char>) -> bool {
    let upper = spec_to_ascii_uppercase(text);
    &&& encode_utf8(text).len() >= 6
    &&& {
        ||| spec_contains_text(upper, "BACKUP"@)
        ||| spec_contains_text(upper, "COMMAND"@)
        ||| spec_contains_text(upper, "LOG"@)
        ||| spec_contains_text(upper, "VERIFY"@)
        ||| spec_contains_text(upper, "/"@)
        ||| spec_contains_text(upper, "$"@)
    }
}

fn ascii_upper(c: char) -> (u: char)
    ensures
        u == spec_ascii_upper(c),
{
    if 'a' <= c && c <= 'z' {
        ((c as u8) - 32) as char
    } else {
        c
    }
}

fn to_ascii_uppercase(text: &str) -> (upper: Vec<char>)
    ensures
        upper@ == spec_to_ascii_uppercase(text@),
{
    let chars = string_chars(text);
    let mut upper: Vec<char> = Vec::new();
    let mut i: usize = 0;
    while i < chars.len()
        invariant
            i <= chars@.len(),
            chars@ == text@,
            upper@ == spec_to_ascii_uppercase(text@.take(i as int)),
        decreases chars@.len() - i,
    {
        upper.push(ascii_upper(chars[i]));
        i += 1;
        assert(upper@ =~= spec_to_ascii_uppercase(text@.take(i as int)));
    }
    assert(text@.take(i as int) =~= text@);
    upper
}

/// Whether a text reads like a command.
pub fn looks_like_command(text: &str) -> (r: bool)
    ensures
        r == spec_looks_like_command(text@),
{
    if text.as_bytes().len() < 6 {
        return false;
    }
    let upper = to_ascii_uppercase(text);
    contains_text(upper.as_slice(), string_chars("BACKUP").as_slice()) || contains_text(
        upper.as_slice(),
        string_chars("COMMAND").as_slice(),
    ) || contains_text(upper.as_slice(), string_chars("LOG").as_slice()) || contains_text(
        upper.as_slice(),
        string_chars("VERIFY").as_slice(),
    ) || contains_text(upper.as_slice(), string_chars("/").as_slice()) || contains_text(
        upper.as_slice(),
        string_chars("$").as_slice(),
    )
}

/// The trimmed text, where it reads like a command.
pub open spec fn spec_command_in(text: Seq<char>) -> Option<Seq<char>> {
    if spec_looks_like_command(spec_trim(text)) {
        Some(spec_trim(text))
    } else {
        None
    }
}

/// The trimmed text, where it reads like a command.
pub fn command_in(text: &str) -> (command: Option<String>)
    ensures
        spec_text_option(command) == spec_command_in(text@),
{
    let trimmed = trim(text);
    if looks_like_command(trimmed.as_str()) {
        Some(trimmed)
    } else {
        None
    }
}

/// The command that a label record carries: the payload of a user header
/// label or, failing that, the comment of a volume label.
pub open spec fn spec_parse_label_for_command(record: Seq<u8>) -> Option<Seq<char>>
    recommends
        record.len() == LABEL_LENGTH,
{
    match spec_label_id(record) {
        None => None,
        Some(id) => {
            let payload = if "UHL"@.is_prefix_of(id) {
                spec_command_in(spec_lossy_text(record.subrange(4, record.len() as int)))
            } else {
                None
            };
            if payload is Some {
                payload
            } else if id == "VOL1"@ {
                spec_command_in(spec_lossy_text(record.subrange(51, 80)))
            } else {
                None
            }
        },
    }
}

/// The command that a label record carries.
pub fn parse_label_for_command(record: &[u8]) -> (command: Option<String>)
    requires
        record@.len() == LABEL_LENGTH,
    ensures
        spec_text_option(command) == spec_parse_label_for_command(record@),
{
    let id = match label_id(record) {
        Some(id) => id,
        None => {
            return None;
        },
    };
    let id_chars = string_chars(id.as_str());
    if starts_with_text(id_chars.as_slice(), string_chars("UHL").as_slice()) {
        let content = utf8_lossy(slice_subrange(record, 4, record.len()));
        match command_in(content.as_str()) {
            Some(command) => {
                return Some(command);
            },
            None => {},
        }
    }
    if id == String::from_str("VOL1") {
        let comment = utf8_lossy(slice_subrange(record, 51, 80));
        return command_in(comment.as_str());
    }
    None
}

/// How many of the bytes from `from` on, up to `limit`, are printable
/// ASCII without a break.
pub open spec fn spec_printable_run(data: Seq<u8>, from: int, limit: int) -> int
    decreases limit - from,
{
    if from < 0 || from >= limit || from >= data.len() || !spec_is_printable_ascii(data[from]) {
        0
    } else {
        1 + spec_printable_run(data, from + 1, limit)
    }
}

/// How often `c` occurs in `text`.
pub open spec fn spec_char_count(text: Seq<char>, c: char) -> nat
    decreases text.len(),
{
    if text.len() == 0 {
        0
    } else {
        spec_char_count(text.drop_last(), c) + if text.last() == c {
            1nat
        } else {
            0nat
        }
    }
}

/// The smaller of two numbers.
pub open spec fn spec_min(a: int, b: int) -> int {
    if a < b {
        a
    } else {
        b
    }
}

/// The command whose length stands in the two bytes before it, least
/// significant first: a length from 50 up to 499, and UTF-8 text that
/// reads like a command.
pub open spec fn spec_counted_command(record: Seq<u8>, at: int) -> Option<Seq<char>> {
    if at < 2 {
        None
    } else {
        let length = record[at - 2] as int + 256 * record[at - 1] as int;
        let slice = record.subrange(at, spec_min(at + length, record.len() as int));
        if 50 <= length < 500 && valid_utf8(slice) {
            spec_command_in(decode_utf8(slice))
        } else {
            None
        }
    }
}

/// The command that runs from `at` as far as printable ASCII goes, 400
/// bytes at most: more than 30 characters once trimmed, three of them
/// slashes.
pub open spec fn spec_printable_command(record: Seq<u8>, at: int) -> Option<Seq<char>> {
    let run = spec_printable_run(record, at, at + 400);
    let text = spec_trim(spec_chars(record.subrange(at, at + run)));
    if run > 0 && text.len() > 30 && spec_char_count(text, '/') >= 3 {
        Some(text)
    } else {
        None
    }
}

/// The command that a data block of more than 512 bytes carries where
/// `BACKUP/` first stands within its first 1024 bytes.
pub open spec fn spec_parse_data_block_for_command(record: Seq<u8>) -> Option<Seq<char>> {
    if record.len() <= 512 {
        None
    } else {
        match spec_find_within(record, BACKUP_COMMAND_WORD@, false, 1024) {
            None => None,
            Some(at) => match spec_counted_command(record, at) {
                Some(command) => Some(command),
                None => spec_printable_command(record, at),
            },
        }
    }
}

fn counted_command(record: &[u8], at: usize) -> (command: Option<String>)
    requires
        at <= record@.len(),
    ensures
        spec_text_option(command) == spec_counted_command(record@, at as int),
{
    if at < 2 {
        return None;
    }
    let length: usize = record[at - 2] as usize + 256 * (record[at - 1] as usize);
    if length < 50 || length >= 500 {
        return None;
    }
    let end: usize = if record.len() - at < length {
        record.len()
    } else {
        at + length
    };
    match utf8_string(slice_subrange(record, at, end)) {
        Some(text) => command_in(text.as_str()),
        None => None,
    }
}

fn char_count(text: &[char], c: char) -> (n: usize)
    ensures
        n == spec_char_count(text@, c),
{
    let mut n: usize = 0;
    let mut i: usize = 0;
    assert(text@.take(0) =~= Seq::<char>::empty());
    while i < text.len()
        invariant
            i <= text@.len(),
            n <= i,
            n == spec_char_count(text@.take(i as int), c),
        decreases text@.len() - i,
    {
        assert(text@.take(i + 1).drop_last() =~= text@.take(i as int));
        if text[i] == c {
            n += 1;
        }
        i += 1;
    }
    assert(text@.take(i as int) =~= text@);
    n
}

fn printable_command(record: &[u8], at: usize) -> (command: Option<String>)
    requires
        at <= record@.len(),
    ensures
        spec_text_option(command) == spec_printable_command(record@, at as int),
{
    let end_limit: usize = if record.len() - at < 400 {
        record.len()
    } else {
        at + 400
    };
    let mut end: usize = at;
    while end < end_limit && is_printable_ascii(record[end])
        invariant
            at <= end <= end_limit <= record@.len(),
            end_limit <= at + 400,
            end_limit == record@.len() || end_limit == at + 400,
            spec_printable_run(record@, at as int, at + 400) == (end - at) + spec_printable_run(
                record@,
                end as int,
                at + 400,
            ),
        decreases end_limit - end,
    {
        end += 1;
    }
    if end == at {
        return None;
    }
    let text = chars_string(slice_subrange(record, at, end));
    let trimmed = trim(text.as_str());
    let chars = string_chars(trimmed.as_str());
    if chars.len() > 30 && char_count(chars.as_slice(), '/') >= 3 {
        Some(trimmed)
    } else {
        None
    }
}

/// The command that a data block carries.
pub fn parse_data_block_for_command(record: &[u8]) -> (command: Option<String>)
    ensures
        spec_text_option(command) == spec_parse_data_block_for_command(record@),
{
    if record.len() <= 512 {
        return None;
    }
    let at = match find_within(record, &BACKUP_COMMAND_WORD, false, 1024) {
        Some(at) => at,
        None => {
            return None;
        },
    };
    proof {
        crate::bytes::lemma_find_is_first(record@, BACKUP_COMMAND_WORD@, false, 0, 1024);
    }
    match counted_command(record, at) {
        Some(command) => Some(command),
        None => printable_command(record, at),
    }
}

/// The command of the first label record, from `from` on, that carries one.
pub open spec fn spec_first_label_command(records: Seq<Seq<u8>>, from: int) -> Option<Seq<char>>
    decreases records.len() - from,
{
    if from < 0 || from >= records.len() {
        None
    } else if records[from].len() == LABEL_LENGTH && spec_parse_label_for_command(records[from]) is Some {
        spec_parse_label_for_command(records[from])
    } else {
        spec_first_label_command(records, from + 1)
    }
}

/// The command of the first data block, from `from` on, that carries one.
pub open spec fn spec_first_block_command(records: Seq<Seq<u8>>, from: int) -> Option<Seq<char>>
    decreases records.len() - from,
{
    if from < 0 || from >= records.len() {
        None
    } else if spec_parse_data_block_for_command(records[from]) is Some {
        spec_parse_data_block_for_command(records[from])
    } else {
        spec_first_block_command(records, from + 1)
    }
}

/// The command that the records carry: that of the first label record
/// that has one, else that of the first data block that has one.
pub open spec fn spec_extract_backup_command(records: Seq<Seq<u8>>) -> Option<Seq<char>> {
    match spec_first_label_command(records, 0) {
        Some(command) => Some(command),
        None => spec_first_block_command(records, 0),
    }
}

/// The command that the records carry.
pub fn extract_backup_command(records: &Vec<Vec<u8>>) -> (command: Option<String>)
    ensures
        spec_text_option(command) == spec_extract_backup_command(spec_payloads(records@)),
{
    let ghost all = spec_payloads(records@);
    let mut i: usize = 0;
    while i < records.len()
        invariant
            i <= records@.len(),
            all == spec_payloads(records@),
            spec_first_label_command(all, 0) == spec_first_label_command(all, i as int),
        decreases records@.len() - i,
    {
        assert(all[i as int] == records@[i as int]@);
        if records[i].len() == LABEL_LENGTH {
            match parse_label_for_command(records[i].as_slice()) {
                Some(command) => {
                    return Some(command);
                },
                None => {},
            }
        }
        i += 1;
    }
    let mut j: usize = 0;
    while j < records.len()
        invariant
            j <= records@.len(),
            all == spec_payloads(records@),
            spec_first_label_command(all, 0) is None,
            spec_first_block_command(all, 0) == spec_first_block_command(all, j as int),
        decreases records@.len() - j,
    {
        assert(all[j as int] == records@[j as int]@);
        match parse_data_block_for_command(records[j].as_slice()) {
            Some(command) => {
                return Some(command);
            },
            None => {},
        }
        j += 1;
    }
    None
}

} // verus!
