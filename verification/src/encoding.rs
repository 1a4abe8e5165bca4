//! Sorting a record's bytes into encodings, and the preview of its start.

use vstd::prelude::*;
use vstd::string::*;
use crate::bytes::{count_in_class, spec_count, ByteClass};
use crate::text::{push_char, push_hex_byte, push_line, spec_hex_byte, spec_lines};

verus! {

/// What the bytes of a record look like.
#[derive(Debug, Clone, Copy, PartialEq, Eq, Hash, Structural)]
pub enum RecordEncoding {
    Empty,
    Ascii,
    MostlyAscii,
    Ansi,
    MostlyAnsi,
    Binary,
}

impl Default for RecordEncoding {
    fn default() -> (r: Self)
        ensures
            r == RecordEncoding::Binary,
    {
        RecordEncoding::Binary
    }
}

/// How many bytes of a record the preview shows.
pub const PREVIEW_BYTES: usize = 64;

/// How many bytes a line of the preview shows.
pub const PREVIEW_LINE_BYTES: usize = 16;

/// The encoding of a record. With `printable` the number of its bytes
/// that are printable ASCII or above 127, and `extended` the number of
/// those above 127: more than 95 in 100 printable makes it ASCII, or ANSI
/// where 5 in 100 of the printable ones or more are extended; more than
/// 70 in 100 makes it mostly so; anything else is binary.
pub open spec fn spec_classify_encoding(data: Seq<u8>) -> RecordEncoding {
    let printable = spec_count(data, ByteClass::Printable);
    let extended = spec_count(data, ByteClass::Extended);
    let few_extended = printable == 0 || 100 * extended < 5 * printable;
    if data.len() == 0 {
        RecordEncoding::Empty
    } else if 100 * printable > 95 * data.len() {
        if few_extended {
            RecordEncoding::Ascii
        } else {
            RecordEncoding::Ansi
        }
    } else if 100 * printable > 70 * data.len() {
        if few_extended {
            RecordEncoding::MostlyAscii
        } else {
            RecordEncoding::MostlyAnsi
        }
    } else {
        RecordEncoding::Binary
    }
}

/// The encoding of a record.
pub fn classify_encoding(data: &[u8]) -> (encoding: RecordEncoding)
    ensures
        encoding == spec_classify_encoding(data@),
{
    if data.len() == 0 {
        return RecordEncoding::Empty;
    }
    let printable: u128 = count_in_class(data, ByteClass::Printable) as u128;
    let extended: u128 = count_in_class(data, ByteClass::Extended) as u128;
    let total: u128 = data.len() as u128;
    let few_extended = printable == 0 || 100 * extended < 5 * printable;
    if 100 * printable > 95 * total {
        if few_extended {
            RecordEncoding::Ascii
        } else {
            RecordEncoding::Ansi
        }
    } else if 100 * printable > 70 * total {
        if few_extended {
            RecordEncoding::MostlyAscii
        } else {
            RecordEncoding::MostlyAnsi
        }
    } else {
        RecordEncoding::Binary
    }
}

/// The name of an encoding in running text.
pub open spec fn spec_encoding_label(encoding: RecordEncoding) -> Seq<char> {
    match encoding {
        RecordEncoding::Empty => "empty"@,
        RecordEncoding::Ascii => "ASCII"@,
        RecordEncoding::MostlyAscii => "mostly ASCII"@,
        RecordEncoding::Ansi => "ANSI/Extended ASCII"@,
        RecordEncoding::MostlyAnsi => "mostly ANSI"@,
        RecordEncoding::Binary => "binary"@,
    }
}

/// The name of an encoding in running text.
pub fn encoding_label(encoding: RecordEncoding) -> (label: &'static str)
    ensures
        label@ == spec_encoding_label(encoding),
{
    match encoding {
        RecordEncoding::Empty => "empty",
        RecordEncoding::Ascii => "ASCII",
        RecordEncoding::MostlyAscii => "mostly ASCII",
        RecordEncoding::Ansi => "ANSI/Extended ASCII",
        RecordEncoding::MostlyAnsi => "mostly ANSI",
        RecordEncoding::Binary => "binary",
    }
}

/// The name of an encoding as a report prints it in brackets.
pub open spec fn spec_encoding_name(encoding: RecordEncoding) -> Seq<char> {
    match encoding {
        RecordEncoding::Empty => "Empty"@,
        RecordEncoding::Ascii => "Ascii"@,
        RecordEncoding::MostlyAscii => "MostlyAscii"@,
        RecordEncoding::Ansi => "Ansi"@,
        RecordEncoding::MostlyAnsi => "MostlyAnsi"@,
        RecordEncoding::Binary => "Binary"@,
    }
}

/// The name of an encoding as a report prints it in brackets.
pub fn encoding_name(encoding: RecordEncoding) -> (name: &'static str)
    ensures
        name@ == spec_encoding_name(encoding),
{
    match encoding {
        RecordEncoding::Empty => "Empty",
        RecordEncoding::Ascii => "Ascii",
        RecordEncoding::MostlyAscii => "MostlyAscii",
        RecordEncoding::Ansi => "Ansi",
        RecordEncoding::MostlyAnsi => "MostlyAnsi",
        RecordEncoding::Binary => "Binary",
    }
}

/// The first bytes of a record, in hexadecimal and as text.
#[derive(Debug, Clone)]
pub struct RecordPreview {
    pub hex_lines: Vec<String>,
    pub text_lines: Vec<String>,
    pub previewed_bytes: usize,
}

/// A preview as a value.
pub struct PreviewModel {
    pub hex_lines: Seq<Seq<char>>,
    pub text_lines: Seq<Seq<char>>,
    pub previewed_bytes: nat,
}

impl View for RecordPreview {
    type V = PreviewModel;

    open spec fn view(&self) -> PreviewModel {
        PreviewModel {
            hex_lines: spec_lines(self.hex_lines@),
            text_lines: spec_lines(self.text_lines@),
            previewed_bytes: self.previewed_bytes as nat,
        }
    }
}

impl Default for RecordPreview {
    fn default() -> (r: Self)
        ensures
            r@ == spec_empty_preview(),
    {
        let r = RecordPreview { hex_lines: Vec::new(), text_lines: Vec::new(), previewed_bytes: 0 };
        assert(r@.hex_lines =~= Seq::<Seq<char>>::empty());
        assert(r@.text_lines =~= Seq::<Seq<char>>::empty());
        r
    }
}

/// The preview of nothing.
pub open spec fn spec_empty_preview() -> PreviewModel {
    PreviewModel {
        hex_lines: Seq::<Seq<char>>::empty(),
        text_lines: Seq::<Seq<char>>::empty(),
        previewed_bytes: 0,
    }
}

/// Whether the text of a record of this encoding is shown.
pub open spec fn spec_shows_text(encoding: RecordEncoding) -> bool {
    encoding == RecordEncoding::Ascii || encoding == RecordEncoding::MostlyAscii || encoding
        == RecordEncoding::Ansi || encoding == RecordEncoding::MostlyAnsi
}

/// Whether the bytes above 127 of a record of this encoding are shown as
/// characters.
pub open spec fn spec_shows_extended(encoding: RecordEncoding) -> bool {
    encoding == RecordEncoding::Ansi || encoding == RecordEncoding::MostlyAnsi
}

/// The character that stands for a byte in the text of a preview: a space
/// for tab, line feed and carriage return, the character itself where it
/// is printable, a full stop for anything else.
pub open spec fn spec_preview_char(b: u8, extended: bool) -> char {
    if b == 9 || b == 10 || b == 13 {
        ' '
    } else if 32 <= b <= 126 {
        b as char
    } else if b >= 128 && extended {
        b as char
    } else {
        '.'
    }
}

/// The bytes of a chunk in hexadecimal, a space between each two.
pub open spec fn spec_hex_row(chunk: Seq<u8>) -> Seq<char>
    decreases chunk.len(),
{
    if chunk.len() == 0 {
        Seq::<char>::empty()
    } else if chunk.len() == 1 {
        spec_hex_byte(chunk[0])
    } else {
        spec_hex_row(chunk.drop_last()) + seq![' '] + spec_hex_byte(chunk.last())
    }
}

/// The hexadecimal line of a chunk.
pub open spec fn spec_hex_line(chunk: Seq<u8>) -> Seq<char> {
    "    Hex:  "@ + spec_hex_row(chunk)
}

/// The text line of a chunk.
pub open spec fn spec_text_line(chunk: Seq<u8>, encoding: RecordEncoding) -> Seq<char> {
    if spec_shows_text(encoding) {
        "    Text: "@ + chunk.map_values(|b: u8| spec_preview_char(b, spec_shows_extended(encoding)))
    } else {
        "    Text: (binary)"@
    }
}

/// How many bytes of a record of `len` bytes the preview shows.
pub open spec fn spec_preview_limit(len: nat) -> nat {
    if len < PREVIEW_BYTES {
        len
    } else {
        PREVIEW_BYTES as nat
    }
}

/// The chunk that line `k` of the preview shows.
pub open spec fn spec_preview_chunk(data: Seq<u8>, k: int) -> Seq<u8> {
    let limit = spec_preview_limit(data.len()) as int;
    let start = k * PREVIEW_LINE_BYTES as int;
    let end = if start + PREVIEW_LINE_BYTES as int <= limit {
        start + PREVIEW_LINE_BYTES as int
    } else {
        limit
    };
    data.subrange(start, end)
}

/// How many lines the preview of a record of `len` bytes has.
pub open spec fn spec_preview_rows(len: nat) -> nat {
    ((spec_preview_limit(len) + PREVIEW_LINE_BYTES - 1) / PREVIEW_LINE_BYTES as int) as nat
}

/// The preview of a record: its first 64 bytes, 16 to a line, each line
/// once in hexadecimal and once as text.
pub open spec fn spec_build_preview(data: Seq<u8>, encoding: RecordEncoding) -> PreviewModel {
    PreviewModel {
        hex_lines: Seq::new(
            spec_preview_rows(data.len()),
            |k: int| spec_hex_line(spec_preview_chunk(data, k)),
        ),
        text_lines: Seq::new(
            spec_preview_rows(data.len()),
            |k: int| spec_text_line(spec_preview_chunk(data, k), encoding),
        ),
        previewed_bytes: spec_preview_limit(data.len()),
    }
}

fn preview_char(b: u8, extended: bool) -> (c: char)
    ensures
        c == spec_preview_char(b, extended),
{
    if b == 9 || b == 10 || b == 13 {
        ' '
    } else if 32 <= b && b <= 126 {
        b as char
    } else if b >= 128 && extended {
        b as char
    } else {
        '.'
    }
}

fn hex_line(data: &[u8], start: usize, end: usize) -> (line: String)
    requires
        start <= end <= data@.len(),
    ensures
        line@ == spec_hex_line(data@.subrange(start as int, end as int)),
{
    let mut line = String::from_str("    Hex:  ");
    let ghost chunk = data@.subrange(start as int, end as int);
    let mut i: usize = start;
    assert(chunk.take(0) =~= Seq::<u8>::empty());
    while i < end
        invariant
            start <= i <= end <= data@.len(),
            chunk == data@.subrange(start as int, end as int),
            line@ == "    Hex:  "@ + spec_hex_row(chunk.take(i - start)),
        decreases end - i,
    {
        if i > start {
            push_char(&mut line, ' ');
        }
        push_hex_byte(&mut line, data[i]);
        proof {
            let before = chunk.take(i - start);
            let after = chunk.take(i - start + 1);
            assert(after.drop_last() =~= before);
            assert(after.last() == data@[i as int]);
            assert(line@ =~= "    Hex:  "@ + spec_hex_row(after));
        }
        i += 1;
    }
    assert(chunk.take(end - start) =~= chunk);
    line
}

fn text_line(data: &[u8], start: usize, end: usize, encoding: RecordEncoding) -> (line: String)
    requires
        start <= end <= data@.len(),
    ensures
        line@ == spec_text_line(data@.subrange(start as int, end as int), encoding),
{
    let shows_text = match encoding {
        RecordEncoding::Ascii | RecordEncoding::MostlyAscii | RecordEncoding::Ansi | RecordEncoding::MostlyAnsi => true,
        _ => false,
    };
    if !shows_text {
        return String::from_str("    Text: (binary)");
    }
    let extended = match encoding {
        RecordEncoding::Ansi | RecordEncoding::MostlyAnsi => true,
        _ => false,
    };
    let mut line = String::from_str("    Text: ");
    let ghost chunk = data@.subrange(start as int, end as int);
    let mut i: usize = start;
    while i < end
        invariant
            start <= i <= end <= data@.len(),
            chunk == data@.subrange(start as int, end as int),
            extended == spec_shows_extended(encoding),
            line@ == "    Text: "@ + chunk.take(i - start).map_values(
                |b: u8| spec_preview_char(b, spec_shows_extended(encoding)),
            ),
        decreases end - i,
    {
        push_char(&mut line, preview_char(data[i], extended));
        i += 1;
        assert(line@ =~= "    Text: "@ + chunk.take(i - start).map_values(
            |b: u8| spec_preview_char(b, spec_shows_extended(encoding)),
        ));
    }
    assert(chunk.take(end - start) =~= chunk);
    line
}

/// The preview of a record.
pub fn build_preview(data: &[u8], encoding: RecordEncoding) -> (preview: RecordPreview)
    ensures
        preview@ == spec_build_preview(data@, encoding),
{
    let mut preview = RecordPreview::default();
    let limit: usize = if data.len() < PREVIEW_BYTES {
        data.len()
    } else {
        PREVIEW_BYTES
    };
    let mut start: usize = 0;
    let mut rows: usize = 0;
    while start < limit
        invariant
            limit == spec_preview_limit(data@.len()),
            limit <= data@.len(),
            start == rows * PREVIEW_LINE_BYTES || start == limit,
            start <= limit,
            rows <= spec_preview_rows(data@.len()),
            start == limit ==> rows == spec_preview_rows(data@.len()),
            spec_lines(preview.hex_lines@) == Seq::new(
                rows as nat,
                |k: int| spec_hex_line(spec_preview_chunk(data@, k)),
            ),
            spec_lines(preview.text_lines@) == Seq::new(
                rows as nat,
                |k: int| spec_text_line(spec_preview_chunk(data@, k), encoding),
            ),
        decreases limit - start,
    {
        let end: usize = if limit - start < PREVIEW_LINE_BYTES {
            limit
        } else {
            start + PREVIEW_LINE_BYTES
        };
        assert(data@.subrange(start as int, end as int) == spec_preview_chunk(data@, rows as int));
        push_line(&mut preview.hex_lines, hex_line(data, start, end));
        push_line(&mut preview.text_lines, text_line(data, start, end, encoding));
        rows += 1;
        start = end;
        assert(spec_lines(preview.hex_lines@) =~= Seq::new(
            rows as nat,
            |k: int| spec_hex_line(spec_preview_chunk(data@, k)),
        ));
        assert(spec_lines(preview.text_lines@) =~= Seq::new(
            rows as nat,
            |k: int| spec_text_line(spec_preview_chunk(data@, k), encoding),
        ));
    }
    preview.previewed_bytes = limit;
    preview
}

} // verus!
