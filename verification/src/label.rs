//! The 80-byte labels of ANSI and ISO standard tapes.

use vstd::prelude::*;
use vstd::slice::slice_subrange;
use vstd::string::*;
use vstd::utf8::{decode_utf8, valid_utf8};
use crate::text::{
    spec_text_option, spec_trim, string_chars, string_from_chars, trim_bounds, utf8_string,
};

verus! {

/// How long a label is.
pub const LABEL_LENGTH: usize = 80;

/// A decoded label.
#[derive(Debug, Clone)]
pub enum AnsiLabel {
    Volume { serial: String, owner: String },
    FileHeader1 { file: String, file_set: String, created: String },
    FileHeader2 { record_format: String, block_len: String, record_len: String },
    EndOfFile { blocks: String, file: String },
    EndOfVolume { blocks: String, file: String },
    UserHeader { id: String, payload: String },
    UserTrailer { id: String },
    Raw(String),
}

/// A label as a value.
pub enum LabelModel {
    Volume { serial: Seq<char>, owner: Seq<char> },
    FileHeader1 { file: Seq<char>, file_set: Seq<char>, created: Seq<char> },
    FileHeader2 { record_format: Seq<char>, block_len: Seq<char>, record_len: Seq<char> },
    EndOfFile { blocks: Seq<char>, file: Seq<char> },
    EndOfVolume { blocks: Seq<char>, file: Seq<char> },
    UserHeader { id: Seq<char>, payload: Seq<char> },
    UserTrailer { id: Seq<char> },
    Raw(Seq<char>),
}

impl View for AnsiLabel {
    type V = LabelModel;

    open spec fn view(&self) -> LabelModel {
        match *self {
            AnsiLabel::Volume { serial, owner } => LabelModel::Volume { serial: serial@, owner: owner@ },
            AnsiLabel::FileHeader1 { file, file_set, created } => LabelModel::FileHeader1 {
                file: file@,
                file_set: file_set@,
                created: created@,
            },
            AnsiLabel::FileHeader2 { record_format, block_len, record_len } => LabelModel::FileHeader2 {
                record_format: record_format@,
                block_len: block_len@,
                record_len: record_len@,
            },
            AnsiLabel::EndOfFile { blocks, file } => LabelModel::EndOfFile { blocks: blocks@, file: file@ },
            AnsiLabel::EndOfVolume { blocks, file } => LabelModel::EndOfVolume {
                blocks: blocks@,
                file: file@,
            },
            AnsiLabel::UserHeader { id, payload } => LabelModel::UserHeader { id: id@, payload: payload@ },
            AnsiLabel::UserTrailer { id } => LabelModel::UserTrailer { id: id@ },
            AnsiLabel::Raw(id) => LabelModel::Raw(id@),
        }
    }
}

impl DeepView for AnsiLabel {
    type V = LabelModel;

    open spec fn deep_view(&self) -> LabelModel {
        self@
    }
}

impl LabelModel {
    /// The identifier of the label.
    pub open spec fn id(self) -> Seq<char> {
        match self {
            LabelModel::Volume { .. } => "VOL1"@,
            LabelModel::FileHeader1 { .. } => "HDR1"@,
            LabelModel::FileHeader2 { .. } => "HDR2"@,
            LabelModel::EndOfFile { .. } => "EOF1"@,
            LabelModel::EndOfVolume { .. } => "EOV1"@,
            LabelModel::UserHeader { id, .. } => id,
            LabelModel::UserTrailer { id } => id,
            LabelModel::Raw(id) => id,
        }
    }
}

impl AnsiLabel {
    /// The identifier of the label.
    pub fn id(&self) -> (id: &str)
        ensures
            id@ == self@.id(),
    {
        match self {
            AnsiLabel::Volume { .. } => "VOL1",
            AnsiLabel::FileHeader1 { .. } => "HDR1",
            AnsiLabel::FileHeader2 { .. } => "HDR2",
            AnsiLabel::EndOfFile { .. } => "EOF1",
            AnsiLabel::EndOfVolume { .. } => "EOV1",
            AnsiLabel::UserHeader { id, .. } => id.as_str(),
            AnsiLabel::UserTrailer { id } => id.as_str(),
            AnsiLabel::Raw(id) => id.as_str(),
        }
    }
}

/// The character that a byte of a field is shown as: itself where it is
/// ASCII, else a full stop.
pub open spec fn spec_field_char(b: u8) -> char {
    if b < 128 {
        b as char
    } else {
        '.'
    }
}

/// The text of a field: its bytes as characters, trimmed.
pub open spec fn spec_trim_ascii(bytes: Seq<u8>) -> Seq<char> {
    spec_trim(bytes.map_values(|b: u8| spec_field_char(b)))
}

/// The text of the field that runs from column `from` up to column `to`.
pub open spec fn spec_field(bytes: Seq<u8>, from: int, to: int) -> Seq<char> {
    spec_trim_ascii(bytes.subrange(from, to))
}

/// The identifier that the first four bytes spell, where they are UTF-8.
pub open spec fn spec_label_id(bytes: Seq<u8>) -> Option<Seq<char>> {
    if bytes.len() >= 4 && valid_utf8(bytes.subrange(0, 4)) {
        Some(spec_trim(decode_utf8(bytes.subrange(0, 4))))
    } else {
        None
    }
}

/// The label with the given identifier and the fields of `bytes`.
pub open spec fn spec_label_with_id(id: Seq<char>, bytes: Seq<u8>) -> LabelModel {
    if id == "VOL1"@ {
        LabelModel::Volume { serial: spec_field(bytes, 4, 10), owner: spec_field(bytes, 37, 51) }
    } else if id == "HDR1"@ {
        LabelModel::FileHeader1 {
            file: spec_field(bytes, 4, 21),
            file_set: spec_field(bytes, 21, 27),
            created: spec_field(bytes, 41, 47),
        }
    } else if id == "HDR2"@ {
        LabelModel::FileHeader2 {
            record_format: spec_field(bytes, 4, 5),
            block_len: spec_field(bytes, 5, 10),
            record_len: spec_field(bytes, 10, 15),
        }
    } else if id == "EOF1"@ {
        LabelModel::EndOfFile { file: spec_field(bytes, 4, 21), blocks: spec_field(bytes, 54, 60) }
    } else if id == "EOV1"@ {
        LabelModel::EndOfVolume { file: spec_field(bytes, 4, 21), blocks: spec_field(bytes, 54, 60) }
    } else if "UHL"@.is_prefix_of(id) {
        LabelModel::UserHeader { id, payload: spec_field(bytes, 4, 80) }
    } else if "UTL"@.is_prefix_of(id) {
        LabelModel::UserTrailer { id }
    } else {
        LabelModel::Raw(id)
    }
}

/// The label that a record of exactly 80 bytes holds; its first four bytes
/// must be UTF-8.
pub open spec fn spec_decode_ansi_label(bytes: Seq<u8>) -> Option<LabelModel> {
    if bytes.len() != LABEL_LENGTH {
        None
    } else {
        match spec_label_id(bytes) {
            None => None,
            Some(id) => Some(spec_label_with_id(id, bytes)),
        }
    }
}

/// The model of an optional label.
pub open spec fn spec_label_option(label: Option<AnsiLabel>) -> Option<LabelModel> {
    match label {
        Some(l) => Some(l@),
        None => None,
    }
}

/// The text of a field: its bytes as characters, a full stop for each byte
/// that is not ASCII, trimmed.
pub fn trim_ascii(bytes: &[u8]) -> (text: String)
    ensures
        text@ == spec_trim_ascii(bytes@),
{
    let mut chars: Vec<char> = Vec::new();
    let mut i: usize = 0;
    while i < bytes.len()
        invariant
            i <= bytes@.len(),
            chars@ == bytes@.take(i as int).map_values(|b: u8| spec_field_char(b)),
        decreases bytes@.len() - i,
    {
        let b: u8 = bytes[i];
        let c = if b < 128 {
            b as char
        } else {
            '.'
        };
        chars.push(c);
        i += 1;
        assert(chars@ =~= bytes@.take(i as int).map_values(|b: u8| spec_field_char(b)));
    }
    assert(bytes@.take(i as int) =~= bytes@);
    let (start, end) = trim_bounds(chars.as_slice());
    string_from_chars(chars.as_slice(), start, end)
}

fn field(bytes: &[u8], from: usize, to: usize) -> (text: String)
    requires
        from <= to <= bytes@.len(),
    ensures
        text@ == spec_field(bytes@, from as int, to as int),
{
    trim_ascii(slice_subrange(bytes, from, to))
}

/// Whether the text begins with the three given characters.
fn begins_with(text: &[char], a: char, b: char, c: char) -> (r: bool)
    ensures
        r == seq![a, b, c].is_prefix_of(text@),
{
    let r = text.len() >= 3 && text[0] == a && text[1] == b && text[2] == c;
    proof {
        if r {
            assert(text@.subrange(0, 3) =~= seq![a, b, c]);
        } else if text@.len() >= 3 {
            let head = text@.subrange(0, 3);
            assert(head[0] == text@[0] && head[1] == text@[1] && head[2] == text@[2]);
        }
    }
    r
}

/// The identifier that the first four bytes of a record spell.
pub fn label_id(bytes: &[u8]) -> (id: Option<String>)
    ensures
        spec_text_option(id) == spec_label_id(bytes@),
{
    if bytes.len() < 4 {
        return None;
    }
    match utf8_string(slice_subrange(bytes, 0, 4)) {
        None => None,
        Some(text) => {
            let chars = string_chars(text.as_str());
            let (start, end) = trim_bounds(chars.as_slice());
            Some(string_from_chars(chars.as_slice(), start, end))
        },
    }
}

/// Decodes a record of exactly 80 bytes as a label. A record of another
/// length holds no label, nor does one whose first four bytes are not UTF-8.
pub fn decode_ansi_label(bytes: &[u8]) -> (label: Option<AnsiLabel>)
    ensures
        spec_label_option(label) == spec_decode_ansi_label(bytes@),
{
    if bytes.len() != LABEL_LENGTH {
        return None;
    }
    let id = match label_id(bytes) {
        Some(id) => id,
        None => {
            return None;
        },
    };
    let id_chars = string_chars(id.as_str());
    proof {
        reveal_strlit("UHL");
        reveal_strlit("UTL");
        assert("UHL"@ =~= seq!['U', 'H', 'L']);
        assert("UTL"@ =~= seq!['U', 'T', 'L']);
    }
    if id == String::from_str("VOL1") {
        let serial = field(bytes, 4, 10);
        let owner = field(bytes, 37, 51);
        Some(AnsiLabel::Volume { serial, owner })
    } else if id == String::from_str("HDR1") {
        let file = field(bytes, 4, 21);
        let file_set = field(bytes, 21, 27);
        let created = field(bytes, 41, 47);
        Some(AnsiLabel::FileHeader1 { file, file_set, created })
    } else if id == String::from_str("HDR2") {
        let record_format = field(bytes, 4, 5);
        let block_len = field(bytes, 5, 10);
        let record_len = field(bytes, 10, 15);
        Some(AnsiLabel::FileHeader2 { record_format, block_len, record_len })
    } else if id == String::from_str("EOF1") {
        let file = field(bytes, 4, 21);
        let blocks = field(bytes, 54, 60);
        Some(AnsiLabel::EndOfFile { file, blocks })
    } else if id == String::from_str("EOV1") {
        let file = field(bytes, 4, 21);
        let blocks = field(bytes, 54, 60);
        Some(AnsiLabel::EndOfVolume { file, blocks })
    } else if begins_with(id_chars.as_slice(), 'U', 'H', 'L') {
        let payload = field(bytes, 4, 80);
        Some(AnsiLabel::UserHeader { id, payload })
    } else if begins_with(id_chars.as_slice(), 'U', 'T', 'L') {
        Some(AnsiLabel::UserTrailer { id })
    } else {
        Some(AnsiLabel::Raw(id))
    }
}

} // verus!
