//! The 32-bit SIMH word: a 4-bit class above a 28-bit value, stored
//! little-endian, and the sentinel words that stand for markers.

use vstd::prelude::*;
use vstd::string::*;
use crate::error::{outcome, Failure, TapeError, TapeErrorKind};
use crate::text::{hex_upper, spec_hex_upper};

verus! {

/// Safety ceiling on the length of a record, about 18 MiB.
pub const MAX_RECORD_LENGTH: u32 = 0x0120_0000;

/// Largest value that the low 28 bits of a word can hold.
pub const VALUE_MASK: u32 = 0x0FFF_FFFF;

/// Weight of the class nibble inside a word.
pub const CLASS_UNIT: u32 = 0x1000_0000;

/// The word that separates two files.
pub const TAPE_MARK_WORD: u32 = 0x0000_0000;

/// The word that stands for erased tape.
pub const ERASE_GAP_WORD: u32 = 0xFFFF_FFFE;

/// The word that ends the image.
pub const END_OF_MEDIUM_WORD: u32 = 0xFFFF_FFFF;

/// The one legal forward half-gap word.
pub const FORWARD_HALF_GAP_WORD: u32 = 0xFFFE_FFFF;

/// The first of the forward half-gap words that no image may hold.
pub const FORWARD_HALF_GAP_ILLEGAL_START: u32 = 0xFFFE_0000;

/// The last of the forward half-gap words that no image may hold.
pub const FORWARD_HALF_GAP_ILLEGAL_END: u32 = 0xFFFE_FFFE;

/// The first of the reverse half-gap words.
pub const REVERSE_HALF_GAP_START: u32 = 0xFFFF_0000;

/// The last of the reverse half-gap words.
pub const REVERSE_HALF_GAP_END: u32 = 0xFFFF_FFFD;

/// The class of private markers.
pub const PRIVATE_MARKER_CLASS: u8 = 0x7;

/// The class of reserved markers.
pub const RESERVED_MARKER_CLASS: u8 = 0xF;

/// The class of bad data records.
pub const BAD_DATA_CLASS: u8 = 0x8;

/// The word with the given class nibble and value.
pub open spec fn spec_word(class: u8, value: u32) -> u32
    recommends
        class <= 0xF,
        value <= VALUE_MASK,
{
    (class as int * CLASS_UNIT as int + value as int) as u32
}

/// The class nibble of a word.
pub open spec fn spec_class(word: u32) -> u8 {
    (word / CLASS_UNIT) as u8
}

/// The low 28 bits of a word.
pub open spec fn spec_value(word: u32) -> u32 {
    word % CLASS_UNIT
}

/// The four bytes of a word, least significant first.
pub open spec fn spec_le_bytes(word: u32) -> Seq<u8> {
    seq![
        (word % 256) as u8,
        (word / 256 % 256) as u8,
        (word / 65536 % 256) as u8,
        (word / 16777216) as u8,
    ]
}

/// The word that four bytes spell, least significant first.
pub open spec fn spec_from_le_bytes(b0: u8, b1: u8, b2: u8, b3: u8) -> u32 {
    (b0 as int + 256 * b1 as int + 65536 * b2 as int + 16777216 * b3 as int) as u32
}

/// The word stored at `pos` in `bytes`.
pub open spec fn spec_word_at(bytes: Seq<u8>, pos: int) -> u32
    recommends
        0 <= pos,
        pos + 4 <= bytes.len(),
{
    spec_from_le_bytes(bytes[pos], bytes[pos + 1], bytes[pos + 2], bytes[pos + 3])
}

/// What the encoder says of a class that does not fit in four bits.
pub open spec fn class_error_message(class: u8) -> Seq<char> {
    "SIMH class 0x"@ + spec_hex_upper(class as nat, 1) + " exceeds 4-bit limit"@
}

/// What the encoder says of a value that does not fit in 28 bits.
pub open spec fn value_error_message(value: u32) -> Seq<char> {
    "record length 0x"@ + spec_hex_upper(value as nat, 8) + " exceeds SIMH extended limit 0x"@
        + spec_hex_upper(VALUE_MASK as nat, 8)
}

/// What `encode_word` answers: the word, or which of its two limits is broken.
pub open spec fn spec_encode_word(class: u8, value: u32) -> Result<u32, Failure> {
    if class > 0xF {
        Err((TapeErrorKind::InvalidInput, class_error_message(class)))
    } else if value > VALUE_MASK {
        Err((TapeErrorKind::InvalidInput, value_error_message(value)))
    } else {
        Ok(spec_word(class, value))
    }
}

/// Packs a class and a value into a word; rejects a class above 15 and
/// a value above 28 bits.
pub fn encode_word(class: u8, value: u32) -> (r: Result<u32, TapeError>)
    ensures
        outcome(r) == spec_encode_word(class, value),
{
    if class > 0xF {
        let mut msg = String::from_str("SIMH class 0x");
        msg.append(hex_upper(class as u64, 1).as_str());
        msg.append(" exceeds 4-bit limit");
        return Err(TapeError::new(TapeErrorKind::InvalidInput, msg));
    }
    if value > VALUE_MASK {
        let mut msg = String::from_str("record length 0x");
        msg.append(hex_upper(value as u64, 8).as_str());
        msg.append(" exceeds SIMH extended limit 0x");
        msg.append(hex_upper(VALUE_MASK as u64, 8).as_str());
        return Err(TapeError::new(TapeErrorKind::InvalidInput, msg));
    }
    Ok(class as u32 * CLASS_UNIT + value)
}

/// Splits a word into its class nibble and its 28-bit value.
pub fn decode_word(word: u32) -> (r: (u8, u32))
    ensures
        r.0 == spec_class(word),
        r.1 == spec_value(word),
        r.0 <= 0xF,
        r.1 <= VALUE_MASK,
{
    ((word / CLASS_UNIT) as u8, word % CLASS_UNIT)
}

/// The four bytes of a word, least significant first.
pub fn le_bytes(word: u32) -> (r: [u8; 4])
    ensures
        r@ == spec_le_bytes(word),
{
    let r: [u8; 4] = [
        (word % 256) as u8,
        (word / 256 % 256) as u8,
        (word / 65536 % 256) as u8,
        (word / 16777216) as u8,
    ];
    assert(r@ =~= spec_le_bytes(word));
    r
}

/// Reads the word stored at `pos`.
pub fn word_at(bytes: &[u8], pos: usize) -> (w: u32)
    requires
        pos + 4 <= bytes@.len(),
    ensures
        w == spec_word_at(bytes@, pos as int),
{
    let b0: u32 = bytes[pos] as u32;
    let b1: u32 = bytes[pos + 1] as u32;
    let b2: u32 = bytes[pos + 2] as u32;
    let b3: u32 = bytes[pos + 3] as u32;
    b0 + 256 * b1 + 65536 * b2 + 16777216 * b3
}

/// A word survives the trip through its four bytes.
pub proof fn lemma_le_bytes_round_trip(word: u32)
    ensures
        spec_le_bytes(word).len() == 4,
        spec_word_at(spec_le_bytes(word), 0) == word,
{
}

/// Class and value survive the trip through a word.
pub proof fn lemma_word_round_trip(class: u8, value: u32)
    requires
        class <= 0xF,
        value <= VALUE_MASK,
    ensures
        spec_class(spec_word(class, value)) == class,
        spec_value(spec_word(class, value)) == value,
{
}

} // verus!
