//! What the encoder and the decoder owe each other.

use vstd::prelude::*;
use crate::error::{Failure, TapeErrorKind};
use crate::reader::{
    over_limit_failure, reachable, spec_next_block, spec_parse_marker, BlockModel, RecordModel,
    SimhTapeMark, SimhTapeRecordHeader,
};
use crate::word::{
    spec_class, spec_le_bytes, spec_value, spec_word, spec_word_at, END_OF_MEDIUM_WORD,
    ERASE_GAP_WORD, FORWARD_HALF_GAP_ILLEGAL_START, MAX_RECORD_LENGTH, PRIVATE_MARKER_CLASS,
    RESERVED_MARKER_CLASS, TAPE_MARK_WORD, VALUE_MASK,
};
use crate::writer::{spec_encode_private_marker, spec_encode_record, spec_record_bytes};

verus! {

/// A class whose words are data records, never markers.
pub open spec fn is_data_class(class: u8) -> bool {
    class <= 0xF && class != PRIVATE_MARKER_CLASS && class != RESERVED_MARKER_CLASS
}

/// The word stored at `pos` of a sequence that holds `spec_le_bytes(word)` there.
proof fn lemma_word_inside(bytes: Seq<u8>, pos: int, word: u32)
    requires
        0 <= pos,
        pos + 4 <= bytes.len(),
        bytes.subrange(pos, pos + 4) == spec_le_bytes(word),
    ensures
        spec_word_at(bytes, pos) == word,
{
    let part = bytes.subrange(pos, pos + 4);
    assert(part[0] == bytes[pos]);
    assert(part[1] == bytes[pos + 1]);
    assert(part[2] == bytes[pos + 2]);
    assert(part[3] == bytes[pos + 3]);
}

/// A record takes eight bytes of framing, its payload, and one pad byte
/// when the payload is odd.
pub proof fn lemma_record_size(word: u32, data: Seq<u8>)
    ensures
        spec_record_bytes(word, data).len() == 8 + data.len() + data.len() % 2,
{
}

/// Every record that the encoder accepts has that size.
pub proof fn lemma_encoded_size(class: u8, data: Seq<u8>)
    requires
        spec_encode_record(class, data) is Ok,
    ensures
        spec_encode_record(class, data)->Ok_0.len() == 8 + data.len() + data.len() % 2,
{
}

/// The encoder accepts exactly the classes up to 15 with payloads up to the
/// safety ceiling.
pub proof fn lemma_encoder_accepts(class: u8, data: Seq<u8>)
    ensures
        spec_encode_record(class, data) is Ok <==> class <= 0xF && data.len() <= MAX_RECORD_LENGTH,
        spec_encode_record(class, data) matches Err(e) ==> e.0 == TapeErrorKind::InvalidInput,
{
}

/// A record that stands anywhere in an image is decoded as it was
/// encoded, whatever stands before and behind it: with its offset, its
/// class, its length and its payload, and the decoder is left just behind
/// it. The payload must be within the decoder's limit; an empty payload of
/// class 0 is left out, since its length word is the tape mark.
#[verifier::rlimit(40)]
pub proof fn lemma_record_decodes_in_place(bytes: Seq<u8>, pos: nat, class: u8, data: Seq<u8>, limit: u32)
    requires
        is_data_class(class),
        data.len() <= limit,
        data.len() <= VALUE_MASK,
        class == 0 ==> data.len() > 0,
        pos + 8 + data.len() + data.len() % 2 <= bytes.len(),
        bytes.subrange(pos as int, pos as int + 8 + data.len() + data.len() % 2) == spec_record_bytes(
            spec_word(class, data.len() as u32),
            data,
        ),
    ensures
        ({
            let step = spec_next_block(bytes, limit, pos, false);
            &&& step.result == Ok::<BlockModel, Failure>(
                BlockModel::Record(
                    RecordModel {
                        header: SimhTapeRecordHeader {
                            offset: pos as u64,
                            class,
                            length: data.len() as u32,
                            trailing_length: Some(data.len() as u32),
                        },
                        data,
                    },
                ),
            )
            &&& step.pos == pos + 8 + data.len() + data.len() % 2
            &&& !step.pending_double
        }),
{
    let length = data.len() as u32;
    let word = spec_word(class, length);
    let padded: int = (data.len() + data.len() % 2) as int;
    let size: int = 8 + padded;
    let image = spec_record_bytes(word, data);
    let here = bytes.subrange(pos as int, pos + size);
    assert(spec_class(word) == class);
    assert(spec_value(word) == length);
    assert(bytes.subrange(pos as int, pos as int + 4) =~= here.subrange(0, 4));
    assert(image.subrange(0, 4) =~= spec_le_bytes(word));
    lemma_word_inside(bytes, pos as int, word);
    assert(bytes.subrange(pos + 4 + padded, pos + 8 + padded) =~= here.subrange(4 + padded, 8 + padded));
    assert(image.subrange(4 + padded, 8 + padded) =~= spec_le_bytes(word));
    lemma_word_inside(bytes, pos + 4 + padded, word);
    assert(bytes.subrange(pos as int + 4, pos as int + 4 + data.len()) =~= here.subrange(
        4,
        4 + data.len() as int,
    ));
    assert(image.subrange(4, 4 + data.len() as int) =~= data);
    assert(word != TAPE_MARK_WORD);
    assert(spec_parse_marker(word) == Ok::<Option<SimhTapeMark>, Failure>(None));
}

/// Encoding a record and decoding the result yields that record and then
/// the end of the stream. The payload must be within the decoder's limit
/// and the encoder's ceiling; an empty payload of class 0 is left out,
/// since its length word is the tape mark.
#[verifier::rlimit(40)]
pub proof fn lemma_round_trip(class: u8, data: Seq<u8>, limit: u32)
    requires
        is_data_class(class),
        data.len() <= limit,
        data.len() <= MAX_RECORD_LENGTH,
        class == 0 ==> data.len() > 0,
    ensures
        spec_encode_record(class, data) is Ok,
        ({
            let image = spec_encode_record(class, data)->Ok_0;
            let first = spec_next_block(image, limit, 0, false);
            let second = spec_next_block(image, limit, first.pos, first.pending_double);
            &&& first.result == Ok::<BlockModel, Failure>(
                BlockModel::Record(
                    RecordModel {
                        header: SimhTapeRecordHeader {
                            offset: 0,
                            class,
                            length: data.len() as u32,
                            trailing_length: Some(data.len() as u32),
                        },
                        data,
                    },
                ),
            )
            &&& first.pos == image.len()
            &&& !first.pending_double
            &&& second.result == Ok::<BlockModel, Failure>(BlockModel::EndOfStream)
            &&& second.pos == image.len()
        }),
{
    let length = data.len() as u32;
    let word = spec_word(class, length);
    let image = spec_record_bytes(word, data);
    let padded: int = (data.len() + data.len() % 2) as int;
    assert(spec_encode_record(class, data) == Ok::<Seq<u8>, Failure>(image));
    assert(spec_class(word) == class);
    assert(spec_value(word) == length);
    assert(image.subrange(0, 4) =~= spec_le_bytes(word));
    lemma_word_inside(image, 0, word);
    assert(image.subrange(4 + padded, 8 + padded) =~= spec_le_bytes(word));
    lemma_word_inside(image, 4 + padded, word);
    assert(image.subrange(4, 4 + data.len() as int) =~= data);
    assert(word != TAPE_MARK_WORD);
    assert(spec_parse_marker(word) == Ok::<Option<SimhTapeMark>, Failure>(None));
}

/// The words that begin the records and the private markers of the
/// encoder lie below the half-gap words: the encoder writes no half-gap,
/// legal or not, and no word of the reserved range above them.
pub proof fn lemma_encoder_writes_no_half_gap(class: u8, data: Seq<u8>, value: u32)
    ensures
        spec_encode_record(class, data) is Ok ==> spec_word(class, data.len() as u32)
            < FORWARD_HALF_GAP_ILLEGAL_START,
        spec_encode_private_marker(value) is Ok ==> spec_word(PRIVATE_MARKER_CLASS, value)
            < FORWARD_HALF_GAP_ILLEGAL_START,
{
}

/// The marker words of the encoder come back as the markers they stand
/// for: a tape mark with nothing behind it as a single tape mark, the end
/// of the medium, an erase gap, and a private marker with its value.
pub proof fn lemma_marker_round_trip(value: u32, limit: u32)
    requires
        value <= VALUE_MASK,
    ensures
        spec_next_block(spec_le_bytes(TAPE_MARK_WORD), limit, 0, false).result == Ok::<BlockModel, Failure>(
            BlockModel::TapeMark { offset: 0, kind: SimhTapeMark::Single },
        ),
        spec_next_block(spec_le_bytes(END_OF_MEDIUM_WORD), limit, 0, false).result == Ok::<
            BlockModel,
            Failure,
        >(BlockModel::TapeMark { offset: 0, kind: SimhTapeMark::EndOfTape }),
        spec_next_block(spec_le_bytes(ERASE_GAP_WORD), limit, 0, false).result == Ok::<BlockModel, Failure>(
            BlockModel::TapeMark { offset: 0, kind: SimhTapeMark::EraseGap },
        ),
        spec_encode_private_marker(value) matches Ok(image) && spec_next_block(image, limit, 0, false).result
            == Ok::<BlockModel, Failure>(
            BlockModel::TapeMark {
                offset: 0,
                kind: SimhTapeMark::Private { class: PRIVATE_MARKER_CLASS, value },
            },
        ),
{
    let word = spec_word(PRIVATE_MARKER_CLASS, value);
    assert(spec_class(word) == PRIVATE_MARKER_CLASS);
    assert(spec_value(word) == value);
    crate::word::lemma_le_bytes_round_trip(word);
    crate::word::lemma_le_bytes_round_trip(TAPE_MARK_WORD);
    crate::word::lemma_le_bytes_round_trip(END_OF_MEDIUM_WORD);
    crate::word::lemma_le_bytes_round_trip(ERASE_GAP_WORD);
}

/// Two tape-mark words in a row come out as a single and then a double
/// tape mark, each at its own offset.
pub proof fn lemma_double_mark(bytes: Seq<u8>, limit: u32, pos: nat)
    requires
        pos + 8 <= bytes.len(),
        spec_word_at(bytes, pos as int) == TAPE_MARK_WORD,
        spec_word_at(bytes, pos as int + 4) == TAPE_MARK_WORD,
    ensures
        ({
            let first = spec_next_block(bytes, limit, pos, false);
            let second = spec_next_block(bytes, limit, first.pos, first.pending_double);
            &&& first.result == Ok::<BlockModel, Failure>(
                BlockModel::TapeMark { offset: pos as u64, kind: SimhTapeMark::Single },
            )
            &&& first.pos == pos + 4
            &&& first.pending_double
            &&& second.result == Ok::<BlockModel, Failure>(
                BlockModel::TapeMark { offset: (pos + 4) as u64, kind: SimhTapeMark::Double },
            )
            &&& second.pos == pos + 8
            &&& !second.pending_double
        }),
{
}

/// A tape-mark word with another word behind it that is no tape mark
/// comes out as a single tape mark, and the decoder then stands at that
/// word with the flag clear: what follows is decoded as if it stood alone.
pub proof fn lemma_single_mark_keeps_follower(bytes: Seq<u8>, limit: u32, pos: nat)
    requires
        pos + 8 <= bytes.len(),
        spec_word_at(bytes, pos as int) == TAPE_MARK_WORD,
        spec_word_at(bytes, pos as int + 4) != TAPE_MARK_WORD,
    ensures
        ({
            let first = spec_next_block(bytes, limit, pos, false);
            &&& first.result == Ok::<BlockModel, Failure>(
                BlockModel::TapeMark { offset: pos as u64, kind: SimhTapeMark::Single },
            )
            &&& first.pos == pos + 4
            &&& !first.pending_double
        }),
{
}

/// A double tape mark is delivered only where two tape-mark words stand
/// side by side.
pub proof fn lemma_double_only_after_two_marks(bytes: Seq<u8>, limit: u32, pos: nat, pending: bool)
    requires
        reachable(bytes, pos, pending),
        spec_next_block(bytes, limit, pos, pending).result matches Ok(BlockModel::TapeMark { kind, .. })
            && kind == SimhTapeMark::Double,
    ensures
        4 <= pos,
        pos + 4 <= bytes.len(),
        spec_word_at(bytes, pos - 4) == TAPE_MARK_WORD,
        spec_word_at(bytes, pos as int) == TAPE_MARK_WORD,
{
}

/// The decoder stays within the states it can reach.
pub proof fn lemma_step_stays_reachable(bytes: Seq<u8>, limit: u32, pos: nat, pending: bool)
    requires
        reachable(bytes, pos, pending),
    ensures
        ({
            let step = spec_next_block(bytes, limit, pos, pending);
            &&& reachable(bytes, step.pos, step.pending_double)
            &&& pos <= step.pos
            &&& step.result is Ok && !(step.result->Ok_0 is EndOfStream) ==> pos + 4 <= step.pos
        }),
{
}

/// A data record whose leading word declares more than the safety limit is
/// refused as invalid data, and the decoder has read that word and no more.
pub proof fn lemma_safety_ceiling(bytes: Seq<u8>, limit: u32, pos: nat, pending: bool)
    requires
        pos + 4 <= bytes.len(),
        spec_word_at(bytes, pos as int) != TAPE_MARK_WORD,
        spec_parse_marker(spec_word_at(bytes, pos as int)) == Ok::<Option<SimhTapeMark>, Failure>(None),
        spec_value(spec_word_at(bytes, pos as int)) > limit,
    ensures
        ({
            let step = spec_next_block(bytes, limit, pos, pending);
            &&& step.result == Err::<BlockModel, Failure>(
                over_limit_failure(spec_value(spec_word_at(bytes, pos as int)), limit),
            )
            &&& step.result->Err_0.0 == TapeErrorKind::InvalidData
            &&& step.pos == pos + 4
        }),
{
}

/// Every record that the decoder yields is well formed: its payload has
/// the declared length, the length is within the limit, the trailing word
/// repeats the leading one, and on the medium it took its framing, its
/// payload and the pad of an odd payload.
pub proof fn lemma_decoded_record_well_formed(bytes: Seq<u8>, limit: u32, pos: nat, pending: bool)
    requires
        pos <= bytes.len(),
        spec_next_block(bytes, limit, pos, pending).result matches Ok(BlockModel::Record(_)),
    ensures
        ({
            let step = spec_next_block(bytes, limit, pos, pending);
            let record = step.result->Ok_0->Record_0;
            let length = record.header.length;
            &&& record.data.len() == length
            &&& length <= limit
            &&& record.header.class <= 0xF
            &&& record.header.offset == pos as u64
            &&& record.header.trailing_length == Some(length)
            &&& step.pos == pos + 8 + length + length % 2
            &&& spec_word_at(bytes, pos as int) == spec_word_at(bytes, step.pos - 4)
            &&& record.data == bytes.subrange(pos as int + 4, pos as int + 4 + length as int)
        }),
{
}

} // verus!
