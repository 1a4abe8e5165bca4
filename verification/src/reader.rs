//! The decoder: it walks a tape image and yields its records and markers.

use vstd::prelude::*;
use vstd::slice::{slice_subrange, slice_to_vec};
use vstd::string::*;
use crate::error::{outcome, Failure, TapeError, TapeErrorKind};
use crate::text::{hex_upper, spec_hex_upper};
use crate::word::{
    decode_word, spec_class, spec_value, spec_word_at, word_at, END_OF_MEDIUM_WORD,
    ERASE_GAP_WORD, FORWARD_HALF_GAP_ILLEGAL_END, FORWARD_HALF_GAP_ILLEGAL_START,
    FORWARD_HALF_GAP_WORD, MAX_RECORD_LENGTH, PRIVATE_MARKER_CLASS, RESERVED_MARKER_CLASS,
    REVERSE_HALF_GAP_END, REVERSE_HALF_GAP_START, TAPE_MARK_WORD, VALUE_MASK,
};

verus! {

/// What a marker word stands for.
#[derive(Debug, Clone, Copy, PartialEq, Eq, Structural)]
pub enum SimhTapeMark {
    Single,
    Double,
    EndOfTape,
    EraseGap,
    HalfGapForward,
    HalfGapReverse,
    Private { class: u8, value: u32 },
    Reserved { class: u8, value: u32 },
}

/// Where a record stands and what its two length words say.
#[derive(Debug, Clone, Copy)]
pub struct SimhTapeRecordHeader {
    pub offset: u64,
    pub class: u8,
    pub length: u32,
    pub trailing_length: Option<u32>,
}

/// A decoded record; it owns its payload.
#[derive(Debug, Clone)]
pub struct SimhTapeRecord {
    pub header: SimhTapeRecordHeader,
    pub data: Vec<u8>,
}

/// One item of the decoded stream.
#[derive(Debug)]
pub enum SimhTapeBlock {
    Record(SimhTapeRecord),
    TapeMark { offset: u64, kind: SimhTapeMark },
    EndOfStream,
}

/// A record as a value: its header and its payload.
pub struct RecordModel {
    pub header: SimhTapeRecordHeader,
    pub data: Seq<u8>,
}

/// An item of the decoded stream as a value.
pub enum BlockModel {
    Record(RecordModel),
    TapeMark { offset: u64, kind: SimhTapeMark },
    EndOfStream,
}

impl View for SimhTapeRecord {
    type V = RecordModel;

    open spec fn view(&self) -> RecordModel {
        RecordModel { header: self.header, data: self.data@ }
    }
}

impl View for SimhTapeBlock {
    type V = BlockModel;

    open spec fn view(&self) -> BlockModel {
        match *self {
            SimhTapeBlock::Record(record) => BlockModel::Record(record@),
            SimhTapeBlock::TapeMark { offset, kind } => BlockModel::TapeMark { offset, kind },
            SimhTapeBlock::EndOfStream => BlockModel::EndOfStream,
        }
    }
}

/// The image ends inside a word.
pub open spec fn truncated_word_failure() -> Failure {
    (TapeErrorKind::UnexpectedEof, "truncated SIMH word"@)
}

/// The image ends inside the payload of a record, or before its pad byte.
pub open spec fn short_payload_failure() -> Failure {
    (TapeErrorKind::UnexpectedEof, "failed to fill whole buffer"@)
}

/// The image ends where the trailing word of a record should stand.
pub open spec fn missing_trailer_failure() -> Failure {
    (TapeErrorKind::UnexpectedEof, "missing trailing record length"@)
}

/// A record declares more bytes than the safety limit allows.
pub open spec fn over_limit_failure(length: u32, limit: u32) -> Failure {
    (
        TapeErrorKind::InvalidData,
        "record length 0x"@ + spec_hex_upper(length as nat, 8) + " exceeds SIMH safety ceiling (0x"@
            + spec_hex_upper(limit as nat, 8) + ")"@,
    )
}

/// The trailing word of a record differs from its leading word.
pub open spec fn mismatch_failure(trailing: u32, leading: u32) -> Failure {
    (
        TapeErrorKind::InvalidData,
        "trailing length 0x"@ + spec_hex_upper(trailing as nat, 8)
            + " does not match leading length 0x"@ + spec_hex_upper(leading as nat, 8),
    )
}

/// A forward half-gap word other than the one legal one.
pub open spec fn illegal_half_gap_failure(word: u32) -> Failure {
    (
        TapeErrorKind::InvalidData,
        "illegal forward half-gap marker 0x"@ + spec_hex_upper(word as nat, 8),
    )
}

/// The outcome of reading one word at `pos`, and the position after it:
/// nothing at the end of the image, a failure inside its last three bytes.
pub open spec fn spec_read_word(bytes: Seq<u8>, pos: nat) -> (Result<Option<u32>, Failure>, nat) {
    if pos >= bytes.len() {
        (Ok(None), pos)
    } else if bytes.len() - pos < 4 {
        (Err(truncated_word_failure()), bytes.len())
    } else {
        (Ok(Some(spec_word_at(bytes, pos as int))), pos + 4)
    }
}

/// The marker that a word other than the tape mark stands for, if any;
/// an illegal forward half-gap is a failure.
pub open spec fn spec_parse_marker(raw: u32) -> Result<Option<SimhTapeMark>, Failure> {
    if raw == END_OF_MEDIUM_WORD {
        Ok(Some(SimhTapeMark::EndOfTape))
    } else if raw == ERASE_GAP_WORD {
        Ok(Some(SimhTapeMark::EraseGap))
    } else if raw == FORWARD_HALF_GAP_WORD {
        Ok(Some(SimhTapeMark::HalfGapForward))
    } else if FORWARD_HALF_GAP_ILLEGAL_START <= raw <= FORWARD_HALF_GAP_ILLEGAL_END {
        Err(illegal_half_gap_failure(raw))
    } else if REVERSE_HALF_GAP_START <= raw <= REVERSE_HALF_GAP_END {
        Ok(Some(SimhTapeMark::HalfGapReverse))
    } else if spec_class(raw) == PRIVATE_MARKER_CLASS {
        Ok(Some(SimhTapeMark::Private { class: spec_class(raw), value: spec_value(raw) }))
    } else if spec_class(raw) == RESERVED_MARKER_CLASS {
        Ok(Some(SimhTapeMark::Reserved { class: spec_class(raw), value: spec_value(raw) }))
    } else {
        Ok(None)
    }
}

/// One step of the decoder: what it yields, and the state it is left in.
pub struct Step {
    pub result: Result<BlockModel, Failure>,
    pub pos: nat,
    pub pending_double: bool,
}

/// The step taken once a tape-mark word at `offset` has been consumed and
/// the decoder stands at `pos`, just behind it.
pub open spec fn spec_tape_mark_step(bytes: Seq<u8>, offset: u64, pos: nat, pending: bool) -> Step {
    if pending {
        Step {
            result: Ok(BlockModel::TapeMark { offset, kind: SimhTapeMark::Double }),
            pos,
            pending_double: false,
        }
    } else {
        match spec_read_word(bytes, pos) {
            (Err(e), end) => Step { result: Err(e), pos: end, pending_double: false },
            (Ok(next), _) => Step {
                result: Ok(BlockModel::TapeMark { offset, kind: SimhTapeMark::Single }),
                pos,
                pending_double: next == Some(TAPE_MARK_WORD),
            },
        }
    }
}

/// The step taken once the leading word of a data record at `offset` has
/// been consumed and the decoder stands at `pos`, at its payload.
pub open spec fn spec_record_step(
    bytes: Seq<u8>,
    limit: u32,
    offset: u64,
    word: u32,
    pos: nat,
    pending: bool,
) -> Step {
    let length = spec_value(word);
    let padded = length + length % 2;
    if length > limit {
        Step { result: Err(over_limit_failure(length, limit)), pos, pending_double: pending }
    } else if bytes.len() - pos < padded {
        Step { result: Err(short_payload_failure()), pos: bytes.len(), pending_double: pending }
    } else {
        match spec_read_word(bytes, (pos + padded) as nat) {
            (Err(e), end) => Step { result: Err(e), pos: end, pending_double: pending },
            (Ok(None), end) => Step {
                result: Err(missing_trailer_failure()),
                pos: end,
                pending_double: pending,
            },
            (Ok(Some(trailing)), end) => if trailing != word {
                Step { result: Err(mismatch_failure(trailing, word)), pos: end, pending_double: pending }
            } else {
                Step {
                    result: Ok(
                        BlockModel::Record(
                            RecordModel {
                                header: SimhTapeRecordHeader {
                                    offset,
                                    class: spec_class(word),
                                    length,
                                    trailing_length: Some(length),
                                },
                                data: bytes.subrange(pos as int, pos + length),
                            },
                        ),
                    ),
                    pos: end,
                    pending_double: pending,
                }
            },
        }
    }
}

/// One step of the decoder from position `pos`, with the pending-double
/// flag `pending` and the safety limit `limit`.
pub open spec fn spec_next_block(bytes: Seq<u8>, limit: u32, pos: nat, pending: bool) -> Step {
    let offset = pos as u64;
    match spec_read_word(bytes, pos) {
        (Err(e), end) => Step { result: Err(e), pos: end, pending_double: pending },
        (Ok(None), end) => Step { result: Ok(BlockModel::EndOfStream), pos: end, pending_double: pending },
        (Ok(Some(word)), end) => if word == TAPE_MARK_WORD {
            spec_tape_mark_step(bytes, offset, end, pending)
        } else {
            match spec_parse_marker(word) {
                Err(e) => Step { result: Err(e), pos: end, pending_double: pending },
                Ok(Some(kind)) => Step {
                    result: Ok(BlockModel::TapeMark { offset, kind }),
                    pos: end,
                    pending_double: pending,
                },
                Ok(None) => spec_record_step(bytes, limit, offset, word, end, pending),
            }
        },
    }
}

/// The states a decoder can be in: inside the image, and with the flag set
/// only between the two words of a double tape mark.
pub open spec fn reachable(bytes: Seq<u8>, pos: nat, pending: bool) -> bool {
    &&& pos <= bytes.len()
    &&& pending ==> {
        &&& 4 <= pos
        &&& pos + 4 <= bytes.len()
        &&& spec_word_at(bytes, pos - 4) == TAPE_MARK_WORD
        &&& spec_word_at(bytes, pos as int) == TAPE_MARK_WORD
    }
}

/// What `next_block` hands back, as a value.
pub open spec fn block_outcome(r: Result<SimhTapeBlock, TapeError>) -> Result<BlockModel, Failure> {
    match r {
        Ok(block) => Ok(block@),
        Err(e) => Err((e.kind, e.message@)),
    }
}

fn failure(kind: TapeErrorKind, message: &str) -> (e: TapeError)
    ensures
        e.kind == kind,
        e.message@ == message@,
{
    TapeError::new(kind, String::from_str(message))
}

fn try_parse_marker(raw: u32) -> (r: Result<Option<SimhTapeMark>, TapeError>)
    ensures
        outcome(r) == spec_parse_marker(raw),
{
    if raw == END_OF_MEDIUM_WORD {
        return Ok(Some(SimhTapeMark::EndOfTape));
    }
    if raw == ERASE_GAP_WORD {
        return Ok(Some(SimhTapeMark::EraseGap));
    }
    if raw == FORWARD_HALF_GAP_WORD {
        return Ok(Some(SimhTapeMark::HalfGapForward));
    }
    if FORWARD_HALF_GAP_ILLEGAL_START <= raw && raw <= FORWARD_HALF_GAP_ILLEGAL_END {
        let mut msg = String::from_str("illegal forward half-gap marker 0x");
        msg.append(hex_upper(raw as u64, 8).as_str());
        return Err(TapeError::new(TapeErrorKind::InvalidData, msg));
    }
    if REVERSE_HALF_GAP_START <= raw && raw <= REVERSE_HALF_GAP_END {
        return Ok(Some(SimhTapeMark::HalfGapReverse));
    }
    let (class, value) = decode_word(raw);
    if class == PRIVATE_MARKER_CLASS {
        return Ok(Some(SimhTapeMark::Private { class, value }));
    }
    if class == RESERVED_MARKER_CLASS {
        return Ok(Some(SimhTapeMark::Reserved { class, value }));
    }
    Ok(None)
}

/// Reads a SIMH tape image held in memory, block by block.
pub struct SimhTapeReader<'a> {
    reader: &'a [u8],
    pos: usize,
    safety_limit: u32,
    pending_double: bool,
}

impl<'a> SimhTapeReader<'a> {
    /// The image.
    pub closed spec fn bytes(&self) -> Seq<u8> {
        self.reader@
    }

    /// Where the next block starts.
    pub closed spec fn position(&self) -> nat {
        self.pos as nat
    }

    /// The longest record that the decoder accepts.
    pub closed spec fn safety_limit(&self) -> u32 {
        self.safety_limit
    }

    /// Whether the tape mark just delivered has a second one behind it.
    pub closed spec fn pending_double(&self) -> bool {
        self.pending_double
    }

    /// The decoder is in a state that it can reach from the start of its image.
    pub open spec fn wf(&self) -> bool {
        &&& reachable(self.bytes(), self.position(), self.pending_double())
        &&& self.safety_limit() <= VALUE_MASK
    }

    /// A decoder at the start of `reader`, with the default safety limit.
    pub fn new(reader: &'a [u8]) -> (r: Self)
        ensures
            r.wf(),
            r.bytes() == reader@,
            r.position() == 0,
            r.safety_limit() == MAX_RECORD_LENGTH,
            !r.pending_double(),
    {
        Self { reader, pos: 0, safety_limit: MAX_RECORD_LENGTH, pending_double: false }
    }

    /// The same decoder with another safety limit, at most 28 bits wide.
    pub fn with_limit(self, limit: u32) -> (r: Self)
        requires
            self.wf(),
        ensures
            r.wf(),
            r.bytes() == self.bytes(),
            r.position() == self.position(),
            r.pending_double() == self.pending_double(),
            r.safety_limit() == if limit <= VALUE_MASK { limit } else { VALUE_MASK },
    {
        let mut r = self;
        r.safety_limit = if limit <= VALUE_MASK { limit } else { VALUE_MASK };
        r
    }

    fn read_word(&mut self) -> (r: Result<Option<u32>, TapeError>)
        requires
            old(self).position() <= old(self).bytes().len(),
        ensures
            final(self).bytes() == old(self).bytes(),
            final(self).safety_limit() == old(self).safety_limit(),
            final(self).pending_double() == old(self).pending_double(),
            (outcome(r), final(self).position()) == spec_read_word(old(self).bytes(), old(self).position()),
    {
        let remaining: usize = self.reader.len() - self.pos;
        if remaining == 0 {
            return Ok(None);
        }
        if remaining < 4 {
            self.pos = self.reader.len();
            return Err(failure(TapeErrorKind::UnexpectedEof, "truncated SIMH word"));
        }
        let word = word_at(self.reader, self.pos);
        self.pos = self.pos + 4;
        Ok(Some(word))
    }

    fn ensure_length_within_bounds(&self, length: u32) -> (r: Result<(), TapeError>)
        ensures
            outcome(r) == if length > self.safety_limit() {
                Err::<(), Failure>(over_limit_failure(length, self.safety_limit()))
            } else {
                Ok::<(), Failure>(())
            },
    {
        if length > self.safety_limit {
            let mut msg = String::from_str("record length 0x");
            msg.append(hex_upper(length as u64, 8).as_str());
            msg.append(" exceeds SIMH safety ceiling (0x");
            msg.append(hex_upper(self.safety_limit as u64, 8).as_str());
            msg.append(")");
            return Err(TapeError::new(TapeErrorKind::InvalidData, msg));
        }
        Ok(())
    }

    fn consume_tape_mark_kind(&mut self, Ghost(offset): Ghost<u64>) -> (r: Result<SimhTapeMark, TapeError>)
        requires
            old(self).position() <= old(self).bytes().len(),
        ensures
            final(self).bytes() == old(self).bytes(),
            final(self).safety_limit() == old(self).safety_limit(),
            ({
                let step = spec_tape_mark_step(
                    old(self).bytes(),
                    offset,
                    old(self).position(),
                    old(self).pending_double(),
                );
                &&& final(self).position() == step.pos
                &&& final(self).pending_double() == step.pending_double
                &&& match r {
                    Ok(kind) => step.result == Ok::<BlockModel, Failure>(BlockModel::TapeMark { offset, kind }),
                    Err(e) => step.result == Err::<BlockModel, Failure>((e.kind, e.message@)),
                }
            }),
    {
        if self.pending_double {
            self.pending_double = false;
            return Ok(SimhTapeMark::Double);
        }
        let peek_pos: usize = self.pos;
        match self.read_word() {
            Err(e) => Err(e),
            Ok(Some(word)) => {
                if word == TAPE_MARK_WORD {
                    self.pending_double = true;
                }
                self.pos = peek_pos;
                Ok(SimhTapeMark::Single)
            },
            Ok(None) => Ok(SimhTapeMark::Single),
        }
    }

    fn read_record(&mut self, offset: u64, word: u32) -> (r: Result<SimhTapeBlock, TapeError>)
        requires
            old(self).position() <= old(self).bytes().len(),
        ensures
            final(self).bytes() == old(self).bytes(),
            final(self).safety_limit() == old(self).safety_limit(),
            ({
                let step = spec_record_step(
                    old(self).bytes(),
                    old(self).safety_limit(),
                    offset,
                    word,
                    old(self).position(),
                    old(self).pending_double(),
                );
                &&& final(self).position() == step.pos
                &&& final(self).pending_double() == step.pending_double
                &&& block_outcome(r) == step.result
            }),
    {
        let (class, length) = decode_word(word);
        match self.ensure_length_within_bounds(length) {
            Ok(()) => {},
            Err(e) => {
                return Err(e);
            },
        }
        let remaining: usize = self.reader.len() - self.pos;
        let padded: usize = length as usize + (length % 2) as usize;
        if remaining < padded {
            self.pos = self.reader.len();
            return Err(failure(TapeErrorKind::UnexpectedEof, "failed to fill whole buffer"));
        }
        let start: usize = self.pos;
        let data = slice_to_vec(slice_subrange(self.reader, start, start + length as usize));
        self.pos = start + padded;
        let trailing = match self.read_word() {
            Ok(Some(trailing)) => trailing,
            Ok(None) => {
                return Err(failure(TapeErrorKind::UnexpectedEof, "missing trailing record length"));
            },
            Err(e) => {
                return Err(e);
            },
        };
        if trailing != word {
            let mut msg = String::from_str("trailing length 0x");
            msg.append(hex_upper(trailing as u64, 8).as_str());
            msg.append(" does not match leading length 0x");
            msg.append(hex_upper(word as u64, 8).as_str());
            return Err(TapeError::new(TapeErrorKind::InvalidData, msg));
        }
        Ok(
            SimhTapeBlock::Record(
                SimhTapeRecord {
                    header: SimhTapeRecordHeader { offset, class, length, trailing_length: Some(length) },
                    data,
                },
            ),
        )
    }

    /// Decodes the next block: a record, a marker, or the end of the stream.
    /// A truncated image, a record over the safety limit, a trailing word
    /// that differs from the leading one and an illegal forward half-gap are
    /// errors.
    pub fn next_block(&mut self) -> (r: Result<SimhTapeBlock, TapeError>)
        requires
            old(self).wf(),
        ensures
            final(self).wf(),
            final(self).bytes() == old(self).bytes(),
            final(self).safety_limit() == old(self).safety_limit(),
            ({
                let step = spec_next_block(
                    old(self).bytes(),
                    old(self).safety_limit(),
                    old(self).position(),
                    old(self).pending_double(),
                );
                &&& final(self).position() == step.pos
                &&& final(self).pending_double() == step.pending_double
                &&& block_outcome(r) == step.result
            }),
    {
        let offset: u64 = self.pos as u64;
        let word = match self.read_word() {
            Ok(Some(word)) => word,
            Ok(None) => {
                return Ok(SimhTapeBlock::EndOfStream);
            },
            Err(e) => {
                return Err(e);
            },
        };
        if word == TAPE_MARK_WORD {
            return match self.consume_tape_mark_kind(Ghost(offset)) {
                Ok(kind) => Ok(SimhTapeBlock::TapeMark { offset, kind }),
                Err(e) => Err(e),
            };
        }
        match try_parse_marker(word) {
            Ok(Some(kind)) => {
                return Ok(SimhTapeBlock::TapeMark { offset, kind });
            },
            Ok(None) => {},
            Err(e) => {
                return Err(e);
            },
        }
        self.read_record(offset, word)
    }
}

} // verus!
