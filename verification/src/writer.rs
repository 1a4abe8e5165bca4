//! The encoder: it appends framed records and marker words to a byte sink.

use vstd::prelude::*;
use vstd::string::*;
use crate::error::{outcome, Failure, TapeError, TapeErrorKind};
use crate::text::{decimal, hex_upper, spec_decimal, spec_hex_upper};
use crate::word::{
    encode_word, le_bytes, spec_encode_word, spec_le_bytes, BAD_DATA_CLASS,
    END_OF_MEDIUM_WORD, ERASE_GAP_WORD, MAX_RECORD_LENGTH, PRIVATE_MARKER_CLASS, TAPE_MARK_WORD,
};

verus! {

/// The pad that follows a payload: one zero byte when its length is odd.
pub open spec fn spec_pad(len: nat) -> Seq<u8> {
    if len % 2 == 1 {
        seq![0u8]
    } else {
        Seq::<u8>::empty()
    }
}

/// A record on the medium: leading word, payload, pad, trailing word.
pub open spec fn spec_record_bytes(word: u32, data: Seq<u8>) -> Seq<u8> {
    spec_le_bytes(word) + data + spec_pad(data.len()) + spec_le_bytes(word)
}

/// What the encoder says of a payload whose length does not fit in a word.
pub open spec fn too_wide_message(len: nat) -> Seq<char> {
    "record length "@ + spec_decimal(len) + " does not fit in 32 bits"@
}

/// What the encoder says of a payload above the safety ceiling.
pub open spec fn ceiling_message(len: u32) -> Seq<char> {
    "record length 0x"@ + spec_hex_upper(len as nat, 8) + " exceeds safety ceiling 0x"@
        + spec_hex_upper(MAX_RECORD_LENGTH as nat, 8)
}

/// The length word of a payload of `len` bytes, or why it has none.
pub open spec fn spec_normalize_length(len: nat) -> Result<u32, Failure> {
    if len > u32::MAX {
        Err((TapeErrorKind::InvalidInput, too_wide_message(len)))
    } else if len > MAX_RECORD_LENGTH {
        Err((TapeErrorKind::InvalidInput, ceiling_message(len as u32)))
    } else {
        Ok(len as u32)
    }
}

/// The bytes that a record of the given class and payload takes on the
/// medium, or the error that refuses it.
pub open spec fn spec_encode_record(class: u8, data: Seq<u8>) -> Result<Seq<u8>, Failure> {
    match spec_normalize_length(data.len()) {
        Err(e) => Err(e),
        Ok(len) => match spec_encode_word(class, len) {
            Err(e) => Err(e),
            Ok(word) => Ok(spec_record_bytes(word, data)),
        },
    }
}

/// The bytes of a private marker with the given value, or the error that
/// refuses it.
pub open spec fn spec_encode_private_marker(value: u32) -> Result<Seq<u8>, Failure> {
    match spec_encode_word(PRIVATE_MARKER_CLASS, value) {
        Err(e) => Err(e),
        Ok(word) => Ok(spec_le_bytes(word)),
    }
}

/// `count` copies of a word, one after the other.
pub open spec fn spec_repeat_word(word: u32, count: nat) -> Seq<u8>
    decreases count,
{
    if count == 0 {
        Seq::<u8>::empty()
    } else {
        spec_repeat_word(word, (count - 1) as nat) + spec_le_bytes(word)
    }
}

/// What a write leaves in the sink: on success the old content followed by
/// `emitted`, on refusal the old content.
pub open spec fn write_outcome(
    before: Seq<u8>,
    after: Seq<u8>,
    r: Result<(), TapeError>,
    emitted: Result<Seq<u8>, Failure>,
) -> bool {
    match emitted {
        Ok(bytes) => r is Ok && after == before + bytes,
        Err(e) => outcome(r) == Err::<(), Failure>(e) && after == before,
    }
}

/// Writes a SIMH tape image into a growing byte buffer.
pub struct SimhTapeWriter {
    writer: Vec<u8>,
}

impl View for SimhTapeWriter {
    type V = Seq<u8>;

    /// Everything the sink holds.
    closed spec fn view(&self) -> Seq<u8> {
        self.writer@
    }
}

impl SimhTapeWriter {
    /// A writer that appends to `writer`.
    pub fn new(writer: Vec<u8>) -> (w: Self)
        ensures
            w@ == writer@,
    {
        Self { writer }
    }

    fn normalize_length(&self, data_len: usize) -> (r: Result<u32, TapeError>)
        ensures
            outcome(r) == spec_normalize_length(data_len as nat),
    {
        if data_len > u32::MAX as usize {
            let mut msg = String::from_str("record length ");
            msg.append(decimal(data_len as u128).as_str());
            msg.append(" does not fit in 32 bits");
            return Err(TapeError::new(TapeErrorKind::InvalidInput, msg));
        }
        let len: u32 = data_len as u32;
        if len > MAX_RECORD_LENGTH {
            let mut msg = String::from_str("record length 0x");
            msg.append(hex_upper(len as u64, 8).as_str());
            msg.append(" exceeds safety ceiling 0x");
            msg.append(hex_upper(MAX_RECORD_LENGTH as u64, 8).as_str());
            return Err(TapeError::new(TapeErrorKind::InvalidInput, msg));
        }
        Ok(len)
    }

    fn write_word(&mut self, word: u32)
        ensures
            final(self)@ == old(self)@ + spec_le_bytes(word),
    {
        let bytes = le_bytes(word);
        self.writer.extend_from_slice(bytes.as_slice());
    }

    /// Writes an ordinary data record (class 0).
    pub fn write_record(&mut self, data: &[u8]) -> (r: Result<(), TapeError>)
        ensures
            write_outcome(old(self)@, final(self)@, r, spec_encode_record(0, data@)),
    {
        self.write_record_with_class(0, data)
    }

    /// Writes a bad-data record (class 8).
    pub fn write_bad_record(&mut self, data: &[u8]) -> (r: Result<(), TapeError>)
        ensures
            write_outcome(old(self)@, final(self)@, r, spec_encode_record(BAD_DATA_CLASS, data@)),
    {
        self.write_record_with_class(BAD_DATA_CLASS, data)
    }

    /// Writes a record of the given class: leading word, payload, a zero pad
    /// byte after an odd payload, trailing word. Nothing is written when the
    /// class or the length is refused.
    pub fn write_record_with_class(&mut self, class: u8, data: &[u8]) -> (r: Result<(), TapeError>)
        ensures
            write_outcome(old(self)@, final(self)@, r, spec_encode_record(class, data@)),
    {
        let len = match self.normalize_length(data.len()) {
            Ok(len) => len,
            Err(e) => {
                return Err(e);
            },
        };
        let word = match encode_word(class, len) {
            Ok(word) => word,
            Err(e) => {
                return Err(e);
            },
        };
        self.write_word(word);
        self.writer.extend_from_slice(data);
        if len % 2 != 0 {
            self.writer.push(0);
        }
        self.write_word(word);
        assert(self@ =~= old(self)@ + spec_record_bytes(word, data@));
        Ok(())
    }

    /// Writes one tape-mark word.
    pub fn write_tape_mark(&mut self) -> (r: Result<(), TapeError>)
        ensures
            r is Ok,
            final(self)@ == old(self)@ + spec_le_bytes(TAPE_MARK_WORD),
    {
        self.write_word(TAPE_MARK_WORD);
        Ok(())
    }

    /// Writes one end-of-medium word.
    pub fn write_end_of_medium(&mut self) -> (r: Result<(), TapeError>)
        ensures
            r is Ok,
            final(self)@ == old(self)@ + spec_le_bytes(END_OF_MEDIUM_WORD),
    {
        self.write_word(END_OF_MEDIUM_WORD);
        Ok(())
    }

    /// Writes `count` erase-gap words.
    pub fn write_erase_gap_markers(&mut self, count: usize) -> (r: Result<(), TapeError>)
        ensures
            r is Ok,
            final(self)@ == old(self)@ + spec_repeat_word(ERASE_GAP_WORD, count as nat),
    {
        let mut done: usize = 0;
        assert(self@ =~= old(self)@ + spec_repeat_word(ERASE_GAP_WORD, 0));
        while done < count
            invariant
                done <= count,
                self@ == old(self)@ + spec_repeat_word(ERASE_GAP_WORD, done as nat),
            decreases count - done,
        {
            self.write_word(ERASE_GAP_WORD);
            done += 1;
            assert(self@ =~= old(self)@ + spec_repeat_word(ERASE_GAP_WORD, done as nat));
        }
        Ok(())
    }

    /// Writes a private marker (class 7) with a 28-bit value.
    pub fn write_private_marker(&mut self, value: u32) -> (r: Result<(), TapeError>)
        ensures
            write_outcome(old(self)@, final(self)@, r, spec_encode_private_marker(value)),
    {
        let word = match encode_word(PRIVATE_MARKER_CLASS, value) {
            Ok(word) => word,
            Err(e) => {
                return Err(e);
            },
        };
        self.write_word(word);
        Ok(())
    }

    /// Gives the sink back.
    pub fn into_inner(self) -> (writer: Vec<u8>)
        ensures
            writer@ == self@,
    {
        self.writer
    }
}

} // verus!
