//! The decisions of a tape capture: what to write for each thing read
//! from the drive, when to go on to the next file, when to try again and
//! when to stop.

use vstd::prelude::*;
use vstd::string::*;
use crate::text::{
    contains_text, format_with_commas, spec_contains_text, spec_with_commas, string_chars,
};
use crate::word::{le_bytes, spec_le_bytes, TAPE_MARK_WORD};
use crate::writer::{spec_encode_record, SimhTapeWriter};

verus! {

/// How many times an empty read is tried again, unless the caller says
/// otherwise.
pub const DEFAULT_MAX_REATTEMPTS: u32 = 100;

/// How long to wait before an empty read is tried again, in milliseconds.
pub const RETRY_DELAY_MS: u64 = 500;

/// How large a read from the drive may be.
pub const MAX_READ_SIZE: usize = 120 * 1024;

/// What the reader of the drive reports.
#[derive(Debug)]
pub enum TapeEvent {
    /// The bytes of one read.
    Data(Vec<u8>),
    /// A read of no bytes.
    TapeMark,
    /// A read that failed, with the words of the failure.
    Error(String),
}

/// An event as a value.
pub enum EventModel {
    Data(Seq<u8>),
    TapeMark,
    Error(Seq<char>),
}

impl View for TapeEvent {
    type V = EventModel;

    open spec fn view(&self) -> EventModel {
        match *self {
            TapeEvent::Data(data) => EventModel::Data(data@),
            TapeEvent::TapeMark => EventModel::TapeMark,
            TapeEvent::Error(message) => EventModel::Error(message@),
        }
    }
}

/// The event that a read stands for: its bytes, a tape mark where it
/// brought none, or its failure.
pub fn read_event(read: Result<Vec<u8>, String>) -> (event: TapeEvent)
    ensures
        event@ == match read {
            Ok(data) => if data@.len() == 0 {
                EventModel::TapeMark
            } else {
                EventModel::Data(data@)
            },
            Err(message) => EventModel::Error(message@),
        },
{
    match read {
        Ok(data) => {
            if data.len() == 0 {
                TapeEvent::TapeMark
            } else {
                TapeEvent::Data(data)
            }
        },
        Err(message) => TapeEvent::Error(message),
    }
}

/// Whether the reader goes on after an event: it does after data only.
pub fn reader_continues(event: &TapeEvent) -> (r: bool)
    ensures
        r == (event@ is Data),
{
    match event {
        TapeEvent::Data(_) => true,
        _ => false,
    }
}

/// What to do with an event while a file is read.
#[derive(Debug)]
pub enum DrainStep {
    /// Write these bytes, a record, and go on reading.
    Write(Vec<u8>),
    /// The file has ended with a tape mark.
    EndOfFile,
    /// The tape has ended with an input/output error after data; the
    /// words of the error come along.
    EndOfTape(String),
    /// Give up, with the words of the failure.
    Fail(String),
}

/// A step as a value.
pub enum DrainModel {
    Write(Seq<u8>),
    EndOfFile,
    EndOfTape(Seq<char>),
    Fail(Seq<char>),
}

impl View for DrainStep {
    type V = DrainModel;

    open spec fn view(&self) -> DrainModel {
        match *self {
            DrainStep::Write(bytes) => DrainModel::Write(bytes@),
            DrainStep::EndOfFile => DrainModel::EndOfFile,
            DrainStep::EndOfTape(message) => DrainModel::EndOfTape(message@),
            DrainStep::Fail(message) => DrainModel::Fail(message@),
        }
    }
}

/// What to do once a file has been read to its end.
#[derive(Debug)]
pub enum FileDecision {
    /// The capture is over.
    Stop,
    /// Nothing was read: wait, open the drive again and read once more.
    /// No tape mark is written.
    Retry { attempt: u32 },
    /// Nothing was read and the retries are used up: write these bytes, a
    /// tape mark, for an empty file, and go on.
    EmptyFile { emit: Vec<u8> },
    /// A file was read: write these bytes, a tape mark, and go on.
    DataFile { emit: Vec<u8>, number: u64, blocks: u64, bytes: u64 },
}

/// A decision as a value.
pub enum DecisionModel {
    Stop,
    Retry { attempt: u32 },
    EmptyFile { emit: Seq<u8> },
    DataFile { emit: Seq<u8>, number: u64, blocks: u64, bytes: u64 },
}

impl View for FileDecision {
    type V = DecisionModel;

    open spec fn view(&self) -> DecisionModel {
        match *self {
            FileDecision::Stop => DecisionModel::Stop,
            FileDecision::Retry { attempt } => DecisionModel::Retry { attempt },
            FileDecision::EmptyFile { emit } => DecisionModel::EmptyFile { emit: emit@ },
            FileDecision::DataFile { emit, number, blocks, bytes } => DecisionModel::DataFile {
                emit: emit@,
                number,
                blocks,
                bytes,
            },
        }
    }
}

/// The counters of a capture.
#[derive(Debug, Clone, Copy)]
pub struct IngestSession {
    /// How many times an empty read is tried again.
    pub max_reattempts: u32,
    /// How many files have been opened.
    pub files_opened: u64,
    /// How many records have been written.
    pub count: u64,
    /// How many bytes of data have been written.
    pub bytes: u64,
    /// How many empty reads in a row have been tried again.
    pub reattempts: u32,
    /// How many empty files in a row have been seen.
    pub consecutive_empty_files: u32,
    /// How many files with data have been written.
    pub tape_record_count: u64,
    /// The count of bytes when the file in hand began.
    pub prev_bytes: u64,
    /// How many records the file in hand has.
    pub file_block_count: u64,
    /// Whether the file in hand has ended with a tape mark.
    pub tape_mark_seen: bool,
}

/// A count and one more; a count that is full stays as it is.
pub open spec fn spec_bump(count: u64) -> u64 {
    if count < u64::MAX {
        (count + 1) as u64
    } else {
        count
    }
}

/// A count and `more`, as far as the count can go.
pub open spec fn spec_bump_by(count: u64, more: nat) -> u64 {
    if count + more <= u64::MAX {
        (count + more) as u64
    } else {
        u64::MAX
    }
}

/// Whether the words of a failure are those of an input/output error.
pub open spec fn spec_is_io_error(message: Seq<char>) -> bool {
    spec_contains_text(message, "os error 5"@) || spec_contains_text(message, "Input/output error"@)
}

impl IngestSession {
    /// The counters at the start of a capture.
    pub open spec fn spec_new(max_reattempts: u32) -> IngestSession {
        IngestSession {
            max_reattempts,
            files_opened: 0,
            count: 0,
            bytes: 0,
            reattempts: 0,
            consecutive_empty_files: 0,
            tape_record_count: 0,
            prev_bytes: 0,
            file_block_count: 0,
            tape_mark_seen: false,
        }
    }

    /// Whether the input may be opened for the next file: a source that
    /// cannot be opened again is read once only.
    pub open spec fn spec_may_open(self, reopenable: bool) -> bool {
        reopenable || self.files_opened == 0
    }

    /// The counters once the next file has been opened.
    pub open spec fn spec_begin_file(self) -> IngestSession {
        IngestSession {
            files_opened: spec_bump(self.files_opened),
            file_block_count: 0,
            tape_mark_seen: false,
            ..self
        }
    }

    /// The counters after an event, and what to do with it.
    pub open spec fn spec_on_event(self, event: EventModel) -> (IngestSession, DrainModel) {
        match event {
            EventModel::Data(data) => match spec_encode_record(0, data) {
                Ok(bytes) => (
                    IngestSession {
                        bytes: spec_bump_by(self.bytes, data.len()),
                        file_block_count: spec_bump(self.file_block_count),
                        count: spec_bump(self.count),
                        reattempts: 0,
                        consecutive_empty_files: 0,
                        ..self
                    },
                    DrainModel::Write(bytes),
                ),
                Err(failure) => (self, DrainModel::Fail(failure.1)),
            },
            EventModel::TapeMark => (IngestSession { tape_mark_seen: true, ..self }, DrainModel::EndOfFile),
            EventModel::Error(message) => if self.count > 0 && spec_is_io_error(message) {
                (self, DrainModel::EndOfTape(message))
            } else {
                (self, DrainModel::Fail(message))
            },
        }
    }

    /// The counters once a file has been read to its end, and what to do
    /// next.
    pub open spec fn spec_end_file(self) -> (IngestSession, DecisionModel) {
        if !self.tape_mark_seen {
            (self, DecisionModel::Stop)
        } else if self.file_block_count == 0 {
            if self.reattempts < self.max_reattempts {
                (
                    IngestSession { reattempts: (self.reattempts + 1) as u32, ..self },
                    DecisionModel::Retry { attempt: (self.reattempts + 1) as u32 },
                )
            } else if self.consecutive_empty_files >= 1 {
                (
                    IngestSession {
                        consecutive_empty_files: if self.consecutive_empty_files < u32::MAX {
                            (self.consecutive_empty_files + 1) as u32
                        } else {
                            self.consecutive_empty_files
                        },
                        ..self
                    },
                    DecisionModel::Stop,
                )
            } else {
                (
                    IngestSession { consecutive_empty_files: 1, reattempts: 0, ..self },
                    DecisionModel::EmptyFile { emit: spec_le_bytes(TAPE_MARK_WORD) },
                )
            }
        } else {
            (
                IngestSession {
                    tape_record_count: spec_bump(self.tape_record_count),
                    prev_bytes: self.bytes,
                    consecutive_empty_files: 0,
                    ..self
                },
                DecisionModel::DataFile {
                    emit: spec_le_bytes(TAPE_MARK_WORD),
                    number: spec_bump(self.tape_record_count),
                    blocks: self.file_block_count,
                    bytes: if self.bytes >= self.prev_bytes {
                        (self.bytes - self.prev_bytes) as u64
                    } else {
                        0
                    },
                },
            )
        }
    }

    /// The counters at the start of a capture.
    pub fn new(max_reattempts: u32) -> (session: Self)
        ensures
            session == Self::spec_new(max_reattempts),
    {
        IngestSession {
            max_reattempts,
            files_opened: 0,
            count: 0,
            bytes: 0,
            reattempts: 0,
            consecutive_empty_files: 0,
            tape_record_count: 0,
            prev_bytes: 0,
            file_block_count: 0,
            tape_mark_seen: false,
        }
    }

    /// Whether the input may be opened for the next file.
    pub fn may_open(&self, reopenable: bool) -> (r: bool)
        ensures
            r == self.spec_may_open(reopenable),
    {
        reopenable || self.files_opened == 0
    }

    /// Notes that the next file has been opened.
    pub fn begin_file(&mut self)
        ensures
            *final(self) == old(self).spec_begin_file(),
    {
        self.files_opened = bump(self.files_opened);
        self.file_block_count = 0;
        self.tape_mark_seen = false;
    }

    /// Takes an event of the reader in and says what to do with it.
    pub fn on_event(&mut self, event: TapeEvent) -> (step: DrainStep)
        ensures
            (*final(self), step@) == old(self).spec_on_event(event@),
    {
        match event {
            TapeEvent::Data(data) => {
                let mut writer = SimhTapeWriter::new(Vec::new());
                match writer.write_record(data.as_slice()) {
                    Ok(()) => {
                        let more: u64 = if data.len() as u64 <= u64::MAX - self.bytes {
                            self.bytes + data.len() as u64
                        } else {
                            u64::MAX
                        };
                        self.bytes = more;
                        self.file_block_count = bump(self.file_block_count);
                        self.count = bump(self.count);
                        self.reattempts = 0;
                        self.consecutive_empty_files = 0;
                        let bytes = writer.into_inner();
                        assert(bytes@ =~= spec_encode_record(0, data@)->Ok_0);
                        DrainStep::Write(bytes)
                    },
                    Err(e) => DrainStep::Fail(e.to_string()),
                }
            },
            TapeEvent::TapeMark => {
                self.tape_mark_seen = true;
                DrainStep::EndOfFile
            },
            TapeEvent::Error(message) => {
                if self.count > 0 && is_io_error(message.as_str()) {
                    DrainStep::EndOfTape(message)
                } else {
                    DrainStep::Fail(message)
                }
            },
        }
    }

    /// Says what to do once a file has been read to its end.
    pub fn end_file(&mut self) -> (decision: FileDecision)
        ensures
            (*final(self), decision@) == old(self).spec_end_file(),
    {
        if !self.tape_mark_seen {
            return FileDecision::Stop;
        }
        if self.file_block_count == 0 {
            if self.reattempts < self.max_reattempts {
                self.reattempts = self.reattempts + 1;
                return FileDecision::Retry { attempt: self.reattempts };
            }
            if self.consecutive_empty_files >= 1 {
                if self.consecutive_empty_files < u32::MAX {
                    self.consecutive_empty_files = self.consecutive_empty_files + 1;
                }
                return FileDecision::Stop;
            }
            self.consecutive_empty_files = 1;
            self.reattempts = 0;
            return FileDecision::EmptyFile { emit: tape_mark_bytes() };
        }
        let number = bump(self.tape_record_count);
        let bytes: u64 = if self.bytes >= self.prev_bytes {
            self.bytes - self.prev_bytes
        } else {
            0
        };
        self.tape_record_count = number;
        self.prev_bytes = self.bytes;
        self.consecutive_empty_files = 0;
        FileDecision::DataFile { emit: tape_mark_bytes(), number, blocks: self.file_block_count, bytes }
    }
}

fn bump(count: u64) -> (r: u64)
    ensures
        r == spec_bump(count),
{
    if count < u64::MAX {
        count + 1
    } else {
        count
    }
}

fn tape_mark_bytes() -> (bytes: Vec<u8>)
    ensures
        bytes@ == spec_le_bytes(TAPE_MARK_WORD),
{
    let mut bytes: Vec<u8> = Vec::new();
    bytes.extend_from_slice(le_bytes(TAPE_MARK_WORD).as_slice());
    bytes
}

/// Whether the words of a failure are those of an input/output error.
pub fn is_io_error(message: &str) -> (r: bool)
    ensures
        r == spec_is_io_error(message@),
{
    let text = string_chars(message);
    contains_text(text.as_slice(), string_chars("os error 5").as_slice()) || contains_text(
        text.as_slice(),
        string_chars("Input/output error").as_slice(),
    )
}

/// A number of seconds in decimal, its digits in groups of three.
pub fn format_seconds_with_commas(seconds: u64) -> (text: String)
    ensures
        text@ == spec_with_commas(seconds as nat),
{
    format_with_commas(seconds as u128)
}

/// A file that ends with a tape mark but brought no data is tried again
/// only while the budget lasts, and the budget is never overdrawn.
pub proof fn lemma_retries_within_budget(session: IngestSession)
    requires
        session.reattempts <= session.max_reattempts,
    ensures
        session.spec_end_file().0.reattempts <= session.max_reattempts,
        session.spec_end_file().1 is Retry <==> session.tape_mark_seen && session.file_block_count == 0
            && session.reattempts < session.max_reattempts,
        forall|event: EventModel| (#[trigger] session.spec_on_event(event)).0.reattempts <= session.max_reattempts,
        session.spec_begin_file().reattempts <= session.max_reattempts,
{
}

/// A tape mark is written for a file with data, and for the first empty
/// file once the retries are used up; a second empty file in a row ends
/// the capture without one.
pub proof fn lemma_tape_mark_emission(session: IngestSession)
    ensures
        session.spec_end_file().1 is DataFile <==> session.tape_mark_seen && session.file_block_count > 0,
        session.spec_end_file().1 is EmptyFile <==> session.tape_mark_seen && session.file_block_count == 0
            && session.reattempts >= session.max_reattempts && session.consecutive_empty_files == 0,
        session.spec_end_file().1 matches DecisionModel::DataFile { emit, .. } ==> emit == spec_le_bytes(
            TAPE_MARK_WORD,
        ),
        session.spec_end_file().1 matches DecisionModel::EmptyFile { emit } ==> emit == spec_le_bytes(
            TAPE_MARK_WORD,
        ),
{
}

} // verus!
