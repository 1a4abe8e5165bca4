//! Toolkit for SIMH magnetic-tape images: a codec for the container
//! format, a content analyser, and the decision logic of a tape capture.
//!
//! The codec lives in [`word`], [`writer`] and [`reader`], with its errors
//! in [`error`]; what the encoder and the decoder owe each other is proved
//! in [`round_trip`].
//!
//! The analyser is [`analyzer`]. It decodes labels with [`label`], sorts
//! records into encodings with [`encoding`], tells formats apart with
//! [`signature`] by the patterns of [`magic`], sums files and tapes up with
//! [`summary`] and [`summarize`], looks for a BACKUP command with
//! [`command`], and reports what it found in the types of [`record`];
//! [`consistency`] proves that its sums and numbers agree with its lists.
//! [`report`] prints an analysis, [`browse`] moves through one.
//!
//! The decisions of a capture are in [`ingest`], the names of devices and
//! images in [`device`]. [`bytes`] and [`text`] hold what the rest shares.

pub mod analyzer;
pub mod browse;
pub mod bytes;
pub mod command;
pub mod consistency;
pub mod device;
pub mod encoding;
pub mod error;
pub mod ingest;
pub mod label;
pub mod magic;
pub mod reader;
pub mod record;
pub mod report;
pub mod round_trip;
pub mod signature;
pub mod summarize;
pub mod summary;
pub mod text;
pub mod word;
pub mod writer;

pub use analyzer::analyze_bytes;
pub use command::extract_backup_command;
pub use device::{device_token_candidates, make_input_name, make_output_name, should_emit};
pub use encoding::{build_preview, classify_encoding, RecordEncoding, RecordPreview};
pub use error::{TapeError, TapeErrorKind};
pub use ingest::{DrainStep, FileDecision, IngestSession, TapeEvent};
pub use label::{decode_ansi_label, AnsiLabel};
pub use reader::{SimhTapeBlock, SimhTapeMark, SimhTapeReader, SimhTapeRecord, SimhTapeRecordHeader};
pub use record::{AnalyzedRecord, TapeAnalysis, TapeFile, TapeTotals};
pub use report::{format_analysis, record_preview_lines, OutputOptions};
pub use signature::{RecordSignature, SignatureDetector};
pub use summarize::{summarize_file_records, summarize_tape};
pub use summary::TapeSummary;
pub use word::{decode_word, encode_word, MAX_RECORD_LENGTH};
pub use writer::SimhTapeWriter;

use vstd::prelude::*;

verus! {

/// The version of the toolkit.
pub const VERSION: &'static str = "1.0.0";

/// Who maintains the toolkit.
pub const AUTHOR: &'static str = "ACMS (Australia Computer Museum Society)";

} // verus!
