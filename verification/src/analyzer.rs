//! The analyser: it walks a tape image, groups its records into files,
//! looks at each record and sums up what it found.

use vstd::prelude::*;
use vstd::string::*;
use crate::bytes::spec_payloads;
use crate::command::{extract_backup_command, spec_extract_backup_command};
use crate::encoding::{build_preview, classify_encoding, spec_build_preview, spec_classify_encoding};
use crate::error::{Failure, TapeError};
use crate::label::{decode_ansi_label, spec_decode_ansi_label};
use crate::reader::{
    block_outcome, reachable, spec_next_block, BlockModel, RecordModel, SimhTapeBlock,
    SimhTapeMark, SimhTapeReader, SimhTapeRecord, SimhTapeRecordHeader,
};
use crate::record::{
    AnalysisReport, AnalyzedRecord, FileReport, RecordReport, TapeAnalysis, TapeFile, TapeTotals,
};
use crate::signature::{spec_detect, SignatureDetector};
use crate::summarize::{
    spec_summarize_file_records, spec_summarize_tape, summarize_file_records, summarize_tape,
};
use crate::text::{hex_upper, push_line, spec_hex_upper, spec_lines, spec_text_option};
use crate::word::MAX_RECORD_LENGTH;

verus! {

/// How many records are kept for the search for a BACKUP command.
pub const MAX_COMMAND_RECORDS: usize = 20;

/// The warning that the class of a data record calls for, if any.
pub open spec fn spec_class_warning(class: u8) -> Option<Seq<char>> {
    if class == 0 {
        None
    } else if 1 <= class <= 6 {
        Some("SIMH private data class 0x"@ + spec_hex_upper(class as nat, 1))
    } else if class == 8 {
        Some("SIMH class 8 (bad data record)"@)
    } else if 9 <= class <= 0xD {
        Some("SIMH reserved data class 0x"@ + spec_hex_upper(class as nat, 1))
    } else if class == 0xE {
        Some("SIMH tape description record (class E)"@)
    } else {
        Some("SIMH unknown data class 0x"@ + spec_hex_upper(class as nat, 1))
    }
}

/// The warnings that the header of a record calls for: one where the
/// trailing length differs from the leading one, one for its class.
pub open spec fn spec_record_warnings(header: SimhTapeRecordHeader) -> Seq<Seq<char>> {
    (if header.trailing_length != Some(header.length) {
        seq!["Trailing length mismatch"@]
    } else {
        Seq::<Seq<char>>::empty()
    }) + (match spec_class_warning(header.class) {
        Some(warning) => seq![warning],
        None => Seq::<Seq<char>>::empty(),
    })
}

/// What the analyser reports of a record that is the `index`-th of its file.
pub open spec fn spec_analyze_record(record: RecordModel, index: nat) -> RecordReport {
    let encoding = spec_classify_encoding(record.data);
    RecordReport {
        record_index: index,
        offset: record.header.offset,
        length: record.header.length,
        class: record.header.class,
        encoding,
        label: spec_decode_ansi_label(record.data),
        signatures: spec_detect(record.data, record.header.length),
        warnings: spec_record_warnings(record.header),
        preview: spec_build_preview(record.data, encoding),
        trailing_length: record.header.trailing_length,
    }
}

/// The warning that a marker other than a tape mark and the end of the
/// medium calls for.
pub open spec fn spec_marker_warning(kind: SimhTapeMark, offset: u64) -> Seq<char> {
    match kind {
        SimhTapeMark::EraseGap => "Erase gap marker at offset 0x"@ + spec_hex_upper(offset as nat, 8),
        SimhTapeMark::Private { class, value } => "SIMH private marker class 0x"@ + spec_hex_upper(
            class as nat,
            1,
        ) + " value 0x"@ + spec_hex_upper(value as nat, 8) + " at offset 0x"@ + spec_hex_upper(
            offset as nat,
            8,
        ),
        SimhTapeMark::Reserved { class, value } => "SIMH reserved marker class 0x"@ + spec_hex_upper(
            class as nat,
            1,
        ) + " value 0x"@ + spec_hex_upper(value as nat, 8) + " at offset 0x"@ + spec_hex_upper(
            offset as nat,
            8,
        ),
        _ => "Half-gap marker at offset 0x"@ + spec_hex_upper(offset as nat, 8),
    }
}

/// A count and one more; a count that is full stays as it is.
pub open spec fn spec_count_up(count: usize) -> usize {
    if count < usize::MAX {
        (count + 1) as usize
    } else {
        count
    }
}

/// A sum of bytes and the length of one more record, as far as the sum
/// can go.
pub open spec fn spec_bytes_up(sum: u64, length: u32) -> u64 {
    if sum + length <= u64::MAX {
        (sum + length) as u64
    } else {
        u64::MAX
    }
}

/// The state of the analyser between two blocks.
pub struct AggregatorModel {
    pub analysis: AnalysisReport,
    pub current: Option<FileReport>,
    pub command_records: Seq<Seq<u8>>,
}

/// The analysis with a finished file at its end; the file gets its summary.
pub open spec fn spec_push_completed_file(analysis: AnalysisReport, file: FileReport) -> AnalysisReport {
    let summary = match file.summary {
        Some(summary) => Some(summary),
        None => spec_summarize_file_records(file.records),
    };
    AnalysisReport { files: analysis.files.push(FileReport { summary, ..file }), ..analysis }
}

impl AggregatorModel {
    /// Before the first block.
    pub open spec fn start(filesize: u64) -> AggregatorModel {
        AggregatorModel {
            analysis: AnalysisReport {
                filesize: Some(filesize),
                ..crate::record::spec_empty_analysis()
            },
            current: None,
            command_records: Seq::<Seq<u8>>::empty(),
        }
    }

    /// The state once the file in hand, if there is one, is finished.
    pub open spec fn close_file(self) -> AggregatorModel {
        match self.current {
            Some(file) => AggregatorModel {
                analysis: spec_push_completed_file(self.analysis, file),
                current: None,
                ..self
            },
            None => self,
        }
    }

    /// The state with one more warning for the whole tape.
    pub open spec fn warn(self, warning: Seq<char>) -> AggregatorModel {
        AggregatorModel {
            analysis: AnalysisReport { warnings: self.analysis.warnings.push(warning), ..self.analysis },
            ..self
        }
    }

    /// The state after a data record: it joins the file in hand, or opens
    /// the next file; the first twenty records are kept for the search for
    /// a command.
    pub open spec fn on_record(self, record: RecordModel) -> AggregatorModel {
        let totals = self.analysis.totals;
        let opens = self.current is None;
        let new_totals = TapeTotals {
            files: if opens {
                spec_count_up(totals.files)
            } else {
                totals.files
            },
            records: spec_count_up(totals.records),
            data_bytes: spec_bytes_up(totals.data_bytes, record.header.length),
        };
        let file = match self.current {
            Some(file) => file,
            None => FileReport {
                file_index: new_totals.files as nat,
                records: Seq::<RecordReport>::empty(),
                summary: None,
                data_bytes: 0,
                tape_mark_warning: None,
            },
        };
        AggregatorModel {
            analysis: AnalysisReport { totals: new_totals, ..self.analysis },
            current: Some(
                FileReport {
                    records: file.records.push(
                        spec_analyze_record(record, spec_count_up(file.records.len() as usize) as nat),
                    ),
                    data_bytes: spec_bytes_up(file.data_bytes as u64, record.header.length) as nat,
                    ..file
                },
            ),
            command_records: if self.command_records.len() < MAX_COMMAND_RECORDS {
                self.command_records.push(record.data)
            } else {
                self.command_records
            },
        }
    }

    /// The state after a marker, and whether the walk ends with it.
    pub open spec fn on_mark(self, offset: u64, kind: SimhTapeMark) -> (AggregatorModel, bool) {
        match kind {
            SimhTapeMark::Single => (self.close_file(), false),
            SimhTapeMark::Double => match self.current {
                Some(file) => (
                    AggregatorModel {
                        current: Some(
                            FileReport {
                                tape_mark_warning: Some("Double tape mark encountered"@),
                                ..file
                            },
                        ),
                        ..self
                    }.close_file(),
                    false,
                ),
                None => (self.warn("Double tape mark observed outside of a file"@), false),
            },
            SimhTapeMark::EndOfTape => {
                let closed = self.close_file();
                (
                    AggregatorModel {
                        analysis: AnalysisReport { end_of_tape_offset: Some(offset), ..closed.analysis },
                        ..closed
                    },
                    true,
                )
            },
            _ => (self.warn(spec_marker_warning(kind, offset)), false),
        }
    }

    /// The state after one answer of the decoder, and whether the walk
    /// ends with it.
    #[verifier::opaque]
    pub open spec fn on_block(self, result: Result<BlockModel, Failure>) -> (AggregatorModel, bool) {
        match result {
            Ok(BlockModel::Record(record)) => (self.on_record(record), false),
            Ok(BlockModel::TapeMark { offset, kind }) => self.on_mark(offset, kind),
            Ok(BlockModel::EndOfStream) => (self.close_file(), true),
            Err(failure) => (self.warn(failure.1).close_file(), true),
        }
    }

    /// The analysis once the walk has ended: with the summary of the tape
    /// and the command that its first records carry.
    pub open spec fn finish(self) -> AnalysisReport {
        AnalysisReport {
            tape_summary: spec_summarize_tape(self.analysis.files),
            backup_command: match self.analysis.backup_command {
                Some(command) => Some(command),
                None => spec_extract_backup_command(self.command_records),
            },
            ..self.analysis
        }
    }
}

/// The state in which the walk over `bytes` ends when it stands at `pos`
/// in state `state`: blocks are decoded and taken in until one ends the
/// walk. (A block that ends nothing always moves the decoder on, within
/// the image; the walk would end too if one did not.)
pub open spec fn spec_walk(bytes: Seq<u8>, state: AggregatorModel, pos: nat, pending: bool) -> AggregatorModel
    decreases bytes.len() - pos,
{
    let step = spec_next_block(bytes, MAX_RECORD_LENGTH, pos, pending);
    let (next, stop) = state.on_block(step.result);
    if stop || step.pos <= pos || step.pos > bytes.len() {
        next
    } else {
        spec_walk(bytes, next, step.pos, step.pending_double)
    }
}

/// The analysis of a tape image.
pub open spec fn spec_analyze_bytes(bytes: Seq<u8>) -> AnalysisReport {
    spec_walk(bytes, AggregatorModel::start(bytes.len() as u64), 0, false).finish()
}

/// The state of the analyser between two blocks.
pub struct Aggregator {
    analysis: TapeAnalysis,
    current: Option<TapeFile>,
    command_records: Vec<Vec<u8>>,
}

/// The model of an optional file.
pub open spec fn spec_file_option(file: Option<TapeFile>) -> Option<FileReport> {
    match file {
        Some(f) => Some(f@),
        None => None,
    }
}

impl View for Aggregator {
    type V = AggregatorModel;

    closed spec fn view(&self) -> AggregatorModel {
        AggregatorModel {
            analysis: self.analysis@,
            current: spec_file_option(self.current),
            command_records: spec_payloads(self.command_records@),
        }
    }
}

fn count_up(count: usize) -> (r: usize)
    ensures
        r == spec_count_up(count),
{
    if count < usize::MAX {
        count + 1
    } else {
        count
    }
}

fn bytes_up(sum: u64, length: u32) -> (r: u64)
    ensures
        r == spec_bytes_up(sum, length),
{
    if length as u64 <= u64::MAX - sum {
        sum + length as u64
    } else {
        u64::MAX
    }
}

/// The warning that the class of a data record calls for, if any.
fn class_warning(class: u8) -> (warning: Option<String>)
    ensures
        spec_text_option(warning) == spec_class_warning(class),
{
    if class == 0 {
        None
    } else if class <= 6 {
        let mut text = String::from_str("SIMH private data class 0x");
        text.append(hex_upper(class as u64, 1).as_str());
        Some(text)
    } else if class == 8 {
        Some(String::from_str("SIMH class 8 (bad data record)"))
    } else if 9 <= class && class <= 0xD {
        let mut text = String::from_str("SIMH reserved data class 0x");
        text.append(hex_upper(class as u64, 1).as_str());
        Some(text)
    } else if class == 0xE {
        Some(String::from_str("SIMH tape description record (class E)"))
    } else {
        let mut text = String::from_str("SIMH unknown data class 0x");
        text.append(hex_upper(class as u64, 1).as_str());
        Some(text)
    }
}

/// What the analyser reports of a record that is the `index`-th of its file.
pub fn analyze_record(record: &SimhTapeRecord, index: usize) -> (analyzed: AnalyzedRecord)
    ensures
        analyzed@ == spec_analyze_record(record@, index as nat),
{
    let detector = SignatureDetector::default();
    let header = record.header;
    let data = record.data.as_slice();
    let encoding = classify_encoding(data);
    let preview = build_preview(data, encoding);
    let label = decode_ansi_label(data);
    let signatures = detector.detect(data, header.length);
    let mut warnings: Vec<String> = Vec::new();
    assert(spec_lines(warnings@) =~= Seq::<Seq<char>>::empty());
    let matches = match header.trailing_length {
        Some(trailing) => trailing == header.length,
        None => false,
    };
    if !matches {
        push_line(&mut warnings, String::from_str("Trailing length mismatch"));
    }
    match class_warning(header.class) {
        Some(warning) => {
            push_line(&mut warnings, warning);
        },
        None => {},
    }
    assert(spec_lines(warnings@) =~= spec_record_warnings(header));
    AnalyzedRecord {
        record_index: index,
        offset: header.offset,
        length: header.length,
        class: header.class,
        encoding,
        label,
        signatures,
        warnings,
        preview,
        trailing_length: header.trailing_length,
    }
}

/// The warning that a marker other than a tape mark and the end of the
/// medium calls for.
fn marker_warning(kind: SimhTapeMark, offset: u64) -> (warning: String)
    ensures
        warning@ == spec_marker_warning(kind, offset),
{
    match kind {
        SimhTapeMark::EraseGap => {
            let mut text = String::from_str("Erase gap marker at offset 0x");
            text.append(hex_upper(offset, 8).as_str());
            text
        },
        SimhTapeMark::Private { class, value } => {
            let mut text = String::from_str("SIMH private marker class 0x");
            text.append(hex_upper(class as u64, 1).as_str());
            text.append(" value 0x");
            text.append(hex_upper(value as u64, 8).as_str());
            text.append(" at offset 0x");
            text.append(hex_upper(offset, 8).as_str());
            text
        },
        SimhTapeMark::Reserved { class, value } => {
            let mut text = String::from_str("SIMH reserved marker class 0x");
            text.append(hex_upper(class as u64, 1).as_str());
            text.append(" value 0x");
            text.append(hex_upper(value as u64, 8).as_str());
            text.append(" at offset 0x");
            text.append(hex_upper(offset, 8).as_str());
            text
        },
        _ => {
            let mut text = String::from_str("Half-gap marker at offset 0x");
            text.append(hex_upper(offset, 8).as_str());
            text
        },
    }
}

/// Puts a finished file at the end of the analysis; the file gets its summary.
fn push_completed_file(analysis: &mut TapeAnalysis, file: TapeFile)
    ensures
        final(analysis)@ == spec_push_completed_file(old(analysis)@, file@),
{
    let mut file = file;
    if file.summary.is_none() {
        file.summary = summarize_file_records(file.records.as_slice());
    }
    analysis.files.push(file);
    assert(analysis.files.deep_view() =~= old(analysis).files.deep_view().push(file@));
}

impl Aggregator {
    /// The state before the first block of an image of `filesize` bytes.
    pub fn new(filesize: u64) -> (r: Self)
        ensures
            r@ == AggregatorModel::start(filesize),
    {
        let mut analysis = TapeAnalysis::default();
        analysis.filesize = Some(filesize);
        let r = Aggregator { analysis, current: None, command_records: Vec::new() };
        assert(spec_payloads(r.command_records@) =~= Seq::<Seq<u8>>::empty());
        r
    }

    fn close_file(&mut self)
        ensures
            final(self)@ == old(self)@.close_file(),
    {
        match self.current.take() {
            Some(file) => {
                push_completed_file(&mut self.analysis, file);
            },
            None => {},
        }
    }

    fn warn(&mut self, warning: String)
        ensures
            final(self)@ == old(self)@.warn(warning@),
    {
        push_line(&mut self.analysis.warnings, warning);
    }

    /// Takes a data record in.
    pub fn on_record(&mut self, record: SimhTapeRecord)
        ensures
            final(self)@ == old(self)@.on_record(record@),
    {
        let length: u32 = record.header.length;
        self.analysis.totals.records = count_up(self.analysis.totals.records);
        self.analysis.totals.data_bytes = bytes_up(self.analysis.totals.data_bytes, length);
        let mut file = match self.current.take() {
            Some(file) => file,
            None => {
                self.analysis.totals.files = count_up(self.analysis.totals.files);
                let mut file = TapeFile::default();
                file.file_index = self.analysis.totals.files;
                file
            },
        };
        if self.command_records.len() < MAX_COMMAND_RECORDS {
            let copy = record.data.clone();
            assert(copy@ =~= record.data@);
            self.command_records.push(copy);
            assert(spec_payloads(self.command_records@) =~= spec_payloads(old(self).command_records@).push(
                record.data@,
            ));
        }
        let analyzed = analyze_record(&record, count_up(file.records.len()));
        let ghost before = file.records.deep_view();
        file.data_bytes = bytes_up(file.data_bytes, length);
        file.records.push(analyzed);
        assert(file.records.deep_view() =~= before.push(analyzed@));
        self.current = Some(file);
    }

    /// Takes a marker in; answers whether the walk ends with it.
    pub fn on_mark(&mut self, offset: u64, kind: SimhTapeMark) -> (stop: bool)
        ensures
            (final(self)@, stop) == old(self)@.on_mark(offset, kind),
    {
        match kind {
            SimhTapeMark::Single => {
                self.close_file();
                false
            },
            SimhTapeMark::Double => {
                match self.current.take() {
                    Some(file) => {
                        let mut file = file;
                        file.tape_mark_warning = Some(String::from_str("Double tape mark encountered"));
                        push_completed_file(&mut self.analysis, file);
                    },
                    None => {
                        self.warn(String::from_str("Double tape mark observed outside of a file"));
                    },
                }
                false
            },
            SimhTapeMark::EndOfTape => {
                self.close_file();
                self.analysis.end_of_tape_offset = Some(offset);
                true
            },
            _ => {
                self.warn(marker_warning(kind, offset));
                false
            },
        }
    }

    /// Takes one answer of the decoder in; answers whether the walk ends
    /// with it.
    pub fn on_block(&mut self, result: Result<SimhTapeBlock, TapeError>) -> (stop: bool)
        ensures
            (final(self)@, stop) == old(self)@.on_block(block_outcome(result)),
    {
        reveal(AggregatorModel::on_block);
        match result {
            Ok(SimhTapeBlock::Record(record)) => {
                self.on_record(record);
                false
            },
            Ok(SimhTapeBlock::TapeMark { offset, kind }) => self.on_mark(offset, kind),
            Ok(SimhTapeBlock::EndOfStream) => {
                self.close_file();
                true
            },
            Err(err) => {
                self.warn(err.to_string());
                self.close_file();
                true
            },
        }
    }

    /// Ends the walk: sums the tape up and looks for the BACKUP command.
    pub fn finish(self) -> (analysis: TapeAnalysis)
        ensures
            analysis@ == self@.finish(),
    {
        let mut analysis = self.analysis;
        analysis.tape_summary = summarize_tape(analysis.files.as_slice());
        if analysis.backup_command.is_none() {
            analysis.backup_command = extract_backup_command(&self.command_records);
        }
        analysis
    }
}

/// What keeps the sums of the analyser within their types: no more
/// records than bytes walked, no more files than records.
pub open spec fn spec_within_budget(state: AggregatorModel, pos: nat) -> bool {
    &&& state.analysis.totals.files <= state.analysis.totals.records
    &&& 8 * state.analysis.totals.records <= pos
    &&& state.analysis.totals.data_bytes <= pos
    &&& state.current matches Some(file) ==> file.records.len() <= state.analysis.totals.records
        && file.data_bytes <= state.analysis.totals.data_bytes
}

/// One step of the walk keeps the sums within their types, so that none
/// of them is ever full, and moves on.
#[verifier::rlimit(40)]
pub proof fn lemma_walk_step(bytes: Seq<u8>, state: AggregatorModel, pos: nat, pending: bool)
    requires
        reachable(bytes, pos, pending),
        spec_within_budget(state, pos),
        bytes.len() <= usize::MAX,
    ensures
        ({
            let step = spec_next_block(bytes, MAX_RECORD_LENGTH, pos, pending);
            let (next, stop) = state.on_block(step.result);
            &&& reachable(bytes, step.pos, step.pending_double)
            &&& spec_within_budget(next, step.pos)
            &&& !stop ==> pos < step.pos
            &&& step.result matches Ok(BlockModel::Record(record)) ==> {
                &&& state.analysis.totals.files < usize::MAX
                &&& state.analysis.totals.records < usize::MAX
                &&& state.analysis.totals.data_bytes + record.header.length <= u64::MAX
                &&& state.current matches Some(file) ==> file.records.len() < usize::MAX
                    && file.data_bytes + record.header.length <= u64::MAX
            }
        }),
{
    reveal(AggregatorModel::on_block);
    crate::round_trip::lemma_step_stays_reachable(bytes, MAX_RECORD_LENGTH, pos, pending);
    let step = spec_next_block(bytes, MAX_RECORD_LENGTH, pos, pending);
    match step.result {
        Ok(BlockModel::Record(record)) => {
            crate::round_trip::lemma_decoded_record_well_formed(bytes, MAX_RECORD_LENGTH, pos, pending);
        },
        _ => {},
    }
}

/// Analyses a tape image: its files, their records, warnings, summaries
/// and the BACKUP command, as far as the image can be decoded.
pub fn analyze_bytes(bytes: &[u8]) -> (analysis: TapeAnalysis)
    ensures
        analysis@ == spec_analyze_bytes(bytes@),
        crate::consistency::spec_consistent(analysis@),
{
    let mut aggregator = Aggregator::new(bytes.len() as u64);
    let mut reader = SimhTapeReader::new(bytes);
    loop
        invariant_except_break
            reader.wf(),
            spec_within_budget(aggregator@, reader.position()),
            spec_analyze_bytes(bytes@) == spec_walk(
                bytes@,
                aggregator@,
                reader.position(),
                reader.pending_double(),
            ).finish(),
        invariant
            reader.bytes() == bytes@,
            reader.safety_limit() == MAX_RECORD_LENGTH,
            bytes@.len() <= usize::MAX,
        ensures
            spec_analyze_bytes(bytes@) == aggregator@.finish(),
        decreases bytes@.len() - reader.position(),
    {
        proof {
            lemma_walk_step(bytes@, aggregator@, reader.position(), reader.pending_double());
        }
        let result = reader.next_block();
        let stop = aggregator.on_block(result);
        if stop {
            break ;
        }
    }
    let analysis = aggregator.finish();
    proof {
        crate::consistency::lemma_analysis_consistent(bytes@);
    }
    analysis
}

} // verus!
