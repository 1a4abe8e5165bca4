//! The report of an analysis, as lines of text.

use vstd::prelude::*;
use vstd::string::*;
use crate::encoding::{encoding_name, spec_encoding_name, RecordEncoding};
use crate::label::{AnsiLabel, LabelModel};
use crate::record::{AnalysisReport, AnalyzedRecord, FileReport, RecordReport, TapeAnalysis, TapeFile};
use crate::summary::{set_get_index, set_len, SummaryModel, TapeSummary};
use crate::text::{
    debug_text, decimal, format_with_commas, join_lines, push_line, spec_debug_text, spec_decimal,
    spec_join, spec_lines, spec_with_commas, spec_zero_pad, string_chars,
};

verus! {

/// Which previews a report shows.
#[derive(Debug, Clone, Copy)]
pub struct OutputOptions {
    pub show_binary: bool,
    pub show_ascii: bool,
    pub show_labels: bool,
}

impl Default for OutputOptions {
    fn default() -> (r: Self)
        ensures
            !r.show_binary,
            !r.show_ascii,
            !r.show_labels,
    {
        Self { show_binary: false, show_ascii: false, show_labels: false }
    }
}

impl OutputOptions {
    /// The options that a set of switches asks for: each preview is hidden
    /// unless its `show` switch is set; the `suppress` switches and
    /// `summaries_only` ask for what is the default.
    pub fn from_flags(
        summaries_only: bool,
        show_binary: bool,
        suppress_binary: bool,
        show_ascii: bool,
        suppress_ascii: bool,
        show_labels: bool,
        suppress_labels: bool,
    ) -> (r: Self)
        ensures
            r.show_binary == show_binary,
            r.show_ascii == show_ascii,
            r.show_labels == show_labels,
    {
        let mut opts = OutputOptions::default();
        if summaries_only {
            opts.show_binary = false;
            opts.show_ascii = false;
            opts.show_labels = false;
        }
        if show_binary {
            opts.show_binary = true;
        } else if suppress_binary {
            opts.show_binary = false;
        }
        if show_ascii {
            opts.show_ascii = true;
        } else if suppress_ascii {
            opts.show_ascii = false;
        }
        if show_labels {
            opts.show_labels = true;
        } else if suppress_labels {
            opts.show_labels = false;
        }
        opts
    }
}

/// A switch in words.
pub fn bool_flag(value: bool) -> (word: &'static str)
    ensures
        word@ == if value {
            "on"@
        } else {
            "off"@
        },
{
    if value {
        "on"
    } else {
        "off"
    }
}

/// A label as `{:?}` prints it: the name of its kind and its fields.
pub open spec fn spec_label_debug(label: LabelModel) -> Seq<char> {
    match label {
        LabelModel::Volume { serial, owner } => "Volume { serial: "@ + spec_debug_text(serial)
            + ", owner: "@ + spec_debug_text(owner) + " }"@,
        LabelModel::FileHeader1 { file, file_set, created } => "FileHeader1 { file: "@
            + spec_debug_text(file) + ", file_set: "@ + spec_debug_text(file_set) + ", created: "@
            + spec_debug_text(created) + " }"@,
        LabelModel::FileHeader2 { record_format, block_len, record_len } =>
            "FileHeader2 { record_format: "@ + spec_debug_text(record_format) + ", block_len: "@
            + spec_debug_text(block_len) + ", record_len: "@ + spec_debug_text(record_len) + " }"@,
        LabelModel::EndOfFile { blocks, file } => "EndOfFile { blocks: "@ + spec_debug_text(blocks)
            + ", file: "@ + spec_debug_text(file) + " }"@,
        LabelModel::EndOfVolume { blocks, file } => "EndOfVolume { blocks: "@ + spec_debug_text(blocks)
            + ", file: "@ + spec_debug_text(file) + " }"@,
        LabelModel::UserHeader { id, payload } => "UserHeader { id: "@ + spec_debug_text(id)
            + ", payload: "@ + spec_debug_text(payload) + " }"@,
        LabelModel::UserTrailer { id } => "UserTrailer { id: "@ + spec_debug_text(id) + " }"@,
        LabelModel::Raw(id) => "Raw("@ + spec_debug_text(id) + ")"@,
    }
}

fn two_fields(head: &str, first: &str, middle: &str, second: &str) -> (text: String)
    ensures
        text@ == head@ + spec_debug_text(first@) + middle@ + spec_debug_text(second@) + " }"@,
{
    let mut text = String::from_str(head);
    text.append(debug_text(first).as_str());
    text.append(middle);
    text.append(debug_text(second).as_str());
    text.append(" }");
    text
}

fn three_fields(head: &str, first: &str, middle: &str, second: &str, last: &str, third: &str) -> (text:
    String)
    ensures
        text@ == head@ + spec_debug_text(first@) + middle@ + spec_debug_text(second@) + last@
            + spec_debug_text(third@) + " }"@,
{
    let mut text = String::from_str(head);
    text.append(debug_text(first).as_str());
    text.append(middle);
    text.append(debug_text(second).as_str());
    text.append(last);
    text.append(debug_text(third).as_str());
    text.append(" }");
    text
}

/// A label as `{:?}` prints it.
pub fn label_debug(label: &AnsiLabel) -> (text: String)
    ensures
        text@ == spec_label_debug(label@),
{
    match label {
        AnsiLabel::Volume { serial, owner } => two_fields(
            "Volume { serial: ",
            serial.as_str(),
            ", owner: ",
            owner.as_str(),
        ),
        AnsiLabel::FileHeader1 { file, file_set, created } => three_fields(
            "FileHeader1 { file: ",
            file.as_str(),
            ", file_set: ",
            file_set.as_str(),
            ", created: ",
            created.as_str(),
        ),
        AnsiLabel::FileHeader2 { record_format, block_len, record_len } => three_fields(
            "FileHeader2 { record_format: ",
            record_format.as_str(),
            ", block_len: ",
            block_len.as_str(),
            ", record_len: ",
            record_len.as_str(),
        ),
        AnsiLabel::EndOfFile { blocks, file } => two_fields(
            "EndOfFile { blocks: ",
            blocks.as_str(),
            ", file: ",
            file.as_str(),
        ),
        AnsiLabel::EndOfVolume { blocks, file } => two_fields(
            "EndOfVolume { blocks: ",
            blocks.as_str(),
            ", file: ",
            file.as_str(),
        ),
        AnsiLabel::UserHeader { id, payload } => two_fields(
            "UserHeader { id: ",
            id.as_str(),
            ", payload: ",
            payload.as_str(),
        ),
        AnsiLabel::UserTrailer { id } => {
            let mut text = String::from_str("UserTrailer { id: ");
            text.append(debug_text(id.as_str()).as_str());
            text.append(" }");
            text
        },
        AnsiLabel::Raw(id) => {
            let mut text = String::from_str("Raw(");
            text.append(debug_text(id.as_str()).as_str());
            text.append(")");
            text
        },
    }
}

/// Each line with `prefix` before it.
pub open spec fn spec_prefixed(lines: Seq<Seq<char>>, prefix: Seq<char>) -> Seq<Seq<char>> {
    Seq::new(lines.len(), |i: int| prefix + lines[i])
}

/// Each line with `suffix` behind it.
pub open spec fn spec_suffixed(lines: Seq<Seq<char>>, suffix: Seq<char>) -> Seq<Seq<char>> {
    Seq::new(lines.len(), |i: int| lines[i] + suffix)
}

/// The lines of two lists in turn, as far as both go.
pub open spec fn spec_interleaved(first: Seq<Seq<char>>, second: Seq<Seq<char>>) -> Seq<Seq<char>> {
    let pairs = if first.len() < second.len() {
        first.len()
    } else {
        second.len()
    };
    Seq::new(
        2 * pairs,
        |i: int|
            if i % 2 == 0 {
                first[i / 2]
            } else {
                second[i / 2]
            },
    )
}

/// Appends each line with `prefix` before it.
fn push_prefixed(lines: &mut Vec<String>, prefix: &str, more: &Vec<String>)
    ensures
        spec_lines(final(lines)@) == spec_lines(old(lines)@) + spec_prefixed(spec_lines(more@), prefix@),
{
    let mut i: usize = 0;
    assert(spec_lines(lines@) =~= spec_lines(old(lines)@) + spec_prefixed(spec_lines(more@), prefix@).take(0));
    while i < more.len()
        invariant
            i <= more@.len(),
            spec_lines(lines@) == spec_lines(old(lines)@) + spec_prefixed(spec_lines(more@), prefix@).take(
                i as int,
            ),
        decreases more@.len() - i,
    {
        let mut line = String::from_str(prefix);
        line.append(more[i].as_str());
        push_line(lines, line);
        i += 1;
        assert(spec_lines(lines@) =~= spec_lines(old(lines)@) + spec_prefixed(
            spec_lines(more@),
            prefix@,
        ).take(i as int));
    }
    assert(spec_prefixed(spec_lines(more@), prefix@).take(i as int) =~= spec_prefixed(
        spec_lines(more@),
        prefix@,
    ));
}

/// Appends each line with `suffix` behind it.
fn push_suffixed(lines: &mut Vec<String>, more: &Vec<String>, suffix: &str)
    ensures
        spec_lines(final(lines)@) == spec_lines(old(lines)@) + spec_suffixed(spec_lines(more@), suffix@),
{
    let mut i: usize = 0;
    assert(spec_lines(lines@) =~= spec_lines(old(lines)@) + spec_suffixed(spec_lines(more@), suffix@).take(0));
    while i < more.len()
        invariant
            i <= more@.len(),
            spec_lines(lines@) == spec_lines(old(lines)@) + spec_suffixed(spec_lines(more@), suffix@).take(
                i as int,
            ),
        decreases more@.len() - i,
    {
        let mut line = more[i].clone();
        line.append(suffix);
        push_line(lines, line);
        i += 1;
        assert(spec_lines(lines@) =~= spec_lines(old(lines)@) + spec_suffixed(
            spec_lines(more@),
            suffix@,
        ).take(i as int));
    }
    assert(spec_suffixed(spec_lines(more@), suffix@).take(i as int) =~= spec_suffixed(
        spec_lines(more@),
        suffix@,
    ));
}

/// Appends all the lines of `more`.
fn push_all(lines: &mut Vec<String>, more: &Vec<String>)
    ensures
        spec_lines(final(lines)@) == spec_lines(old(lines)@) + spec_lines(more@),
{
    let mut i: usize = 0;
    assert(spec_lines(lines@) =~= spec_lines(old(lines)@) + spec_lines(more@).take(0));
    while i < more.len()
        invariant
            i <= more@.len(),
            spec_lines(lines@) == spec_lines(old(lines)@) + spec_lines(more@).take(i as int),
        decreases more@.len() - i,
    {
        push_line(lines, more[i].clone());
        i += 1;
        assert(spec_lines(lines@) =~= spec_lines(old(lines)@) + spec_lines(more@).take(i as int));
    }
    assert(spec_lines(more@).take(i as int) =~= spec_lines(more@));
}

/// A line made of a head, a number with commas, and a tail.
fn counted(head: &str, value: u128, tail: &str) -> (line: String)
    ensures
        line@ == head@ + spec_with_commas(value as nat) + tail@,
{
    let mut line = String::from_str(head);
    line.append(format_with_commas(value).as_str());
    line.append(tail);
    line
}

/// The lines that list a summary, each behind `indent`; a single line
/// that says so where the summary is empty.
pub open spec fn spec_summary_lines(summary: SummaryModel, indent: Seq<char>) -> Seq<Seq<char>> {
    let lines = (if summary.platforms.len() > 0 {
        seq![indent + "Platforms: "@ + spec_join(summary.platforms, ", "@)]
    } else {
        Seq::<Seq<char>>::empty()
    }) + (if summary.formats.len() > 0 {
        seq![indent + "Formats: "@ + spec_join(summary.formats, ", "@)]
    } else {
        Seq::<Seq<char>>::empty()
    }) + (if summary.details.len() > 0 {
        seq![indent + "Details:"@] + spec_prefixed(summary.details, indent + "  - "@)
    } else {
        Seq::<Seq<char>>::empty()
    });
    if lines.len() == 0 {
        seq![indent + "(no summary details)"@]
    } else {
        lines
    }
}

/// The texts of a set, in its order.
fn set_lines(set: &indexmap::IndexSet<String>) -> (lines: Vec<String>)
    ensures
        spec_lines(lines@) == crate::summary::set_items(*set),
{
    let mut lines: Vec<String> = Vec::new();
    let count: usize = set_len(set);
    let mut i: usize = 0;
    assert(spec_lines(lines@) =~= crate::summary::set_items(*set).take(0));
    while i < count
        invariant
            i <= count == crate::summary::set_items(*set).len(),
            spec_lines(lines@) == crate::summary::set_items(*set).take(i as int),
        decreases count - i,
    {
        match set_get_index(set, i) {
            Some(text) => {
                push_line(&mut lines, text.clone());
            },
            None => {},
        }
        i += 1;
        assert(spec_lines(lines@) =~= crate::summary::set_items(*set).take(i as int));
    }
    assert(crate::summary::set_items(*set).take(i as int) =~= crate::summary::set_items(*set));
    lines
}

fn summary_lines(summary: &TapeSummary, indent: &str) -> (lines: Vec<String>)
    ensures
        spec_lines(lines@) == spec_summary_lines(summary@, indent@),
{
    let mut lines: Vec<String> = Vec::new();
    assert(spec_lines(lines@) =~= Seq::<Seq<char>>::empty());
    if set_len(&summary.platforms) > 0 {
        let mut line = String::from_str(indent);
        line.append("Platforms: ");
        line.append(join_lines(&set_lines(&summary.platforms), ", ").as_str());
        push_line(&mut lines, line);
    }
    if set_len(&summary.formats) > 0 {
        let mut line = String::from_str(indent);
        line.append("Formats: ");
        line.append(join_lines(&set_lines(&summary.formats), ", ").as_str());
        push_line(&mut lines, line);
    }
    if summary.details.len() > 0 {
        let mut line = String::from_str(indent);
        line.append("Details:");
        push_line(&mut lines, line);
        let mut bullet = String::from_str(indent);
        bullet.append("  - ");
        push_prefixed(&mut lines, bullet.as_str(), &summary.details);
    }
    if lines.len() == 0 {
        let mut line = String::from_str(indent);
        line.append("(no summary details)");
        push_line(&mut lines, line);
    }
    assert(spec_lines(lines@) =~= spec_summary_lines(summary@, indent@));
    lines
}

/// Whether the text of a record of this encoding can be shown.
pub open spec fn spec_is_textual(encoding: RecordEncoding) -> bool {
    encoding == RecordEncoding::Ascii || encoding == RecordEncoding::MostlyAscii || encoding
        == RecordEncoding::Ansi || encoding == RecordEncoding::MostlyAnsi
}

/// The preview of a record as the options allow it: a note in place of a
/// label, of binary data or of text that is not to be shown, else the
/// lines of the preview, each hexadecimal line before its text.
pub open spec fn spec_record_preview_lines(record: RecordReport, opts: OutputOptions) -> Seq<Seq<char>> {
    if record.label is Some && !opts.show_labels {
        seq!["[label preview suppressed]"@]
    } else if record.encoding == RecordEncoding::Binary && !opts.show_binary {
        seq!["[binary data suppressed: "@ + spec_with_commas(record.length as nat) + " bytes]"@]
    } else if spec_is_textual(record.encoding) && !opts.show_ascii {
        seq!["[ascii data suppressed: "@ + spec_with_commas(record.length as nat) + " bytes]"@]
    } else {
        spec_interleaved(record.preview.hex_lines, record.preview.text_lines)
    }
}

/// The preview of a record as the options allow it.
pub fn record_preview_lines(record: &AnalyzedRecord, opts: &OutputOptions) -> (lines: Vec<String>)
    ensures
        spec_lines(lines@) == spec_record_preview_lines(record@, *opts),
{
    let mut lines: Vec<String> = Vec::new();
    if record.label.is_some() && !opts.show_labels {
        push_line(&mut lines, String::from_str("[label preview suppressed]"));
        assert(spec_lines(lines@) =~= spec_record_preview_lines(record@, *opts));
        return lines;
    }
    let textual = match record.encoding {
        RecordEncoding::Ascii | RecordEncoding::MostlyAscii | RecordEncoding::Ansi | RecordEncoding::MostlyAnsi => true,
        _ => false,
    };
    let binary = match record.encoding {
        RecordEncoding::Binary => true,
        _ => false,
    };
    if binary && !opts.show_binary {
        push_line(&mut lines, counted("[binary data suppressed: ", record.length as u128, " bytes]"));
        assert(spec_lines(lines@) =~= spec_record_preview_lines(record@, *opts));
        return lines;
    }
    if textual && !opts.show_ascii {
        push_line(&mut lines, counted("[ascii data suppressed: ", record.length as u128, " bytes]"));
        assert(spec_lines(lines@) =~= spec_record_preview_lines(record@, *opts));
        return lines;
    }
    let hex = &record.preview.hex_lines;
    let text = &record.preview.text_lines;
    let pairs: usize = if hex.len() < text.len() {
        hex.len()
    } else {
        text.len()
    };
    let ghost goal = spec_interleaved(spec_lines(hex@), spec_lines(text@));
    let mut i: usize = 0;
    assert(spec_lines(lines@) =~= goal.take(0));
    while i < pairs
        invariant
            i <= pairs,
            pairs <= hex@.len(),
            pairs <= text@.len(),
            goal == spec_interleaved(spec_lines(hex@), spec_lines(text@)),
            goal.len() == 2 * pairs,
            spec_lines(lines@) == goal.take(2 * i),
        decreases pairs - i,
    {
        push_line(&mut lines, hex[i].clone());
        push_line(&mut lines, text[i].clone());
        i += 1;
        assert(spec_lines(lines@) =~= goal.take(2 * i));
    }
    assert(goal.take(2 * i) =~= goal);
    lines
}

/// The lines under the heading of a record: its label, its signatures,
/// its preview, its warnings.
pub open spec fn spec_record_body_lines(record: RecordReport, opts: OutputOptions) -> Seq<Seq<char>> {
    (match record.label {
        Some(label) => seq!["    Label: "@ + spec_label_debug(label)],
        None => Seq::<Seq<char>>::empty(),
    }) + Seq::new(
        record.signatures.len(),
        |i: int| "    \u{2192} "@ + record.signatures[i].describe_full(),
    ) + spec_prefixed(spec_record_preview_lines(record, opts), "    "@) + spec_prefixed(
        record.warnings,
        "    Warning: "@,
    )
}

fn record_body_lines(record: &AnalyzedRecord, opts: &OutputOptions) -> (lines: Vec<String>)
    ensures
        spec_lines(lines@) == spec_record_body_lines(record@, *opts),
{
    let mut lines: Vec<String> = Vec::new();
    assert(spec_lines(lines@) =~= Seq::<Seq<char>>::empty());
    match &record.label {
        Some(label) => {
            let mut line = String::from_str("    Label: ");
            line.append(label_debug(label).as_str());
            push_line(&mut lines, line);
        },
        None => {},
    }
    let ghost head = spec_lines(lines@);
    let ghost arrows = Seq::new(
        record@.signatures.len(),
        |i: int| "    \u{2192} "@ + record@.signatures[i].describe_full(),
    );
    let mut i: usize = 0;
    assert(spec_lines(lines@) =~= head + arrows.take(0));
    while i < record.signatures.len()
        invariant
            i <= record.signatures@.len(),
            arrows == Seq::new(
                record@.signatures.len(),
                |i: int| "    \u{2192} "@ + record@.signatures[i].describe_full(),
            ),
            spec_lines(lines@) == head + arrows.take(i as int),
        decreases record.signatures@.len() - i,
    {
        let mut line = String::from_str("    \u{2192} ");
        line.append(record.signatures[i].describe_full().as_str());
        push_line(&mut lines, line);
        i += 1;
        assert(spec_lines(lines@) =~= head + arrows.take(i as int));
    }
    assert(arrows.take(i as int) =~= arrows);
    push_prefixed(&mut lines, "    ", &record_preview_lines(record, opts));
    push_prefixed(&mut lines, "    Warning: ", &record.warnings);
    assert(spec_lines(lines@) =~= spec_record_body_lines(record@, *opts));
    lines
}

/// A run of records that follow each other and look alike.
#[derive(Debug, Clone)]
pub struct RecordRun {
    pub start_index: usize,
    pub end_index: usize,
    pub count: usize,
    pub start_offset: u64,
    pub end_offset: u64,
    pub length: u32,
    pub encoding: RecordEncoding,
    pub body: Vec<String>,
}

/// A run as a value.
pub struct RunModel {
    pub start_index: nat,
    pub end_index: nat,
    pub count: nat,
    pub start_offset: u64,
    pub end_offset: u64,
    pub length: u32,
    pub encoding: RecordEncoding,
    pub body: Seq<Seq<char>>,
}

impl View for RecordRun {
    type V = RunModel;

    open spec fn view(&self) -> RunModel {
        RunModel {
            start_index: self.start_index as nat,
            end_index: self.end_index as nat,
            count: self.count as nat,
            start_offset: self.start_offset,
            end_offset: self.end_offset,
            length: self.length,
            encoding: self.encoding,
            body: spec_lines(self.body@),
        }
    }
}

impl DeepView for RecordRun {
    type V = RunModel;

    open spec fn deep_view(&self) -> RunModel {
        self@
    }
}

impl RunModel {
    /// The run of one record.
    pub open spec fn start(record: RecordReport, body: Seq<Seq<char>>) -> RunModel {
        RunModel {
            start_index: record.record_index,
            end_index: record.record_index,
            count: 1,
            start_offset: record.offset,
            end_offset: record.offset,
            length: record.length,
            encoding: record.encoding,
            body,
        }
    }

    /// Whether a record with the given body goes on with the run: it has
    /// the length, the encoding and the body of the run.
    pub open spec fn can_extend(self, record: RecordReport, body: Seq<Seq<char>>) -> bool {
        record.length == self.length && record.encoding == self.encoding && body == self.body
    }

    /// The run with one more record at its end.
    pub open spec fn extend(self, record: RecordReport) -> RunModel {
        RunModel { end_index: record.record_index, end_offset: record.offset, count: self.count + 1, ..self }
    }
}

/// The runs of the records: a record joins the run before it where it has
/// its length, its encoding and its body, else it starts a run.
pub open spec fn spec_coalesce_record_runs(records: Seq<RecordReport>, opts: OutputOptions) -> Seq<RunModel>
    decreases records.len(),
{
    if records.len() == 0 {
        Seq::<RunModel>::empty()
    } else {
        let before = spec_coalesce_record_runs(records.drop_last(), opts);
        let body = spec_record_body_lines(records.last(), opts);
        if before.len() > 0 && before.last().can_extend(records.last(), body) {
            before.drop_last().push(before.last().extend(records.last()))
        } else {
            before.push(RunModel::start(records.last(), body))
        }
    }
}

/// Whether two lists of lines are the same.
fn same_lines(a: &Vec<String>, b: &Vec<String>) -> (r: bool)
    ensures
        r == (spec_lines(a@) == spec_lines(b@)),
{
    if a.len() != b.len() {
        return false;
    }
    let mut i: usize = 0;
    while i < a.len()
        invariant
            i <= a@.len() == b@.len(),
            forall|k: int| 0 <= k < i ==> spec_lines(a@)[k] == spec_lines(b@)[k],
        decreases a@.len() - i,
    {
        if a[i] != b[i] {
            assert(spec_lines(a@)[i as int] != spec_lines(b@)[i as int]);
            return false;
        }
        i += 1;
    }
    assert(spec_lines(a@) =~= spec_lines(b@));
    true
}

impl RecordRun {
    fn new(record: &AnalyzedRecord, body: Vec<String>) -> (run: Self)
        ensures
            run@ == RunModel::start(record@, spec_lines(body@)),
    {
        Self {
            start_index: record.record_index,
            end_index: record.record_index,
            count: 1,
            start_offset: record.offset,
            end_offset: record.offset,
            length: record.length,
            encoding: record.encoding,
            body,
        }
    }

    fn can_extend(&self, record: &AnalyzedRecord, body: &Vec<String>) -> (r: bool)
        ensures
            r == self@.can_extend(record@, spec_lines(body@)),
    {
        record.length == self.length && record.encoding == self.encoding && same_lines(body, &self.body)
    }

    fn extend(&mut self, record: &AnalyzedRecord)
        requires
            old(self).count < usize::MAX,
        ensures
            final(self)@ == old(self)@.extend(record@),
    {
        self.end_index = record.record_index;
        self.end_offset = record.offset;
        self.count = self.count + 1;
    }
}

/// The runs of the records.
pub fn coalesce_record_runs(records: &[AnalyzedRecord], opts: &OutputOptions) -> (runs: Vec<RecordRun>)
    ensures
        runs.deep_view() == spec_coalesce_record_runs(records.deep_view(), *opts),
{
    let ghost all = records.deep_view();
    let mut runs: Vec<RecordRun> = Vec::new();
    let mut i: usize = 0;
    assert(all.take(0) =~= Seq::<RecordReport>::empty());
    assert(runs.deep_view() =~= Seq::<RunModel>::empty());
    while i < records.len()
        invariant
            i <= records@.len(),
            all == records.deep_view(),
            runs.deep_view() == spec_coalesce_record_runs(all.take(i as int), *opts),
            forall|k: int| 0 <= k < runs@.len() ==> (#[trigger] runs@[k]).count <= i,
        decreases records@.len() - i,
    {
        let record = &records[i];
        let body = record_body_lines(record, opts);
        assert(all.take(i + 1).drop_last() =~= all.take(i as int));
        assert(all.take(i + 1).last() == record@);
        let ghost before = runs.deep_view();
        let extends = runs.len() > 0 && runs[runs.len() - 1].can_extend(record, &body);
        if extends {
            let mut run = match runs.pop() {
                Some(run) => run,
                None => RecordRun::new(record, Vec::new()),
            };
            assert(run@ == before.last());
            run.extend(record);
            runs.push(run);
            assert(runs.deep_view() =~= before.drop_last().push(before.last().extend(record@)));
        } else {
            runs.push(RecordRun::new(record, body));
            assert(runs.deep_view() =~= before.push(RunModel::start(record@, spec_lines(body@))));
        }
        i += 1;
    }
    assert(all.take(i as int) =~= all);
    runs
}

/// `v` in decimal, at least four digits wide.
pub open spec fn spec_index(v: nat) -> Seq<char> {
    spec_zero_pad(spec_decimal(v), 4)
}

fn index_text(v: usize) -> (text: String)
    ensures
        text@ == spec_index(v as nat),
{
    let digits = decimal(v as u128);
    let chars = string_chars(digits.as_str());
    let mut text = String::new();
    let mut pad: usize = chars.len();
    while pad < 4
        invariant
            chars@.len() <= pad,
            pad <= 4 || pad == chars@.len(),
            text@ == crate::text::spec_repeat('0', (pad - chars@.len()) as nat),
        decreases 4 - pad,
    {
        crate::text::push_char(&mut text, '0');
        pad += 1;
        assert(text@ =~= crate::text::spec_repeat('0', (pad - chars@.len()) as nat));
    }
    text.append(digits.as_str());
    assert(text@ =~= spec_index(v as nat));
    text
}

/// The lines that report a run: a heading and the body, once for all its
/// records.
pub open spec fn spec_run_lines(run: RunModel) -> Seq<Seq<char>> {
    if run.count == 1 {
        seq![
            "  Record "@ + spec_index(run.start_index) + ": "@ + spec_with_commas(run.length as nat)
                + " bytes @ "@ + spec_with_commas(run.start_offset as nat) + " ["@ + spec_encoding_name(
                run.encoding,
            ) + "]"@,
        ] + run.body
    } else {
        seq![
            "  Records "@ + spec_index(run.start_index) + "-"@ + spec_index(run.end_index) + " ("@
                + spec_with_commas(run.count) + " records): "@ + spec_with_commas(run.length as nat)
                + " bytes each @ offsets "@ + spec_with_commas(run.start_offset as nat) + ".."@
                + spec_with_commas(run.end_offset as nat) + " ["@ + spec_encoding_name(run.encoding)
                + "]"@,
        ] + spec_suffixed(run.body, " (repeated "@ + spec_with_commas(run.count) + "x)"@)
    }
}

fn push_run_lines(lines: &mut Vec<String>, run: &RecordRun)
    ensures
        spec_lines(final(lines)@) == spec_lines(old(lines)@) + spec_run_lines(run@),
{
    if run.count == 1 {
        let mut line = String::from_str("  Record ");
        line.append(index_text(run.start_index).as_str());
        line.append(": ");
        line.append(format_with_commas(run.length as u128).as_str());
        line.append(" bytes @ ");
        line.append(format_with_commas(run.start_offset as u128).as_str());
        line.append(" [");
        line.append(encoding_name(run.encoding));
        line.append("]");
        push_line(lines, line);
        push_all(lines, &run.body);
    } else {
        let mut line = String::from_str("  Records ");
        line.append(index_text(run.start_index).as_str());
        line.append("-");
        line.append(index_text(run.end_index).as_str());
        line.append(" (");
        line.append(format_with_commas(run.count as u128).as_str());
        line.append(" records): ");
        line.append(format_with_commas(run.length as u128).as_str());
        line.append(" bytes each @ offsets ");
        line.append(format_with_commas(run.start_offset as u128).as_str());
        line.append("..");
        line.append(format_with_commas(run.end_offset as u128).as_str());
        line.append(" [");
        line.append(encoding_name(run.encoding));
        line.append("]");
        push_line(lines, line);
        let suffix = counted(" (repeated ", run.count as u128, "x)");
        push_suffixed(lines, &run.body, suffix.as_str());
    }
    assert(spec_lines(lines@) =~= spec_lines(old(lines)@) + spec_run_lines(run@));
}

/// The lines that report the runs, in turn.
pub open spec fn spec_runs_lines(runs: Seq<RunModel>) -> Seq<Seq<char>>
    decreases runs.len(),
{
    if runs.len() == 0 {
        Seq::<Seq<char>>::empty()
    } else {
        spec_runs_lines(runs.drop_last()) + spec_run_lines(runs.last())
    }
}

/// The lines that report a file: a rule, a heading, the warning of its
/// tape mark, its summary, its records in runs.
pub open spec fn spec_file_lines(file: FileReport, opts: OutputOptions) -> Seq<Seq<char>> {
    seq![
        Seq::<char>::empty(),
        "-------------------------"@,
        "File #"@ + spec_decimal(file.file_index) + ": "@ + spec_with_commas(file.records.len())
            + " Records ("@ + spec_with_commas(file.data_bytes) + " bytes)"@,
    ] + (match file.tape_mark_warning {
        Some(warning) => seq!["  Tape mark: "@ + warning],
        None => Seq::<Seq<char>>::empty(),
    }) + (match file.summary {
        Some(summary) => seq!["  Summary:"@] + spec_summary_lines(summary, "    "@),
        None => Seq::<Seq<char>>::empty(),
    }) + spec_runs_lines(spec_coalesce_record_runs(file.records, opts))
}

fn push_file_lines(lines: &mut Vec<String>, file: &TapeFile, opts: &OutputOptions)
    ensures
        spec_lines(final(lines)@) == spec_lines(old(lines)@) + spec_file_lines(file@, *opts),
{
    push_line(lines, String::new());
    push_line(lines, String::from_str("-------------------------"));
    let mut heading = String::from_str("File #");
    heading.append(decimal(file.file_index as u128).as_str());
    heading.append(": ");
    heading.append(format_with_commas(file.records.len() as u128).as_str());
    heading.append(" Records (");
    heading.append(format_with_commas(file.data_bytes as u128).as_str());
    heading.append(" bytes)");
    push_line(lines, heading);
    match &file.tape_mark_warning {
        Some(warning) => {
            let mut line = String::from_str("  Tape mark: ");
            line.append(warning.as_str());
            push_line(lines, line);
        },
        None => {},
    }
    match &file.summary {
        Some(summary) => {
            push_line(lines, String::from_str("  Summary:"));
            push_all(lines, &summary_lines(summary, "    "));
        },
        None => {},
    }
    let ghost head = spec_lines(lines@);
    let runs = coalesce_record_runs(file.records.as_slice(), opts);
    let ghost all = runs.deep_view();
    let mut i: usize = 0;
    assert(all.take(0) =~= Seq::<RunModel>::empty());
    assert(spec_lines(lines@) =~= head + spec_runs_lines(all.take(0)));
    while i < runs.len()
        invariant
            i <= runs@.len(),
            all == runs.deep_view(),
            spec_lines(lines@) == head + spec_runs_lines(all.take(i as int)),
        decreases runs@.len() - i,
    {
        assert(all.take(i + 1).drop_last() =~= all.take(i as int));
        assert(all.take(i + 1).last() == runs@[i as int]@);
        push_run_lines(lines, &runs[i]);
        i += 1;
        assert(spec_lines(lines@) =~= head + spec_runs_lines(all.take(i as int)));
    }
    assert(all.take(i as int) =~= all);
    assert(spec_lines(lines@) =~= spec_lines(old(lines)@) + spec_file_lines(file@, *opts));
}

/// The lines that report the files, in turn.
pub open spec fn spec_files_lines(files: Seq<FileReport>, opts: OutputOptions) -> Seq<Seq<char>>
    decreases files.len(),
{
    if files.len() == 0 {
        Seq::<Seq<char>>::empty()
    } else {
        spec_files_lines(files.drop_last(), opts) + spec_file_lines(files.last(), opts)
    }
}

/// The lines that give the totals and where the tape ends.
pub open spec fn spec_totals_lines(analysis: AnalysisReport) -> Seq<Seq<char>> {
    seq![
        "Total files: "@ + spec_with_commas(analysis.totals.files as nat),
        "Total records: "@ + spec_with_commas(analysis.totals.records as nat),
        "Total data bytes: "@ + spec_with_commas(analysis.totals.data_bytes as nat),
    ] + (match analysis.end_of_tape_offset {
        Some(offset) => seq!["End-of-tape marker at offset "@ + spec_with_commas(offset as nat)],
        None => Seq::<Seq<char>>::empty(),
    })
}

/// The lines that give the summary of the tape.
pub open spec fn spec_detection_lines(summary: Option<SummaryModel>) -> Seq<Seq<char>> {
    match summary {
        Some(summary) => seq![Seq::<char>::empty(), "Broad format detection:"@] + spec_summary_lines(
            summary,
            "  "@,
        ),
        None => Seq::<Seq<char>>::empty(),
    }
}

/// The lines that give the BACKUP command.
pub open spec fn spec_command_lines(command: Option<Seq<char>>) -> Seq<Seq<char>> {
    match command {
        Some(command) => seq![Seq::<char>::empty(), "Backup command hint:"@, "  "@ + command],
        None => Seq::<Seq<char>>::empty(),
    }
}

/// The lines that give the warnings for the whole tape.
pub open spec fn spec_warning_lines(warnings: Seq<Seq<char>>) -> Seq<Seq<char>> {
    if warnings.len() > 0 {
        seq!["Warnings:"@] + spec_prefixed(warnings, "  - "@)
    } else {
        Seq::<Seq<char>>::empty()
    }
}

/// The lines at the head of a report: the totals, the end of the tape,
/// the summary of the tape, the command, the warnings.
pub open spec fn spec_head_lines(analysis: AnalysisReport) -> Seq<Seq<char>> {
    spec_totals_lines(analysis) + spec_detection_lines(analysis.tape_summary) + spec_command_lines(
        analysis.backup_command,
    ) + spec_warning_lines(analysis.warnings)
}

/// The lines of a report.
pub open spec fn spec_report_lines(analysis: AnalysisReport, opts: OutputOptions) -> Seq<Seq<char>> {
    spec_head_lines(analysis) + spec_files_lines(analysis.files, opts) + seq![
        "-------------------------"@,
        "End of report.\n"@,
    ]
}

/// The report of an analysis: its lines, a line feed between each two.
pub open spec fn spec_format_analysis(analysis: AnalysisReport, opts: OutputOptions) -> Seq<char> {
    spec_join(spec_report_lines(analysis, opts), "\n"@)
}

fn totals_lines(analysis: &TapeAnalysis) -> (lines: Vec<String>)
    ensures
        spec_lines(lines@) == spec_totals_lines(analysis@),
{
    let mut lines: Vec<String> = Vec::new();
    push_line(&mut lines, counted("Total files: ", analysis.totals.files as u128, ""));
    push_line(&mut lines, counted("Total records: ", analysis.totals.records as u128, ""));
    push_line(&mut lines, counted("Total data bytes: ", analysis.totals.data_bytes as u128, ""));
    match analysis.end_of_tape_offset {
        Some(offset) => {
            push_line(&mut lines, counted("End-of-tape marker at offset ", offset as u128, ""));
        },
        None => {},
    }
    proof {
        reveal_strlit("");
    }
    assert(spec_lines(lines@) =~= spec_totals_lines(analysis@));
    lines
}

fn push_detection_lines(lines: &mut Vec<String>, summary: &Option<TapeSummary>)
    ensures
        spec_lines(final(lines)@) == spec_lines(old(lines)@) + spec_detection_lines(
            crate::record::spec_summary_option(*summary),
        ),
{
    match summary {
        Some(summary) => {
            push_line(lines, String::new());
            push_line(lines, String::from_str("Broad format detection:"));
            push_all(lines, &summary_lines(summary, "  "));
        },
        None => {},
    }
    assert(spec_lines(lines@) =~= spec_lines(old(lines)@) + spec_detection_lines(
        crate::record::spec_summary_option(*summary),
    ));
}

fn push_command_lines(lines: &mut Vec<String>, command: &Option<String>)
    ensures
        spec_lines(final(lines)@) == spec_lines(old(lines)@) + spec_command_lines(
            crate::text::spec_text_option(*command),
        ),
{
    match command {
        Some(command) => {
            push_line(lines, String::new());
            push_line(lines, String::from_str("Backup command hint:"));
            let mut line = String::from_str("  ");
            line.append(command.as_str());
            push_line(lines, line);
        },
        None => {},
    }
    assert(spec_lines(lines@) =~= spec_lines(old(lines)@) + spec_command_lines(
        crate::text::spec_text_option(*command),
    ));
}

fn push_warning_lines(lines: &mut Vec<String>, warnings: &Vec<String>)
    ensures
        spec_lines(final(lines)@) == spec_lines(old(lines)@) + spec_warning_lines(spec_lines(warnings@)),
{
    if warnings.len() > 0 {
        push_line(lines, String::from_str("Warnings:"));
        push_prefixed(lines, "  - ", warnings);
    }
    assert(spec_lines(lines@) =~= spec_lines(old(lines)@) + spec_warning_lines(spec_lines(warnings@)));
}

fn head_lines(analysis: &TapeAnalysis) -> (lines: Vec<String>)
    ensures
        spec_lines(lines@) == spec_head_lines(analysis@),
{
    let mut lines = totals_lines(analysis);
    push_detection_lines(&mut lines, &analysis.tape_summary);
    push_command_lines(&mut lines, &analysis.backup_command);
    push_warning_lines(&mut lines, &analysis.warnings);
    lines
}

/// The report of an analysis, as text.
pub fn format_analysis(analysis: &TapeAnalysis, opts: &OutputOptions) -> (report: String)
    ensures
        report@ == spec_format_analysis(analysis@, *opts),
{
    let mut lines = head_lines(analysis);
    let ghost head = spec_lines(lines@);
    let ghost all = analysis.files.deep_view();
    let mut i: usize = 0;
    assert(all.take(0) =~= Seq::<FileReport>::empty());
    assert(spec_lines(lines@) =~= head + spec_files_lines(all.take(0), *opts));
    while i < analysis.files.len()
        invariant
            i <= analysis.files@.len(),
            all == analysis.files.deep_view(),
            spec_lines(lines@) == head + spec_files_lines(all.take(i as int), *opts),
        decreases analysis.files@.len() - i,
    {
        assert(all.take(i + 1).drop_last() =~= all.take(i as int));
        assert(all.take(i + 1).last() == analysis.files@[i as int]@);
        push_file_lines(&mut lines, &analysis.files[i], opts);
        i += 1;
        assert(spec_lines(lines@) =~= head + spec_files_lines(all.take(i as int), *opts));
    }
    assert(all.take(i as int) =~= all);
    push_line(&mut lines, String::from_str("-------------------------"));
    push_line(&mut lines, String::from_str("End of report.\n"));
    assert(spec_lines(lines@) =~= spec_report_lines(analysis@, *opts));
    join_lines(&lines, "\n")
}

} // verus!
