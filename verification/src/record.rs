//! What the analyser reports: records, files, totals, the whole tape.

use vstd::prelude::*;
use vstd::string::*;
use crate::encoding::{PreviewModel, RecordEncoding, RecordPreview};
use crate::label::{spec_label_option, AnsiLabel, LabelModel};
use crate::signature::{RecordSignature, SignatureModel};
use indexmap::IndexSet;
use crate::summary::{
    set_get_index, set_insert, set_items, set_len, set_new, spec_insert_all, SummaryModel,
    TapeSummary,
};
use crate::text::{spec_lines, spec_text_option};

verus! {

/// A record as the analyser sees it.
#[derive(Debug, Clone)]
pub struct AnalyzedRecord {
    pub record_index: usize,
    pub offset: u64,
    pub length: u32,
    pub class: u8,
    pub encoding: RecordEncoding,
    pub label: Option<AnsiLabel>,
    pub signatures: Vec<RecordSignature>,
    pub warnings: Vec<String>,
    pub preview: RecordPreview,
    pub trailing_length: Option<u32>,
}

/// An analysed record as a value.
pub struct RecordReport {
    pub record_index: nat,
    pub offset: u64,
    pub length: u32,
    pub class: u8,
    pub encoding: RecordEncoding,
    pub label: Option<LabelModel>,
    pub signatures: Seq<SignatureModel>,
    pub warnings: Seq<Seq<char>>,
    pub preview: PreviewModel,
    pub trailing_length: Option<u32>,
}

impl View for AnalyzedRecord {
    type V = RecordReport;

    open spec fn view(&self) -> RecordReport {
        RecordReport {
            record_index: self.record_index as nat,
            offset: self.offset,
            length: self.length,
            class: self.class,
            encoding: self.encoding,
            label: spec_label_option(self.label),
            signatures: self.signatures.deep_view(),
            warnings: spec_lines(self.warnings@),
            preview: self.preview@,
            trailing_length: self.trailing_length,
        }
    }
}

impl DeepView for AnalyzedRecord {
    type V = RecordReport;

    open spec fn deep_view(&self) -> RecordReport {
        self@
    }
}

impl Default for AnalyzedRecord {
    fn default() -> (r: Self)
        ensures
            r.record_index == 0,
            r.offset == 0,
            r.length == 0,
            r.class == 0,
            r.encoding == RecordEncoding::Binary,
            r.label is None,
            r.signatures@.len() == 0,
            r.warnings@.len() == 0,
            r.preview@ == crate::encoding::spec_empty_preview(),
            r.trailing_length is None,
    {
        AnalyzedRecord {
            record_index: 0,
            offset: 0,
            length: 0,
            class: 0,
            encoding: RecordEncoding::Binary,
            label: None,
            signatures: Vec::new(),
            warnings: Vec::new(),
            preview: RecordPreview::default(),
            trailing_length: None,
        }
    }
}

/// The model of an optional summary.
pub open spec fn spec_summary_option(summary: Option<TapeSummary>) -> Option<SummaryModel> {
    match summary {
        Some(s) => Some(s@),
        None => None,
    }
}

/// The records between two tape marks.
#[derive(Debug, Clone)]
pub struct TapeFile {
    pub file_index: usize,
    pub records: Vec<AnalyzedRecord>,
    pub summary: Option<TapeSummary>,
    pub data_bytes: u64,
    pub tape_mark_warning: Option<String>,
}

/// A file as a value.
pub struct FileReport {
    pub file_index: nat,
    pub records: Seq<RecordReport>,
    pub summary: Option<SummaryModel>,
    pub data_bytes: nat,
    pub tape_mark_warning: Option<Seq<char>>,
}

impl View for TapeFile {
    type V = FileReport;

    open spec fn view(&self) -> FileReport {
        FileReport {
            file_index: self.file_index as nat,
            records: self.records.deep_view(),
            summary: spec_summary_option(self.summary),
            data_bytes: self.data_bytes as nat,
            tape_mark_warning: spec_text_option(self.tape_mark_warning),
        }
    }
}

impl DeepView for TapeFile {
    type V = FileReport;

    open spec fn deep_view(&self) -> FileReport {
        self@
    }
}

impl Default for TapeFile {
    fn default() -> (r: Self)
        ensures
            r@ == (FileReport {
                file_index: 0,
                records: Seq::<RecordReport>::empty(),
                summary: None,
                data_bytes: 0,
                tape_mark_warning: None,
            }),
    {
        let r = TapeFile {
            file_index: 0,
            records: Vec::new(),
            summary: None,
            data_bytes: 0,
            tape_mark_warning: None,
        };
        assert(r@.records =~= Seq::<RecordReport>::empty());
        r
    }
}

/// How much a tape holds.
#[derive(Debug, Clone, Copy)]
pub struct TapeTotals {
    pub files: usize,
    pub records: usize,
    pub data_bytes: u64,
}

impl Default for TapeTotals {
    fn default() -> (r: Self)
        ensures
            r.files == 0,
            r.records == 0,
            r.data_bytes == 0,
    {
        TapeTotals { files: 0, records: 0, data_bytes: 0 }
    }
}

/// All that the analyser found on a tape.
#[derive(Debug, Clone)]
pub struct TapeAnalysis {
    pub filesize: Option<u64>,
    pub files: Vec<TapeFile>,
    pub totals: TapeTotals,
    pub warnings: Vec<String>,
    pub tape_summary: Option<TapeSummary>,
    pub backup_command: Option<String>,
    pub end_of_tape_offset: Option<u64>,
}

/// An analysis as a value.
pub struct AnalysisReport {
    pub filesize: Option<u64>,
    pub files: Seq<FileReport>,
    pub totals: TapeTotals,
    pub warnings: Seq<Seq<char>>,
    pub tape_summary: Option<SummaryModel>,
    pub backup_command: Option<Seq<char>>,
    pub end_of_tape_offset: Option<u64>,
}

impl View for TapeAnalysis {
    type V = AnalysisReport;

    open spec fn view(&self) -> AnalysisReport {
        AnalysisReport {
            filesize: self.filesize,
            files: self.files.deep_view(),
            totals: self.totals,
            warnings: spec_lines(self.warnings@),
            tape_summary: spec_summary_option(self.tape_summary),
            backup_command: spec_text_option(self.backup_command),
            end_of_tape_offset: self.end_of_tape_offset,
        }
    }
}

impl Default for TapeAnalysis {
    fn default() -> (r: Self)
        ensures
            r@ == spec_empty_analysis(),
    {
        let r = TapeAnalysis {
            filesize: None,
            files: Vec::new(),
            totals: TapeTotals { files: 0, records: 0, data_bytes: 0 },
            warnings: Vec::new(),
            tape_summary: None,
            backup_command: None,
            end_of_tape_offset: None,
        };
        assert(r@.files =~= Seq::<FileReport>::empty());
        assert(r@.warnings =~= Seq::<Seq<char>>::empty());
        r
    }
}

impl TapeAnalysis {
    /// The platforms of the tape, each once and in the order of its
    /// summary; none where the tape has no summary.
    pub fn aggregate_platforms(&self) -> (platforms: IndexSet<String>)
        ensures
            set_items(platforms) == match self@.tape_summary {
                Some(summary) => spec_insert_all(Seq::<Seq<char>>::empty(), summary.platforms),
                None => Seq::<Seq<char>>::empty(),
            },
    {
        let mut platforms = set_new();
        match &self.tape_summary {
            Some(summary) => {
                let count: usize = set_len(&summary.platforms);
                let ghost all = set_items(summary.platforms);
                let mut i: usize = 0;
                assert(all.take(0) =~= Seq::<Seq<char>>::empty());
                while i < count
                    invariant
                        i <= count == all.len(),
                        all == set_items(summary.platforms),
                        set_items(platforms) == spec_insert_all(Seq::<Seq<char>>::empty(), all.take(i as int)),
                    decreases count - i,
                {
                    match set_get_index(&summary.platforms, i) {
                        Some(platform) => {
                            set_insert(&mut platforms, platform.clone());
                        },
                        None => {},
                    }
                    assert(all.take(i + 1).drop_last() =~= all.take(i as int));
                    i += 1;
                }
                assert(all.take(i as int) =~= all);
            },
            None => {},
        }
        platforms
    }
}

/// The analysis of nothing.
pub open spec fn spec_empty_analysis() -> AnalysisReport {
    AnalysisReport {
        filesize: None,
        files: Seq::<FileReport>::empty(),
        totals: TapeTotals { files: 0, records: 0, data_bytes: 0 },
        warnings: Seq::<Seq<char>>::empty(),
        tape_summary: None,
        backup_command: None,
        end_of_tape_offset: None,
    }
}

} // verus!
