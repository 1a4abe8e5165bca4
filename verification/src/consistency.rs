//! The sums and the numbering of an analysis agree with what it lists.

use vstd::prelude::*;
use crate::analyzer::{
    lemma_walk_step, spec_analyze_bytes, spec_walk, spec_within_budget, AggregatorModel,
};
use crate::reader::{reachable, spec_next_block, BlockModel};
use crate::record::{AnalysisReport, FileReport, RecordReport};
use crate::summarize::{
    lemma_file_summary_wf, lemma_tape_summary_wf, spec_summarize_file_records, spec_summarize_tape,
};
use crate::word::MAX_RECORD_LENGTH;

verus! {

/// The lengths of the records, added up.
pub open spec fn spec_length_sum(records: Seq<RecordReport>) -> nat
    decreases records.len(),
{
    if records.len() == 0 {
        0
    } else {
        spec_length_sum(records.drop_last()) + records.last().length as nat
    }
}

/// How many records the files hold together.
pub open spec fn spec_record_count(files: Seq<FileReport>) -> nat
    decreases files.len(),
{
    if files.len() == 0 {
        0
    } else {
        spec_record_count(files.drop_last()) + files.last().records.len()
    }
}

/// How many bytes of data the files hold together.
pub open spec fn spec_data_bytes(files: Seq<FileReport>) -> nat
    decreases files.len(),
{
    if files.len() == 0 {
        0
    } else {
        spec_data_bytes(files.drop_last()) + spec_length_sum(files.last().records)
    }
}

/// A file that is the `index`-th of its tape: it holds a record, its
/// records are numbered from one, and its byte count is their sum.
pub open spec fn spec_file_consistent(file: FileReport, index: nat) -> bool {
    &&& file.file_index == index
    &&& file.records.len() > 0
    &&& file.data_bytes == spec_length_sum(file.records)
    &&& forall|j: int| 0 <= j < file.records.len() ==> (#[trigger] file.records[j]).record_index == j + 1
}

/// The files are numbered from one, each is consistent, and each carries
/// the summary of its records.
pub open spec fn spec_files_consistent(files: Seq<FileReport>) -> bool {
    forall|i: int|
        0 <= i < files.len() ==> spec_file_consistent(#[trigger] files[i], (i + 1) as nat)
            && files[i].summary == spec_summarize_file_records(files[i].records)
}

/// An analysis whose totals are the sums of what its files list.
pub open spec fn spec_consistent(analysis: AnalysisReport) -> bool {
    &&& spec_files_consistent(analysis.files)
    &&& analysis.totals.files == analysis.files.len()
    &&& analysis.totals.records == spec_record_count(analysis.files)
    &&& analysis.totals.data_bytes == spec_data_bytes(analysis.files)
}

/// A state of the analyser whose totals are the sums of what its files
/// and the file in hand list.
pub open spec fn spec_state_consistent(state: AggregatorModel) -> bool {
    &&& spec_files_consistent(state.analysis.files)
    &&& match state.current {
        Some(file) => {
            &&& file.summary is None
            &&& spec_file_consistent(file, state.analysis.files.len() + 1)
            &&& state.analysis.totals.files == state.analysis.files.len() + 1
            &&& state.analysis.totals.records == spec_record_count(state.analysis.files)
                + file.records.len()
            &&& state.analysis.totals.data_bytes == spec_data_bytes(state.analysis.files)
                + file.data_bytes
        },
        None => spec_consistent(state.analysis),
    }
}

/// Finishing the file in hand keeps the state consistent.
proof fn lemma_close_file(state: AggregatorModel)
    requires
        spec_state_consistent(state),
    ensures
        spec_state_consistent(state.close_file()),
        state.close_file().current is None,
        state.close_file().analysis.totals == state.analysis.totals,
{
    match state.current {
        Some(file) => {
            let after = state.close_file().analysis.files;
            let closed = after.last();
            assert(after.drop_last() =~= state.analysis.files);
            assert(closed.records == file.records);
            assert forall|i: int| 0 <= i < after.len() implies spec_file_consistent(
                #[trigger] after[i],
                (i + 1) as nat,
            ) && after[i].summary == spec_summarize_file_records(after[i].records) by {
                if i < state.analysis.files.len() {
                    assert(after[i] == state.analysis.files[i]);
                }
            }
        },
        None => {},
    }
}

/// A warning keeps the state consistent.
proof fn lemma_warn(state: AggregatorModel, warning: Seq<char>)
    requires
        spec_state_consistent(state),
    ensures
        spec_state_consistent(state.warn(warning)),
        state.warn(warning).current == state.current,
{
}

/// One step of the walk keeps the state consistent.
proof fn lemma_step_consistent(bytes: Seq<u8>, state: AggregatorModel, pos: nat, pending: bool)
    requires
        reachable(bytes, pos, pending),
        spec_within_budget(state, pos),
        bytes.len() <= usize::MAX,
        spec_state_consistent(state),
    ensures
        ({
            let step = spec_next_block(bytes, MAX_RECORD_LENGTH, pos, pending);
            let (next, stop) = state.on_block(step.result);
            &&& spec_state_consistent(next)
            &&& stop ==> next.current is None
        }),
{
    reveal(AggregatorModel::on_block);
    lemma_walk_step(bytes, state, pos, pending);
    let step = spec_next_block(bytes, MAX_RECORD_LENGTH, pos, pending);
    match step.result {
        Ok(BlockModel::Record(record)) => {
            let next = state.on_record(record);
            let file = next.current->Some_0;
            let before = match state.current {
                Some(f) => f.records,
                None => Seq::<RecordReport>::empty(),
            };
            assert(file.records.drop_last() =~= before);
            assert(file.records.last().length == record.header.length);
            assert(spec_length_sum(file.records) == spec_length_sum(before) + record.header.length);
            assert forall|j: int| 0 <= j < file.records.len() implies (#[trigger] file.records[j]).record_index
                == j + 1 by {
                if j < before.len() {
                    assert(file.records[j] == before[j]);
                }
            }
            assert(next.analysis.files == state.analysis.files);
            assert(spec_file_consistent(file, state.analysis.files.len() + 1));
        },
        Ok(BlockModel::TapeMark { offset, kind }) => {
            match kind {
                crate::reader::SimhTapeMark::Single => {
                    lemma_close_file(state);
                },
                crate::reader::SimhTapeMark::Double => {
                    match state.current {
                        Some(file) => {
                            let marked = AggregatorModel {
                                current: Some(
                                    FileReport {
                                        tape_mark_warning: Some("Double tape mark encountered"@),
                                        ..file
                                    },
                                ),
                                ..state
                            };
                            lemma_close_file(marked);
                        },
                        None => {
                            lemma_warn(state, "Double tape mark observed outside of a file"@);
                        },
                    }
                },
                crate::reader::SimhTapeMark::EndOfTape => {
                    lemma_close_file(state);
                },
                _ => {
                    lemma_warn(state, crate::analyzer::spec_marker_warning(kind, offset));
                },
            }
        },
        Ok(BlockModel::EndOfStream) => {
            lemma_close_file(state);
        },
        Err(failure) => {
            lemma_warn(state, failure.1);
            lemma_close_file(state.warn(failure.1));
        },
    }
}

/// The walk ends in a consistent state with no file in hand.
proof fn lemma_walk_consistent(bytes: Seq<u8>, state: AggregatorModel, pos: nat, pending: bool)
    requires
        reachable(bytes, pos, pending),
        spec_within_budget(state, pos),
        bytes.len() <= usize::MAX,
        spec_state_consistent(state),
    ensures
        spec_consistent(spec_walk(bytes, state, pos, pending).analysis),
    decreases bytes.len() - pos,
{
    lemma_walk_step(bytes, state, pos, pending);
    lemma_step_consistent(bytes, state, pos, pending);
    let step = spec_next_block(bytes, MAX_RECORD_LENGTH, pos, pending);
    let (next, stop) = state.on_block(step.result);
    if !stop {
        lemma_walk_consistent(bytes, next, step.pos, step.pending_double);
    }
}

/// In the analysis of any image the files are numbered from one, each
/// holds at least one record, the records of a file are numbered from one,
/// the byte count of a file is the sum of the lengths of its records, and
/// the totals are the number of files, of records, and of bytes of data.
pub proof fn lemma_analysis_consistent(bytes: Seq<u8>)
    requires
        bytes.len() <= usize::MAX,
    ensures
        spec_consistent(spec_analyze_bytes(bytes)),
{
    let start = AggregatorModel::start(bytes.len() as u64);
    lemma_walk_consistent(bytes, start, 0, false);
}

/// In the analysis of any image every file carries the summary of its
/// records, the tape carries the summary of its files, and no summary
/// lists a text twice or an empty text.
pub proof fn lemma_analysis_summaries(bytes: Seq<u8>)
    requires
        bytes.len() <= usize::MAX,
    ensures
        ({
            let analysis = spec_analyze_bytes(bytes);
            &&& analysis.tape_summary == spec_summarize_tape(analysis.files)
            &&& analysis.tape_summary matches Some(summary) ==> summary.wf()
            &&& forall|i: int|
                0 <= i < analysis.files.len() ==> {
                    &&& (#[trigger] analysis.files[i]).summary == spec_summarize_file_records(
                        analysis.files[i].records,
                    )
                    &&& analysis.files[i].summary matches Some(summary) ==> summary.wf()
                }
        }),
{
    lemma_analysis_consistent(bytes);
    let analysis = spec_analyze_bytes(bytes);
    assert forall|i: int| 0 <= i < analysis.files.len() implies ((#[trigger] analysis.files[i]).summary
        matches Some(summary) ==> summary.wf()) by {
        lemma_file_summary_wf(analysis.files[i].records);
    }
    lemma_tape_summary_wf(analysis.files);
}

} // verus!
