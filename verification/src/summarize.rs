//! The summary of a file from its records, and of a tape from its files.

use vstd::prelude::*;
use vstd::string::*;
use crate::encoding::{encoding_label, spec_encoding_label};
use crate::label::{AnsiLabel, LabelModel};
use crate::record::{AnalyzedRecord, FileReport, RecordReport, TapeFile};
use crate::summary::{
    add_signatures_to_summary, common_block_size, lemma_add_signatures_wf, lemma_merge_wf,
    lemma_summary_stays_wf, spec_common_block_size, SummaryModel, TapeSummary,
};
use crate::text::{
    contains_text, decimal, spec_contains_text, spec_decimal, spec_uppercase, string_chars,
    uppercase,
};

verus! {

/// The summary with the formats that the upper-case name of a file
/// suggests: a BACKUP save set where it holds `.BCK` or `.BAK`, a save
/// image where it holds `.SAV`.
pub open spec fn spec_add_name_formats(summary: SummaryModel, upper: Seq<char>) -> SummaryModel {
    let with_backup = if spec_contains_text(upper, ".BCK"@) || spec_contains_text(upper, ".BAK"@) {
        summary.add_format("DEC BACKUP save set (.BCK)"@)
    } else {
        summary
    };
    if spec_contains_text(upper, ".SAV"@) {
        with_backup.add_format("DEC save image (.SAV)"@)
    } else {
        with_backup
    }
}

/// Records the formats that the upper-case name of a file suggests.
pub fn add_name_formats(summary: &mut TapeSummary, upper: &str)
    ensures
        final(summary)@ == spec_add_name_formats(old(summary)@, upper@),
{
    let name = string_chars(upper);
    let bck = string_chars(".BCK");
    let bak = string_chars(".BAK");
    let sav = string_chars(".SAV");
    if contains_text(name.as_slice(), bck.as_slice()) || contains_text(name.as_slice(), bak.as_slice()) {
        summary.add_format("DEC BACKUP save set (.BCK)");
    }
    if contains_text(name.as_slice(), sav.as_slice()) {
        summary.add_format("DEC save image (.SAV)");
    }
}

/// The summary with what the label of a record tells, if it has one.
pub open spec fn spec_add_label(summary: SummaryModel, record: RecordReport) -> SummaryModel {
    match record.label {
        None => summary,
        Some(label) => {
            let labeled = summary.add_platform("ANSI/ISO Standard Labeled Tape"@);
            match label {
                LabelModel::FileHeader1 { file, .. } => if file.len() > 0 {
                    spec_add_name_formats(
                        labeled.add_detail("HDR1 declares file '"@ + file + "'"@),
                        spec_uppercase(file),
                    )
                } else {
                    labeled
                },
                _ => labeled,
            }
        },
    }
}

/// The summary with what the labels of the records tell, in turn.
pub open spec fn spec_add_labels(summary: SummaryModel, records: Seq<RecordReport>) -> SummaryModel
    decreases records.len(),
{
    if records.len() == 0 {
        summary
    } else {
        spec_add_label(spec_add_labels(summary, records.drop_last()), records.last())
    }
}

/// The records that carry no label.
pub open spec fn spec_unlabelled(records: Seq<RecordReport>) -> Seq<RecordReport>
    decreases records.len(),
{
    if records.len() == 0 {
        Seq::<RecordReport>::empty()
    } else if records.last().label is None {
        spec_unlabelled(records.drop_last()).push(records.last())
    } else {
        spec_unlabelled(records.drop_last())
    }
}

/// The lengths of the records.
pub open spec fn spec_lengths(records: Seq<RecordReport>) -> Seq<u32> {
    records.map_values(|r: RecordReport| r.length)
}

/// The summary with the signatures of the first `count` records.
pub open spec fn spec_add_record_signatures(
    summary: SummaryModel,
    records: Seq<RecordReport>,
    count: nat,
) -> SummaryModel
    decreases count,
{
    if count == 0 {
        summary
    } else {
        spec_add_record_signatures(summary, records, (count - 1) as nat).add_signatures(
            records[count - 1].signatures,
        )
    }
}

/// The smaller of a length and three.
pub open spec fn spec_up_to_three(len: nat) -> nat {
    if len < 3 {
        len
    } else {
        3
    }
}

/// The summary with the block size that the lengths have in common.
pub open spec fn spec_add_block_size(summary: SummaryModel, lengths: Seq<u32>) -> SummaryModel {
    match spec_common_block_size(lengths) {
        Some(common) => summary.add_detail(
            "Predominant data block size: "@ + spec_decimal(common as nat) + " bytes"@,
        ),
        None => summary,
    }
}

/// All that the records of a file tell: their labels, the signatures of
/// the first three that carry no label, and the block size that those
/// without a label have in common.
pub open spec fn spec_file_summary(records: Seq<RecordReport>) -> SummaryModel {
    let unlabelled = spec_unlabelled(records);
    spec_add_block_size(
        spec_add_record_signatures(
            spec_add_labels(SummaryModel::empty(), records),
            unlabelled,
            spec_up_to_three(unlabelled.len()),
        ),
        spec_lengths(unlabelled),
    )
}

/// The summary of a file, unless it has no records or they tell nothing.
pub open spec fn spec_summarize_file_records(records: Seq<RecordReport>) -> Option<SummaryModel> {
    if records.len() == 0 || spec_file_summary(records).is_empty() {
        None
    } else {
        Some(spec_file_summary(records))
    }
}

fn add_label(summary: &mut TapeSummary, record: &AnalyzedRecord)
    ensures
        final(summary)@ == spec_add_label(old(summary)@, record@),
{
    match &record.label {
        None => {},
        Some(label) => {
            summary.add_platform("ANSI/ISO Standard Labeled Tape");
            match label {
                AnsiLabel::FileHeader1 { file, .. } => {
                    if !file.as_str().is_empty() {
                        let mut detail = String::from_str("HDR1 declares file '");
                        detail.append(file.as_str());
                        detail.append("'");
                        summary.add_detail(detail.as_str());
                        let upper = uppercase(file.as_str());
                        add_name_formats(summary, upper.as_str());
                    }
                },
                _ => {},
            }
        },
    }
}

/// The signatures of records beyond the first `count` do not matter.
proof fn lemma_signatures_of_prefix(summary: SummaryModel, records: Seq<RecordReport>, more: RecordReport, count: nat)
    requires
        count <= records.len(),
    ensures
        spec_add_record_signatures(summary, records.push(more), count) == spec_add_record_signatures(
            summary,
            records,
            count,
        ),
    decreases count,
{
    if count > 0 {
        lemma_signatures_of_prefix(summary, records, more, (count - 1) as nat);
    }
}

/// The summary of a file, unless it has no records or they tell nothing.
pub fn summarize_file_records(records: &[AnalyzedRecord]) -> (summary: Option<TapeSummary>)
    ensures
        crate::record::spec_summary_option(summary) == spec_summarize_file_records(records.deep_view()),
{
    if records.len() == 0 {
        return None;
    }
    let ghost all = records.deep_view();
    let mut summary = TapeSummary::default();
    let mut data_lengths: Vec<u32> = Vec::new();
    let mut i: usize = 0;
    assert(all.take(0) =~= Seq::<RecordReport>::empty());
    assert(data_lengths@ =~= spec_lengths(spec_unlabelled(all.take(0))));
    while i < records.len()
        invariant
            i <= records@.len(),
            all == records.deep_view(),
            summary@ == spec_add_labels(SummaryModel::empty(), all.take(i as int)),
            data_lengths@ == spec_lengths(spec_unlabelled(all.take(i as int))),
        decreases records@.len() - i,
    {
        assert(all.take(i + 1).drop_last() =~= all.take(i as int));
        assert(all.take(i + 1).last() == records@[i as int]@);
        add_label(&mut summary, &records[i]);
        if records[i].label.is_none() {
            data_lengths.push(records[i].length);
        }
        i += 1;
        assert(data_lengths@ =~= spec_lengths(spec_unlabelled(all.take(i as int))));
    }
    assert(all.take(i as int) =~= all);
    let ghost labelled = summary@;
    let mut taken: usize = 0;
    let mut j: usize = 0;
    while j < records.len() && taken < 3
        invariant
            j <= records@.len(),
            all == records.deep_view(),
            taken <= 3,
            taken == spec_up_to_three(spec_unlabelled(all.take(j as int)).len()),
            taken < 3 ==> taken == spec_unlabelled(all.take(j as int)).len(),
            summary@ == spec_add_record_signatures(
                labelled,
                spec_unlabelled(all.take(j as int)),
                taken as nat,
            ),
        decreases records@.len() - j,
    {
        assert(all.take(j + 1).drop_last() =~= all.take(j as int));
        assert(all.take(j + 1).last() == records@[j as int]@);
        if records[j].label.is_none() {
            proof {
                lemma_signatures_of_prefix(
                    labelled,
                    spec_unlabelled(all.take(j as int)),
                    records@[j as int]@,
                    taken as nat,
                );
            }
            add_signatures_to_summary(&mut summary, &records[j].signatures);
            taken += 1;
        }
        j += 1;
    }
    proof {
        lemma_unlabelled_grows(all, j as int);
        lemma_signatures_of_longer(
            labelled,
            spec_unlabelled(all.take(j as int)),
            spec_unlabelled(all),
            taken as nat,
        );
    }
    match common_block_size(data_lengths.as_slice()) {
        Some(common) => {
            let mut detail = String::from_str("Predominant data block size: ");
            detail.append(decimal(common as u128).as_str());
            detail.append(" bytes");
            summary.add_detail(detail.as_str());
        },
        None => {},
    }
    if summary.is_empty() {
        None
    } else {
        Some(summary)
    }
}

/// The records without a label among the first `upto` records open the
/// list of those among all records.
proof fn lemma_unlabelled_grows(records: Seq<RecordReport>, upto: int)
    requires
        0 <= upto <= records.len(),
    ensures
        spec_unlabelled(records.take(upto)).is_prefix_of(spec_unlabelled(records)),
    decreases records.len() - upto,
{
    if upto < records.len() {
        lemma_unlabelled_grows(records, upto + 1);
        assert(records.take(upto + 1).drop_last() =~= records.take(upto));
    } else {
        assert(records.take(upto) =~= records);
    }
}

/// The signatures of the first `count` records are the same in a list
/// and in a longer list that it opens.
proof fn lemma_signatures_of_longer(
    summary: SummaryModel,
    short: Seq<RecordReport>,
    long: Seq<RecordReport>,
    count: nat,
)
    requires
        short.is_prefix_of(long),
        count <= short.len(),
    ensures
        spec_add_record_signatures(summary, short, count) == spec_add_record_signatures(summary, long, count),
    decreases count,
{
    if count > 0 {
        lemma_signatures_of_longer(summary, short, long, (count - 1) as nat);
        assert(short[count - 1] == long[count - 1]);
    }
}

/// How many of the records carry a label.
pub open spec fn spec_labelled_count(records: Seq<RecordReport>) -> nat
    decreases records.len(),
{
    if records.len() == 0 {
        0
    } else {
        spec_labelled_count(records.drop_last()) + if records.last().label is Some {
            1nat
        } else {
            0nat
        }
    }
}

/// How many records of all the files carry a label.
pub open spec fn spec_tape_label_count(files: Seq<FileReport>) -> nat
    decreases files.len(),
{
    if files.len() == 0 {
        0
    } else {
        spec_tape_label_count(files.drop_last()) + spec_labelled_count(files.last().records)
    }
}

/// The summaries of the files, merged in turn.
pub open spec fn spec_merge_files(files: Seq<FileReport>) -> SummaryModel
    decreases files.len(),
{
    if files.len() == 0 {
        SummaryModel::empty()
    } else {
        let merged = spec_merge_files(files.drop_last());
        match files.last().summary {
            Some(summary) => merged.merge(summary),
            None => merged,
        }
    }
}

/// The first record without a label in the files from `from` on.
pub open spec fn spec_first_unlabelled(files: Seq<FileReport>, from: int) -> Option<RecordReport>
    decreases files.len() - from,
{
    if from < 0 || from >= files.len() {
        None
    } else if spec_unlabelled(files[from].records).len() > 0 {
        Some(spec_unlabelled(files[from].records)[0])
    } else {
        spec_first_unlabelled(files, from + 1)
    }
}

/// The summary with the count of label records, where there are any.
pub open spec fn spec_add_label_count(summary: SummaryModel, count: nat) -> SummaryModel {
    if count > 0 {
        summary.add_detail(
            "Tape includes "@ + spec_decimal(count) + " ANSI/ISO label record"@ + (if count == 1 {
                ""@
            } else {
                "s"@
            }),
        ).add_platform("ANSI/ISO Standard Labeled Tape"@)
    } else {
        summary
    }
}

/// The summary with a format, where it has none yet: what the first record
/// without a label tells and, failing that, what its encoding suggests.
pub open spec fn spec_add_fallback_format(summary: SummaryModel, first: Option<RecordReport>) -> SummaryModel {
    if summary.formats.len() > 0 {
        summary
    } else {
        match first {
            None => summary,
            Some(record) => {
                let with_signatures = summary.add_signatures(record.signatures);
                if with_signatures.formats.len() > 0 {
                    with_signatures
                } else {
                    with_signatures.add_format("Content appears "@ + spec_encoding_label(record.encoding))
                }
            },
        }
    }
}

/// All that the files of a tape tell.
pub open spec fn spec_tape_summary(files: Seq<FileReport>) -> SummaryModel {
    spec_add_fallback_format(
        spec_add_label_count(spec_merge_files(files), spec_tape_label_count(files)),
        spec_first_unlabelled(files, 0),
    )
}

/// The summary of a tape, unless it has no files or they tell nothing.
pub open spec fn spec_summarize_tape(files: Seq<FileReport>) -> Option<SummaryModel> {
    if files.len() == 0 || spec_tape_summary(files).is_empty() {
        None
    } else {
        Some(spec_tape_summary(files))
    }
}

/// How many of the records carry a label.
fn labelled_count(records: &Vec<AnalyzedRecord>) -> (count: usize)
    ensures
        count == spec_labelled_count(records.deep_view()),
{
    let ghost all = records.deep_view();
    let mut count: usize = 0;
    let mut i: usize = 0;
    assert(all.take(0) =~= Seq::<RecordReport>::empty());
    while i < records.len()
        invariant
            i <= records@.len(),
            all == records.deep_view(),
            count <= i,
            count == spec_labelled_count(all.take(i as int)),
        decreases records@.len() - i,
    {
        assert(all.take(i + 1).drop_last() =~= all.take(i as int));
        assert(all.take(i + 1).last() == records@[i as int]@);
        if records[i].label.is_some() {
            count += 1;
        }
        i += 1;
    }
    assert(all.take(i as int) =~= all);
    count
}

/// The place of the first record without a label.
fn first_unlabelled(records: &Vec<AnalyzedRecord>) -> (found: Option<usize>)
    ensures
        match found {
            Some(i) => i < records@.len() && spec_unlabelled(records.deep_view()).len() > 0
                && spec_unlabelled(records.deep_view())[0] == records@[i as int]@,
            None => spec_unlabelled(records.deep_view()).len() == 0,
        },
{
    let ghost all = records.deep_view();
    let mut i: usize = 0;
    assert(all.take(0) =~= Seq::<RecordReport>::empty());
    while i < records.len()
        invariant
            i <= records@.len(),
            all == records.deep_view(),
            spec_unlabelled(all.take(i as int)).len() == 0,
        decreases records@.len() - i,
    {
        assert(all.take(i + 1).drop_last() =~= all.take(i as int));
        assert(all.take(i + 1).last() == records@[i as int]@);
        if records[i].label.is_none() {
            proof {
                lemma_unlabelled_grows(all, i + 1);
                let head = spec_unlabelled(all.take(i + 1));
                assert(head =~= seq![records@[i as int]@]);
                assert(spec_unlabelled(all).subrange(0, 1)[0] == head[0]);
            }
            return Some(i);
        }
        i += 1;
    }
    assert(all.take(i as int) =~= all);
    None
}

/// The model of an optional record.
pub open spec fn spec_record_option(record: Option<&AnalyzedRecord>) -> Option<RecordReport> {
    match record {
        Some(r) => Some(r@),
        None => None,
    }
}

/// The first record without a label in all the files.
fn first_unlabelled_record(files: &[TapeFile]) -> (found: Option<&AnalyzedRecord>)
    ensures
        spec_record_option(found) == spec_first_unlabelled(files.deep_view(), 0),
{
    let ghost all = files.deep_view();
    let mut f: usize = 0;
    while f < files.len()
        invariant
            f <= files@.len(),
            all == files.deep_view(),
            spec_first_unlabelled(all, 0) == spec_first_unlabelled(all, f as int),
        decreases files@.len() - f,
    {
        assert(all[f as int] == files@[f as int]@);
        match first_unlabelled(&files[f].records) {
            Some(r) => {
                return Some(&files[f].records[r]);
            },
            None => {},
        }
        f += 1;
    }
    None
}

/// The summary of a tape, unless it has no files or they tell nothing.
pub fn summarize_tape(files: &[TapeFile]) -> (summary: Option<TapeSummary>)
    ensures
        crate::record::spec_summary_option(summary) == spec_summarize_tape(files.deep_view()),
{
    if files.len() == 0 {
        return None;
    }
    let ghost all = files.deep_view();
    let mut summary = TapeSummary::default();
    let mut label_count: u128 = 0;
    let mut i: usize = 0;
    assert(all.take(0) =~= Seq::<FileReport>::empty());
    while i < files.len()
        invariant
            i <= files@.len(),
            all == files.deep_view(),
            summary@ == spec_merge_files(all.take(i as int)),
            label_count == spec_tape_label_count(all.take(i as int)),
            label_count <= i * usize::MAX,
        decreases files@.len() - i,
    {
        assert(all.take(i + 1).drop_last() =~= all.take(i as int));
        assert(all.take(i + 1).last() == files@[i as int]@);
        match &files[i].summary {
            Some(file_summary) => {
                summary.merge(file_summary);
            },
            None => {},
        }
        let labelled: usize = labelled_count(&files[i].records);
        assert((i + 1) * usize::MAX == i * usize::MAX + usize::MAX) by (nonlinear_arith);
        assert(i * usize::MAX <= 0xFFFF_FFFF_FFFF_FFFF * 0xFFFF_FFFF_FFFF_FFFF) by (nonlinear_arith)
            requires
                0 <= i <= 0xFFFF_FFFF_FFFF_FFFF,
                0 <= usize::MAX <= 0xFFFF_FFFF_FFFF_FFFF,
        ;
        label_count = label_count + labelled as u128;
        i += 1;
    }
    assert(all.take(i as int) =~= all);
    if label_count > 0 {
        let mut detail = String::from_str("Tape includes ");
        detail.append(decimal(label_count).as_str());
        detail.append(" ANSI/ISO label record");
        detail.append(if label_count == 1 {
            ""
        } else {
            "s"
        });
        summary.add_detail(detail.as_str());
        summary.add_platform("ANSI/ISO Standard Labeled Tape");
    }
    if crate::summary::set_len(&summary.formats) == 0 {
        match first_unlabelled_record(files) {
            Some(record) => {
                add_signatures_to_summary(&mut summary, &record.signatures);
                if crate::summary::set_len(&summary.formats) == 0 {
                    let mut format = String::from_str("Content appears ");
                    format.append(encoding_label(record.encoding));
                    summary.add_format(format.as_str());
                }
            },
            None => {},
        }
    }
    if summary.is_empty() {
        None
    } else {
        Some(summary)
    }
}

/// The summary of a file lists nothing twice and nothing empty.
pub proof fn lemma_file_summary_wf(records: Seq<RecordReport>)
    ensures
        spec_file_summary(records).wf(),
{
    let unlabelled = spec_unlabelled(records);
    lemma_labels_wf(SummaryModel::empty(), records);
    let labelled = spec_add_labels(SummaryModel::empty(), records);
    lemma_record_signatures_wf(labelled, unlabelled, spec_up_to_three(unlabelled.len()));
    let signed = spec_add_record_signatures(labelled, unlabelled, spec_up_to_three(unlabelled.len()));
    lemma_summary_stays_wf(
        signed,
        match spec_common_block_size(spec_lengths(unlabelled)) {
            Some(common) => "Predominant data block size: "@ + spec_decimal(common as nat) + " bytes"@,
            None => Seq::<char>::empty(),
        },
        crate::signature::spec_signature(Seq::<char>::empty(), Seq::<char>::empty()),
    );
}

proof fn lemma_labels_wf(summary: SummaryModel, records: Seq<RecordReport>)
    requires
        summary.wf() || summary == SummaryModel::empty(),
    ensures
        spec_add_labels(summary, records).wf(),
    decreases records.len(),
{
    let blank = crate::signature::spec_signature(Seq::<char>::empty(), Seq::<char>::empty());
    if records.len() == 0 {
        if summary == SummaryModel::empty() {
            assert(summary.wf());
        }
    } else {
        lemma_labels_wf(summary, records.drop_last());
        let before = spec_add_labels(summary, records.drop_last());
        match records.last().label {
            None => {},
            Some(label) => {
                lemma_summary_stays_wf(before, "ANSI/ISO Standard Labeled Tape"@, blank);
                let labeled = before.add_platform("ANSI/ISO Standard Labeled Tape"@);
                match label {
                    LabelModel::FileHeader1 { file, .. } => {
                        if file.len() > 0 {
                            lemma_summary_stays_wf(labeled, "HDR1 declares file '"@ + file + "'"@, blank);
                            let named = labeled.add_detail("HDR1 declares file '"@ + file + "'"@);
                            lemma_summary_stays_wf(named, "DEC BACKUP save set (.BCK)"@, blank);
                            lemma_summary_stays_wf(named, "DEC save image (.SAV)"@, blank);
                            lemma_summary_stays_wf(
                                named.add_format("DEC BACKUP save set (.BCK)"@),
                                "DEC save image (.SAV)"@,
                                blank,
                            );
                        }
                    },
                    _ => {},
                }
            },
        }
    }
}

proof fn lemma_record_signatures_wf(summary: SummaryModel, records: Seq<RecordReport>, count: nat)
    requires
        summary.wf(),
    ensures
        spec_add_record_signatures(summary, records, count).wf(),
    decreases count,
{
    if count > 0 {
        lemma_record_signatures_wf(summary, records, (count - 1) as nat);
        lemma_add_signatures_wf(
            spec_add_record_signatures(summary, records, (count - 1) as nat),
            records[count - 1].signatures,
        );
    }
}

/// The summary of a tape lists nothing twice and nothing empty, provided
/// the summaries of its files do not.
pub proof fn lemma_tape_summary_wf(files: Seq<FileReport>)
    requires
        forall|i: int| 0 <= i < files.len() ==> ((#[trigger] files[i]).summary matches Some(summary)
            ==> summary.wf()),
    ensures
        spec_tape_summary(files).wf(),
{
    let blank = crate::signature::spec_signature(Seq::<char>::empty(), Seq::<char>::empty());
    lemma_merged_files_wf(files);
    let merged = spec_merge_files(files);
    let count = spec_tape_label_count(files);
    let counted = spec_add_label_count(merged, count);
    if count > 0 {
        let detail = "Tape includes "@ + spec_decimal(count) + " ANSI/ISO label record"@ + (if count == 1 {
            ""@
        } else {
            "s"@
        });
        lemma_summary_stays_wf(merged, detail, blank);
        lemma_summary_stays_wf(merged.add_detail(detail), "ANSI/ISO Standard Labeled Tape"@, blank);
    }
    match spec_first_unlabelled(files, 0) {
        None => {},
        Some(record) => {
            lemma_add_signatures_wf(counted, record.signatures);
            lemma_summary_stays_wf(
                counted.add_signatures(record.signatures),
                "Content appears "@ + spec_encoding_label(record.encoding),
                blank,
            );
        },
    }
}

proof fn lemma_merged_files_wf(files: Seq<FileReport>)
    requires
        forall|i: int| 0 <= i < files.len() ==> ((#[trigger] files[i]).summary matches Some(summary)
            ==> summary.wf()),
    ensures
        spec_merge_files(files).wf(),
    decreases files.len(),
{
    if files.len() > 0 {
        let rest = files.drop_last();
        assert forall|i: int| 0 <= i < rest.len() implies ((#[trigger] rest[i]).summary matches Some(
            summary,
        ) ==> summary.wf()) by {
            assert(rest[i] == files[i]);
        }
        lemma_merged_files_wf(rest);
        match files.last().summary {
            Some(summary) => {
                lemma_merge_wf(spec_merge_files(rest), summary);
            },
            None => {},
        }
    }
}

} // verus!
