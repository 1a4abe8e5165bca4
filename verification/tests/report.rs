use rtsimh::analyzer::analyze_bytes;
use rtsimh::encoding::{build_preview, RecordEncoding, RecordPreview};
use rtsimh::label::AnsiLabel;
use rtsimh::record::{AnalyzedRecord, TapeAnalysis};
use rtsimh::report::{
    bool_flag, coalesce_record_runs, format_analysis, label_debug, record_preview_lines,
    OutputOptions,
};
use rtsimh::signature::RecordSignature;
use rtsimh::writer::SimhTapeWriter;

fn record(index: usize, data: &[u8], encoding: RecordEncoding) -> AnalyzedRecord {
    AnalyzedRecord {
        record_index: index,
        offset: (index as u64) * 100,
        length: data.len() as u32,
        class: 0,
        encoding,
        label: None,
        signatures: Vec::new(),
        warnings: Vec::new(),
        preview: build_preview(data, encoding),
        trailing_length: Some(data.len() as u32),
    }
}

fn show_all() -> OutputOptions {
    OutputOptions { show_binary: true, show_ascii: true, show_labels: true }
}

#[test]
fn empty_analysis_reports_totals_only() {
    let analysis = TapeAnalysis::default();
    let report = format_analysis(&analysis, &OutputOptions::default());
    assert_eq!(
        report,
        "Total files: 0\nTotal records: 0\nTotal data bytes: 0\n-------------------------\nEnd of report.\n"
    );
}

#[test]
fn report_of_a_small_tape() {
    let mut writer = SimhTapeWriter::new(Vec::new());
    writer.write_record(b"HELLO").unwrap();
    writer.write_tape_mark().unwrap();
    writer.write_end_of_medium().unwrap();
    let analysis = analyze_bytes(&writer.into_inner());
    let report = format_analysis(&analysis, &OutputOptions::default());
    let expected = [
        "Total files: 1",
        "Total records: 1",
        "Total data bytes: 5",
        "End-of-tape marker at offset 18",
        "",
        "Broad format detection:",
        "  Formats: Content appears ASCII",
        "  Details:",
        "    - Predominant data block size: 5 bytes",
        "",
        "-------------------------",
        "File #1: 1 Records (5 bytes)",
        "  Summary:",
        "    Details:",
        "      - Predominant data block size: 5 bytes",
        "  Record 0001: 5 bytes @ 0 [Ascii]",
        "    [ascii data suppressed: 5 bytes]",
        "-------------------------",
        "End of report.\n",
    ]
    .join("\n");
    assert_eq!(report, expected);
    let shown = format_analysis(&analysis, &show_all());
    assert!(shown.contains("  Record 0001: 5 bytes @ 0 [Ascii]\n        Hex:  48 45 4c 4c 4f\n        Text: HELLO\n"));
}

#[test]
fn report_lists_command_warnings_and_runs() {
    let mut analysis = TapeAnalysis::default();
    analysis.backup_command = Some("BACKUP/IMAGE A B".to_string());
    analysis.warnings = vec!["first".to_string(), "second".to_string()];
    let mut file = rtsimh::record::TapeFile::default();
    file.file_index = 7;
    file.data_bytes = 1234567;
    file.tape_mark_warning = Some("Double tape mark encountered".to_string());
    for i in 1..=3 {
        file.records.push(record(i, &[0u8; 20], RecordEncoding::Binary));
    }
    let mut odd = record(4, b"text", RecordEncoding::Ascii);
    odd.warnings.push("odd one".to_string());
    odd.signatures.push(RecordSignature::new("t", "Thing").with_format("F"));
    file.records.push(odd);
    analysis.files.push(file);
    analysis.totals.files = 1;
    analysis.totals.records = 4;
    analysis.totals.data_bytes = 1234567;
    let report = format_analysis(&analysis, &OutputOptions::default());
    let expected = [
        "Total files: 1",
        "Total records: 4",
        "Total data bytes: 1,234,567",
        "",
        "Backup command hint:",
        "  BACKUP/IMAGE A B",
        "Warnings:",
        "  - first",
        "  - second",
        "",
        "-------------------------",
        "File #7: 4 Records (1,234,567 bytes)",
        "  Tape mark: Double tape mark encountered",
        "  Records 0001-0003 (3 records): 20 bytes each @ offsets 100..300 [Binary]",
        "    [binary data suppressed: 20 bytes] (repeated 3x)",
        "  Record 0004: 4 bytes @ 400 [Ascii]",
        "    \u{2192} Thing [medium] -> F",
        "    [ascii data suppressed: 4 bytes]",
        "    Warning: odd one",
        "-------------------------",
        "End of report.\n",
    ]
    .join("\n");
    assert_eq!(report, expected);
}

#[test]
fn runs_join_records_that_look_alike() {
    let opts = OutputOptions::default();
    let records = vec![
        record(1, &[0u8; 8], RecordEncoding::Binary),
        record(2, &[1u8; 8], RecordEncoding::Binary),
        record(3, &[1u8; 9], RecordEncoding::Binary),
        record(4, b"abcdefghi", RecordEncoding::Ascii),
        record(5, b"ABCDEFGHI", RecordEncoding::Ascii),
    ];
    let runs = coalesce_record_runs(&records, &opts);
    let shape: Vec<(usize, usize, usize)> =
        runs.iter().map(|run| (run.start_index, run.end_index, run.count)).collect();
    assert_eq!(shape, vec![(1, 2, 2), (3, 3, 1), (4, 5, 2)]);
    assert_eq!(runs[0].start_offset, 100);
    assert_eq!(runs[0].end_offset, 200);
    assert_eq!(runs[2].body, vec!["    [ascii data suppressed: 9 bytes]"]);
    let runs = coalesce_record_runs(&records, &show_all());
    let shape: Vec<(usize, usize, usize)> =
        runs.iter().map(|run| (run.start_index, run.end_index, run.count)).collect();
    assert_eq!(shape, vec![(1, 1, 1), (2, 2, 1), (3, 3, 1), (4, 4, 1), (5, 5, 1)]);
    assert!(coalesce_record_runs(&[], &opts).is_empty());
}

#[test]
fn previews_follow_the_options() {
    let mut labelled = record(1, b"VOL1", RecordEncoding::Ascii);
    labelled.label = Some(AnsiLabel::Raw("VOL1".to_string()));
    let hidden = OutputOptions::default();
    assert_eq!(record_preview_lines(&labelled, &hidden), vec!["[label preview suppressed]"]);
    let labels_only = OutputOptions { show_labels: true, ..hidden };
    assert_eq!(
        record_preview_lines(&labelled, &labels_only),
        vec!["[ascii data suppressed: 4 bytes]"]
    );
    assert_eq!(
        record_preview_lines(&labelled, &show_all()),
        vec!["    Hex:  56 4f 4c 31", "    Text: VOL1"]
    );
    let binary = record(1, &[0u8; 1500], RecordEncoding::Binary);
    assert_eq!(
        record_preview_lines(&binary, &hidden),
        vec!["[binary data suppressed: 1,500 bytes]"]
    );
    let ascii_only = OutputOptions { show_ascii: true, ..hidden };
    assert_eq!(
        record_preview_lines(&binary, &ascii_only),
        vec!["[binary data suppressed: 1,500 bytes]"]
    );
    assert_eq!(record_preview_lines(&binary, &show_all()).len(), 8);
    let empty = record(1, b"", RecordEncoding::Empty);
    assert!(record_preview_lines(&empty, &hidden).is_empty());
    let mut uneven = record(1, b"abc", RecordEncoding::Ascii);
    uneven.preview = RecordPreview {
        hex_lines: vec!["h1".to_string(), "h2".to_string()],
        text_lines: vec!["t1".to_string()],
        previewed_bytes: 3,
    };
    assert_eq!(record_preview_lines(&uneven, &show_all()), vec!["h1", "t1"]);
}

#[test]
fn labels_print_as_their_debug_form() {
    let cases = vec![
        AnsiLabel::Volume { serial: "TAPE01".to_string(), owner: "ACMS".to_string() },
        AnsiLabel::FileHeader1 {
            file: "A\"B".to_string(),
            file_set: "\\".to_string(),
            created: "\n".to_string(),
        },
        AnsiLabel::FileHeader2 {
            record_format: "F".to_string(),
            block_len: "02048".to_string(),
            record_len: String::new(),
        },
        AnsiLabel::EndOfFile { blocks: "1".to_string(), file: "f".to_string() },
        AnsiLabel::EndOfVolume { blocks: "2".to_string(), file: "'".to_string() },
        AnsiLabel::UserHeader { id: "UHL1".to_string(), payload: "\u{0}\u{7f}\u{e9}".to_string() },
        AnsiLabel::UserTrailer { id: "UTL1".to_string() },
        AnsiLabel::Raw("XY".to_string()),
    ];
    for label in &cases {
        assert_eq!(label_debug(label), format!("{:?}", label));
    }
    assert_eq!(
        label_debug(&cases[0]),
        "Volume { serial: \"TAPE01\", owner: \"ACMS\" }"
    );
    let mut labelled = record(1, b"VOL1", RecordEncoding::Ascii);
    labelled.label = Some(cases[0].clone());
    let mut analysis = TapeAnalysis::default();
    let mut file = rtsimh::record::TapeFile::default();
    file.file_index = 1;
    file.records.push(labelled);
    analysis.files.push(file);
    let report = format_analysis(&analysis, &OutputOptions::default());
    assert!(report.contains("\n    Label: Volume { serial: \"TAPE01\", owner: \"ACMS\" }\n"));
}

#[test]
fn options_come_from_switches() {
    let opts = OutputOptions::default();
    assert!(!opts.show_binary && !opts.show_ascii && !opts.show_labels);
    let opts = OutputOptions::from_flags(true, true, false, false, true, true, false);
    assert!(opts.show_binary && !opts.show_ascii && opts.show_labels);
    let opts = OutputOptions::from_flags(false, false, true, true, false, false, true);
    assert!(!opts.show_binary && opts.show_ascii && !opts.show_labels);
    assert_eq!(bool_flag(true), "on");
    assert_eq!(bool_flag(false), "off");
}
