use rtsimh::analyzer::{analyze_bytes, analyze_record, Aggregator};
use rtsimh::encoding::RecordEncoding;
use rtsimh::error::{TapeError, TapeErrorKind};
use rtsimh::reader::{
    SimhTapeBlock, SimhTapeMark, SimhTapeReader, SimhTapeRecord, SimhTapeRecordHeader,
};
use rtsimh::record::TapeAnalysis;
use rtsimh::writer::SimhTapeWriter;

fn image(build: impl FnOnce(&mut SimhTapeWriter)) -> Vec<u8> {
    let mut writer = SimhTapeWriter::new(Vec::new());
    build(&mut writer);
    writer.into_inner()
}

fn marks_of(bytes: &[u8]) -> Vec<SimhTapeMark> {
    let mut reader = SimhTapeReader::new(bytes);
    let mut marks = Vec::new();
    loop {
        match reader.next_block() {
            Ok(SimhTapeBlock::TapeMark { kind, .. }) => marks.push(kind),
            Ok(SimhTapeBlock::Record(_)) => {}
            Ok(SimhTapeBlock::EndOfStream) | Err(_) => break,
        }
    }
    marks
}

fn check_totals(analysis: &TapeAnalysis) {
    assert_eq!(analysis.totals.files, analysis.files.len());
    let records: usize = analysis.files.iter().map(|file| file.records.len()).sum();
    assert_eq!(analysis.totals.records, records);
    let bytes: u64 = analysis
        .files
        .iter()
        .flat_map(|file| file.records.iter())
        .map(|record| record.length as u64)
        .sum();
    assert_eq!(analysis.totals.data_bytes, bytes);
    for (i, file) in analysis.files.iter().enumerate() {
        assert_eq!(file.file_index, i + 1);
        assert!(!file.records.is_empty());
        let file_bytes: u64 = file.records.iter().map(|record| record.length as u64).sum();
        assert_eq!(file.data_bytes, file_bytes);
        for (j, record) in file.records.iter().enumerate() {
            assert_eq!(record.record_index, j + 1);
        }
    }
}

#[test]
fn empty_image_of_one_tape_mark() {
    let bytes = [0u8; 4];
    let analysis = analyze_bytes(&bytes);
    assert_eq!(analysis.totals.files, 0);
    assert_eq!(analysis.totals.records, 0);
    assert_eq!(analysis.totals.data_bytes, 0);
    assert_eq!(analysis.end_of_tape_offset, None);
    assert!(analysis.files.is_empty());
    assert!(analysis.warnings.is_empty());
    assert!(analysis.tape_summary.is_none());
    assert_eq!(analysis.filesize, Some(4));
    assert_eq!(marks_of(&bytes), vec![SimhTapeMark::Single]);
}

#[test]
fn single_record_and_single_tape_mark() {
    let bytes = image(|w| {
        w.write_record(b"HELLO").unwrap();
        w.write_tape_mark().unwrap();
    });
    let analysis = analyze_bytes(&bytes);
    assert_eq!(analysis.totals.files, 1);
    assert_eq!(analysis.totals.records, 1);
    assert_eq!(analysis.totals.data_bytes, 5);
    assert!(analysis.warnings.is_empty());
    let file = &analysis.files[0];
    assert_eq!(file.file_index, 1);
    assert_eq!(file.data_bytes, 5);
    assert_eq!(file.tape_mark_warning, None);
    let record = &file.records[0];
    assert_eq!(record.record_index, 1);
    assert_eq!(record.offset, 0);
    assert_eq!(record.length, 5);
    assert_eq!(record.class, 0);
    assert_eq!(record.encoding, RecordEncoding::Ascii);
    assert!(record.label.is_none());
    assert!(record.signatures.is_empty());
    assert!(record.warnings.is_empty());
    assert_eq!(record.trailing_length, Some(5));
    assert_eq!(record.preview.previewed_bytes, 5);
    assert_eq!(record.preview.hex_lines, vec!["    Hex:  48 45 4c 4c 4f"]);
    assert_eq!(record.preview.text_lines, vec!["    Text: HELLO"]);
    assert_eq!(analysis.end_of_tape_offset, None);
    assert_eq!(analysis.backup_command, None);
    check_totals(&analysis);
}

#[test]
fn two_files_then_double_tape_mark() {
    let bytes = image(|w| {
        w.write_record(b"first file").unwrap();
        w.write_tape_mark().unwrap();
        w.write_record(b"second").unwrap();
        w.write_record(b"file").unwrap();
        w.write_tape_mark().unwrap();
        w.write_tape_mark().unwrap();
    });
    let analysis = analyze_bytes(&bytes);
    assert_eq!(analysis.totals.files, 2);
    assert_eq!(analysis.files.len(), 2);
    assert_eq!(analysis.totals.records, 3);
    assert_eq!(analysis.totals.data_bytes, 20);
    assert_eq!(analysis.files[0].tape_mark_warning, None);
    assert_eq!(analysis.files[1].tape_mark_warning, None);
    assert_eq!(analysis.files[1].records.len(), 2);
    assert_eq!(analysis.files[1].records[1].record_index, 2);
    assert_eq!(
        analysis.warnings,
        vec!["Double tape mark observed outside of a file"]
    );
    assert_eq!(
        marks_of(&bytes),
        vec![SimhTapeMark::Single, SimhTapeMark::Single, SimhTapeMark::Double]
    );
    check_totals(&analysis);
}

#[test]
fn end_of_medium_after_one_record() {
    for payload in [&b"odd"[..], &b"even"[..]] {
        let bytes = image(|w| {
            w.write_record(payload).unwrap();
            w.write_end_of_medium().unwrap();
            w.write_record(b"never seen").unwrap();
        });
        let analysis = analyze_bytes(&bytes);
        assert_eq!(analysis.totals.files, 1);
        assert_eq!(analysis.totals.records, 1);
        let expected = 8 + payload.len() + payload.len() % 2;
        assert_eq!(analysis.end_of_tape_offset, Some(expected as u64));
        check_totals(&analysis);
    }
}

#[test]
fn vms_backup_block_marks_the_tape_as_openvms() {
    let mut payload = vec![0u8; 1024];
    payload[32..38].copy_from_slice(b"BACKUP");
    payload[96..104].copy_from_slice(b"SAVE SET");
    let bytes = image(|w| {
        w.write_record(&payload).unwrap();
        w.write_tape_mark().unwrap();
    });
    let analysis = analyze_bytes(&bytes);
    let record = &analysis.files[0].records[0];
    let found = record.signatures.iter().find(|sig| sig.tag == "vms-backup").unwrap();
    assert_eq!(found.confidence, "high");
    let summary = analysis.tape_summary.as_ref().unwrap();
    assert!(summary.platforms.contains("OpenVMS / VAX/VMS"));
    assert!(analysis.aggregate_platforms().contains("OpenVMS / VAX/VMS"));
    assert_eq!(
        analysis.aggregate_platforms().iter().cloned().collect::<Vec<_>>(),
        summary.platforms.iter().cloned().collect::<Vec<_>>()
    );
}

#[test]
fn tape_mark_before_a_record_loses_nothing() {
    let mut bytes = vec![0u8; 4];
    bytes.extend_from_slice(&image(|w| w.write_record(b"AB").unwrap()));
    let analysis = analyze_bytes(&bytes);
    assert_eq!(analysis.totals.files, 1);
    assert_eq!(analysis.files[0].records[0].offset, 4);
    assert_eq!(analysis.files[0].tape_mark_warning, None);
    assert!(analysis.warnings.is_empty());
}

#[test]
fn double_tape_mark_closes_a_file_with_a_warning() {
    let record = image(|w| w.write_record(b"AB").unwrap());
    let mut aggregator = Aggregator::new(record.len() as u64);
    let mut reader = SimhTapeReader::new(&record);
    assert!(!aggregator.on_block(reader.next_block()));
    assert!(!aggregator.on_block(Ok(SimhTapeBlock::TapeMark {
        offset: 10,
        kind: SimhTapeMark::Double,
    })));
    assert!(aggregator.on_block(Ok(SimhTapeBlock::EndOfStream)));
    let analysis = aggregator.finish();
    assert_eq!(
        analysis.files[0].tape_mark_warning.as_deref(),
        Some("Double tape mark encountered")
    );
    assert!(analysis.warnings.is_empty());
}

#[test]
fn markers_and_errors_become_tape_warnings() {
    let mut bytes = Vec::new();
    bytes.extend_from_slice(&0xFFFF_FFFEu32.to_le_bytes());
    bytes.extend_from_slice(&0xFFFE_FFFFu32.to_le_bytes());
    bytes.extend_from_slice(&0xFFFF_0001u32.to_le_bytes());
    bytes.extend_from_slice(&0x7000_0ABCu32.to_le_bytes());
    bytes.extend_from_slice(&0xF123_4567u32.to_le_bytes());
    bytes.extend_from_slice(&image(|w| w.write_record(b"data").unwrap()));
    bytes.extend_from_slice(&0xFFFE_1234u32.to_le_bytes());
    bytes.extend_from_slice(&image(|w| w.write_record(b"lost").unwrap()));
    let analysis = analyze_bytes(&bytes);
    assert_eq!(
        analysis.warnings,
        vec![
            "Erase gap marker at offset 0x00000000",
            "Half-gap marker at offset 0x00000004",
            "Half-gap marker at offset 0x00000008",
            "SIMH private marker class 0x7 value 0x00000ABC at offset 0x0000000C",
            "SIMH reserved marker class 0xF value 0x01234567 at offset 0x00000010",
            "illegal forward half-gap marker 0xFFFE1234",
        ]
    );
    assert_eq!(analysis.totals.files, 1);
    assert_eq!(analysis.totals.records, 1);
    assert_eq!(analysis.files[0].records[0].offset, 20);
    assert!(analysis.files[0].summary.is_some());
    check_totals(&analysis);
}

#[test]
fn truncated_image_keeps_what_was_read() {
    let mut bytes = image(|w| {
        w.write_record(b"whole").unwrap();
        w.write_record(b"cut short").unwrap();
    });
    bytes.truncate(bytes.len() - 6);
    let analysis = analyze_bytes(&bytes);
    assert_eq!(analysis.totals.records, 1);
    assert_eq!(analysis.totals.files, 1);
    assert_eq!(analysis.warnings, vec!["failed to fill whole buffer"]);
    assert_eq!(analysis.filesize, Some(bytes.len() as u64));
    check_totals(&analysis);
}

#[test]
fn record_classes_carry_their_warnings() {
    let cases: Vec<(u8, Option<&str>)> = vec![
        (0, None),
        (1, Some("SIMH private data class 0x1")),
        (6, Some("SIMH private data class 0x6")),
        (8, Some("SIMH class 8 (bad data record)")),
        (9, Some("SIMH reserved data class 0x9")),
        (0xD, Some("SIMH reserved data class 0xD")),
        (0xE, Some("SIMH tape description record (class E)")),
        (7, Some("SIMH unknown data class 0x7")),
        (0xF, Some("SIMH unknown data class 0xF")),
        (0x20, Some("SIMH unknown data class 0x20")),
    ];
    for (class, warning) in cases {
        let record = SimhTapeRecord {
            header: SimhTapeRecordHeader { offset: 0, class, length: 2, trailing_length: Some(2) },
            data: vec![1, 2],
        };
        let analyzed = analyze_record(&record, 3);
        assert_eq!(analyzed.record_index, 3);
        assert_eq!(analyzed.class, class);
        let expected: Vec<String> = warning.iter().map(|w| w.to_string()).collect();
        assert_eq!(analyzed.warnings, expected);
    }
    let record = SimhTapeRecord {
        header: SimhTapeRecordHeader { offset: 0, class: 8, length: 2, trailing_length: Some(3) },
        data: vec![1, 2],
    };
    assert_eq!(
        analyze_record(&record, 1).warnings,
        vec!["Trailing length mismatch", "SIMH class 8 (bad data record)"]
    );
    let record = SimhTapeRecord {
        header: SimhTapeRecordHeader { offset: 0, class: 0, length: 2, trailing_length: None },
        data: vec![1, 2],
    };
    assert_eq!(analyze_record(&record, 1).warnings, vec!["Trailing length mismatch"]);
}

#[test]
fn classes_of_records_in_an_image_are_reported() {
    let bytes = image(|w| {
        w.write_bad_record(b"bad!").unwrap();
        w.write_record_with_class(0xE, b"describes").unwrap();
    });
    let analysis = analyze_bytes(&bytes);
    let records = &analysis.files[0].records;
    assert_eq!(records[0].class, 8);
    assert_eq!(records[0].warnings, vec!["SIMH class 8 (bad data record)"]);
    assert_eq!(records[1].class, 0xE);
    assert_eq!(records[1].warnings, vec!["SIMH tape description record (class E)"]);
    check_totals(&analysis);
}

#[test]
fn command_is_sought_in_the_first_twenty_records_only() {
    let mut uhl = vec![b' '; 80];
    uhl[..4].copy_from_slice(b"UHL1");
    uhl[4..16].copy_from_slice(b"$ BACKUP A B");
    let early = image(|w| {
        for _ in 0..19 {
            w.write_record(b"filler record").unwrap();
        }
        w.write_record(&uhl).unwrap();
    });
    assert_eq!(analyze_bytes(&early).backup_command.as_deref(), Some("$ BACKUP A B"));
    let late = image(|w| {
        for _ in 0..20 {
            w.write_record(b"filler record").unwrap();
        }
        w.write_record(&uhl).unwrap();
    });
    let analysis = analyze_bytes(&late);
    assert_eq!(analysis.backup_command, None);
    assert_eq!(analysis.totals.records, 21);
    check_totals(&analysis);
}

#[test]
fn labelled_tape_is_summed_up() {
    let mut vol = vec![b' '; 80];
    vol[..4].copy_from_slice(b"VOL1");
    vol[4..10].copy_from_slice(b"TAPE01");
    let mut hdr = vec![b' '; 80];
    hdr[..4].copy_from_slice(b"HDR1");
    hdr[4..12].copy_from_slice(b"DATA.BCK");
    let bytes = image(|w| {
        w.write_record(&vol).unwrap();
        w.write_record(&hdr).unwrap();
        w.write_tape_mark().unwrap();
        w.write_record(&[0u8; 2048]).unwrap();
        w.write_record(&[0u8; 2048]).unwrap();
        w.write_tape_mark().unwrap();
        w.write_tape_mark().unwrap();
    });
    let analysis = analyze_bytes(&bytes);
    assert_eq!(analysis.totals.files, 2);
    let labels = analysis.files[0].summary.as_ref().unwrap();
    assert_eq!(
        labels.platforms.iter().cloned().collect::<Vec<_>>(),
        vec!["ANSI/ISO Standard Labeled Tape"]
    );
    assert_eq!(
        labels.formats.iter().cloned().collect::<Vec<_>>(),
        vec!["DEC BACKUP save set (.BCK)"]
    );
    assert_eq!(labels.details, vec!["HDR1 declares file 'DATA.BCK'"]);
    let data = analysis.files[1].summary.as_ref().unwrap();
    assert_eq!(data.platforms.iter().cloned().collect::<Vec<_>>(), vec!["Unix/Linux"]);
    assert_eq!(data.formats.iter().cloned().collect::<Vec<_>>(), vec!["tar archive"]);
    let tape = analysis.tape_summary.as_ref().unwrap();
    assert_eq!(
        tape.details.last().map(|s| s.as_str()),
        Some("Tape includes 2 ANSI/ISO label records")
    );
    check_totals(&analysis);
}

#[test]
fn errors_are_taken_in_as_warnings_by_the_aggregator() {
    let mut aggregator = Aggregator::new(0);
    let error = TapeError::new(TapeErrorKind::InvalidData, "made up".to_string());
    assert!(aggregator.on_block(Err(error)));
    let analysis = aggregator.finish();
    assert_eq!(analysis.warnings, vec!["made up"]);
    assert_eq!(analysis.filesize, Some(0));
    assert!(analysis.files.is_empty());
}
