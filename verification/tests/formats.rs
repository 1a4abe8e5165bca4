use rtsimh::command::{
    extract_backup_command, looks_like_command, parse_data_block_for_command,
    parse_label_for_command,
};
use rtsimh::encoding::{
    build_preview, classify_encoding, encoding_label, RecordEncoding, RecordPreview,
};
use rtsimh::label::{decode_ansi_label, trim_ascii, AnsiLabel};
use rtsimh::record::{AnalyzedRecord, TapeFile};
use rtsimh::signature::RecordSignature;
use rtsimh::summarize::{add_name_formats, summarize_file_records, summarize_tape};
use rtsimh::summary::{common_block_size, TapeSummary};

const LABEL_LENGTH: usize = 80;

fn sample_record(label: Option<AnsiLabel>, signatures: Vec<RecordSignature>) -> AnalyzedRecord {
    AnalyzedRecord {
        record_index: 1,
        offset: 0,
        length: 80,
        class: 0,
        encoding: RecordEncoding::Ascii,
        label,
        signatures,
        warnings: Vec::new(),
        preview: RecordPreview::default(),
        trailing_length: Some(80),
    }
}

fn label_bytes(id: &[u8]) -> Vec<u8> {
    let mut bytes = vec![b' '; LABEL_LENGTH];
    bytes[..id.len()].copy_from_slice(id);
    bytes
}

#[test]
fn decode_vol1_label_extracts_fields() {
    let mut bytes = vec![b' '; LABEL_LENGTH];
    bytes[..4].copy_from_slice(b"VOL1");
    bytes[4..10].copy_from_slice(b"TAPE01");
    bytes[37..41].copy_from_slice(b"ACMS");

    let label = decode_ansi_label(&bytes).expect("label parsed");
    match label {
        AnsiLabel::Volume { serial, owner } => {
            assert_eq!(serial, "TAPE01");
            assert_eq!(owner, "ACMS");
        }
        _ => panic!("unexpected label variant"),
    }
}

#[test]
fn summarize_file_records_collects_platforms_formats() {
    let hdr_label = AnsiLabel::FileHeader1 {
        file: "BACKUP.BCK".to_string(),
        file_set: "001".to_string(),
        created: "250101".to_string(),
    };

    let labeled = sample_record(Some(hdr_label), Vec::new());
    let signatures = vec![RecordSignature::new("gzip", "GZIP compressed file")
        .with_format("GZIP")
        .with_platform("Unix/Linux")];
    let data_record = sample_record(None, signatures);

    let summary = summarize_file_records(&[labeled, data_record]).expect("summary present");
    assert!(summary.platforms.contains("ANSI/ISO Standard Labeled Tape"));
    assert!(summary.platforms.contains("Unix/Linux"));
    assert!(summary.formats.contains("GZIP"));
    assert!(summary
        .details
        .iter()
        .any(|detail| detail.contains("HDR1 declares file")));
}

#[test]
fn extract_backup_command_prefers_uhl_text() {
    let mut uhl = vec![b' '; LABEL_LENGTH];
    uhl[..3].copy_from_slice(b"UHL");
    uhl[3] = b'1';
    let cmd = b"BACKUP/IMAGE DUA0: DUA1:/SAVE";
    uhl[4..4 + cmd.len()].copy_from_slice(cmd);

    let command = extract_backup_command(&vec![uhl]).expect("command found");
    assert!(command.starts_with("BACKUP/IMAGE"));
    assert!(command.contains("DUA1"));
}

#[test]
fn labels_of_every_kind_are_decoded() {
    let mut hdr1 = label_bytes(b"HDR1");
    hdr1[4..14].copy_from_slice(b"BACKUP.BCK");
    hdr1[21..27].copy_from_slice(b"SET001");
    hdr1[41..47].copy_from_slice(b" 85123");
    match decode_ansi_label(&hdr1).unwrap() {
        AnsiLabel::FileHeader1 { file, file_set, created } => {
            assert_eq!(file, "BACKUP.BCK");
            assert_eq!(file_set, "SET001");
            assert_eq!(created, "85123");
        }
        other => panic!("unexpected label {:?}", other),
    }
    let mut hdr2 = label_bytes(b"HDR2");
    hdr2[4] = b'F';
    hdr2[5..10].copy_from_slice(b"02048");
    hdr2[10..15].copy_from_slice(b"00512");
    match decode_ansi_label(&hdr2).unwrap() {
        AnsiLabel::FileHeader2 { record_format, block_len, record_len } => {
            assert_eq!(record_format, "F");
            assert_eq!(block_len, "02048");
            assert_eq!(record_len, "00512");
        }
        other => panic!("unexpected label {:?}", other),
    }
    let mut eof1 = label_bytes(b"EOF1");
    eof1[4..8].copy_from_slice(b"DATA");
    eof1[54..60].copy_from_slice(b"000042");
    match decode_ansi_label(&eof1).unwrap() {
        AnsiLabel::EndOfFile { blocks, file } => {
            assert_eq!(file, "DATA");
            assert_eq!(blocks, "000042");
        }
        other => panic!("unexpected label {:?}", other),
    }
    let mut eov1 = label_bytes(b"EOV1");
    eov1[4..8].copy_from_slice(b"DATA");
    eov1[54..60].copy_from_slice(b"000007");
    match decode_ansi_label(&eov1).unwrap() {
        AnsiLabel::EndOfVolume { blocks, file } => {
            assert_eq!(file, "DATA");
            assert_eq!(blocks, "000007");
        }
        other => panic!("unexpected label {:?}", other),
    }
    let mut uhl = label_bytes(b"UHL3");
    uhl[4..9].copy_from_slice(b"hello");
    uhl[79] = 0xC0;
    match decode_ansi_label(&uhl).unwrap() {
        AnsiLabel::UserHeader { id, payload } => {
            assert_eq!(id, "UHL3");
            assert!(payload.starts_with("hello"));
            assert!(payload.ends_with('.'));
            assert_eq!(payload.len(), 76);
        }
        other => panic!("unexpected label {:?}", other),
    }
    match decode_ansi_label(&label_bytes(b"UTL1")).unwrap() {
        AnsiLabel::UserTrailer { id } => assert_eq!(id, "UTL1"),
        other => panic!("unexpected label {:?}", other),
    }
    match decode_ansi_label(&label_bytes(b"XY")).unwrap() {
        AnsiLabel::Raw(id) => assert_eq!(id, "XY"),
        other => panic!("unexpected label {:?}", other),
    }
}

#[test]
fn label_identifiers_are_reported() {
    assert_eq!(decode_ansi_label(&label_bytes(b"VOL1")).unwrap().id(), "VOL1");
    assert_eq!(decode_ansi_label(&label_bytes(b"HDR1")).unwrap().id(), "HDR1");
    assert_eq!(decode_ansi_label(&label_bytes(b"HDR2")).unwrap().id(), "HDR2");
    assert_eq!(decode_ansi_label(&label_bytes(b"EOF1")).unwrap().id(), "EOF1");
    assert_eq!(decode_ansi_label(&label_bytes(b"EOV1")).unwrap().id(), "EOV1");
    assert_eq!(decode_ansi_label(&label_bytes(b"UHL9")).unwrap().id(), "UHL9");
    assert_eq!(decode_ansi_label(&label_bytes(b"UTL2")).unwrap().id(), "UTL2");
    assert_eq!(decode_ansi_label(&label_bytes(b"ABCD")).unwrap().id(), "ABCD");
}

#[test]
fn labels_need_eighty_bytes_and_a_readable_identifier() {
    let mut bytes = label_bytes(b"VOL1");
    bytes.push(b' ');
    assert!(decode_ansi_label(&bytes).is_none());
    assert!(decode_ansi_label(&label_bytes(b"VOL1")[..79]).is_none());
    assert!(decode_ansi_label(&[]).is_none());
    let mut broken = label_bytes(b"VOL1");
    broken[2] = 0xFF;
    assert!(decode_ansi_label(&broken).is_none());
    let mut wide = label_bytes(b"");
    wide[0..2].copy_from_slice("\u{e9}".as_bytes());
    wide[2..4].copy_from_slice("\u{a0}".as_bytes());
    match decode_ansi_label(&wide).unwrap() {
        AnsiLabel::Raw(id) => assert_eq!(id, "\u{e9}"),
        other => panic!("unexpected label {:?}", other),
    }
}

#[test]
fn fields_are_trimmed_and_made_ascii() {
    assert_eq!(trim_ascii(b"  TAPE01 \t"), "TAPE01");
    assert_eq!(trim_ascii(b"\xc3\xa9t\xe9"), "..t.");
    assert_eq!(trim_ascii(b"   "), "");
    assert_eq!(trim_ascii(b""), "");
    assert_eq!(trim_ascii(b"\x0b a b \x0c"), "a b");
    assert_eq!(trim_ascii(b"\x00 a"), "\u{0} a");
}

#[test]
fn encodings_follow_the_thresholds() {
    assert_eq!(classify_encoding(&[]), RecordEncoding::Empty);
    assert_eq!(classify_encoding(b"plain text\r\n"), RecordEncoding::Ascii);
    assert_eq!(classify_encoding(&[0u8; 16]), RecordEncoding::Binary);
    let mut data = vec![b'a'; 100];
    data[0] = 0;
    data[1] = 0;
    data[2] = 0;
    data[3] = 0;
    assert_eq!(classify_encoding(&data), RecordEncoding::Ascii);
    data[4] = 0;
    assert_eq!(classify_encoding(&data), RecordEncoding::MostlyAscii);
    for b in &mut data[5..29] {
        *b = 0;
    }
    assert_eq!(classify_encoding(&data), RecordEncoding::MostlyAscii);
    data[29] = 0;
    assert_eq!(classify_encoding(&data), RecordEncoding::Binary);

    let mut ansi = vec![b'a'; 100];
    for b in &mut ansi[0..4] {
        *b = 0xE9;
    }
    assert_eq!(classify_encoding(&ansi), RecordEncoding::Ascii);
    ansi[4] = 0xE9;
    assert_eq!(classify_encoding(&ansi), RecordEncoding::Ansi);
    for b in &mut ansi[90..100] {
        *b = 0;
    }
    assert_eq!(classify_encoding(&ansi), RecordEncoding::MostlyAnsi);
    assert_eq!(classify_encoding(&[0xFFu8; 8]), RecordEncoding::Ansi);
}

#[test]
fn encoding_labels_are_spelled_out() {
    assert_eq!(encoding_label(RecordEncoding::Empty), "empty");
    assert_eq!(encoding_label(RecordEncoding::Ascii), "ASCII");
    assert_eq!(encoding_label(RecordEncoding::MostlyAscii), "mostly ASCII");
    assert_eq!(encoding_label(RecordEncoding::Ansi), "ANSI/Extended ASCII");
    assert_eq!(encoding_label(RecordEncoding::MostlyAnsi), "mostly ANSI");
    assert_eq!(encoding_label(RecordEncoding::Binary), "binary");
    assert_eq!(RecordEncoding::default(), RecordEncoding::Binary);
}

#[test]
fn previews_show_sixty_four_bytes_in_rows_of_sixteen() {
    let preview = build_preview(&[], RecordEncoding::Empty);
    assert!(preview.hex_lines.is_empty());
    assert!(preview.text_lines.is_empty());
    assert_eq!(preview.previewed_bytes, 0);

    let data = b"Hello,\tworld\n\x00\x80\xe9!ABCD";
    let preview = build_preview(data, RecordEncoding::Ascii);
    assert_eq!(preview.previewed_bytes, 21);
    assert_eq!(
        preview.hex_lines,
        vec![
            "    Hex:  48 65 6c 6c 6f 2c 09 77 6f 72 6c 64 0a 00 80 e9".to_string(),
            "    Hex:  21 41 42 43 44".to_string(),
        ]
    );
    assert_eq!(
        preview.text_lines,
        vec!["    Text: Hello, world ...".to_string(), "    Text: !ABCD".to_string()]
    );
    let preview = build_preview(data, RecordEncoding::MostlyAnsi);
    assert_eq!(preview.text_lines[0], "    Text: Hello, world .\u{80}\u{e9}");
    let preview = build_preview(data, RecordEncoding::Binary);
    assert_eq!(
        preview.text_lines,
        vec!["    Text: (binary)".to_string(), "    Text: (binary)".to_string()]
    );

    let long = vec![0x41u8; 200];
    let preview = build_preview(&long, RecordEncoding::Ascii);
    assert_eq!(preview.previewed_bytes, 64);
    assert_eq!(preview.hex_lines.len(), 4);
    assert_eq!(preview.text_lines.len(), 4);
    assert_eq!(preview.text_lines[3], "    Text: AAAAAAAAAAAAAAAA");
}

#[test]
fn summaries_keep_each_entry_once_and_in_order() {
    let mut summary = TapeSummary::default();
    assert!(summary.is_empty());
    summary.add_platform("B");
    summary.add_platform("A");
    summary.add_platform("B");
    summary.add_platform("");
    summary.add_format("tar");
    summary.add_format("");
    summary.add_format("tar");
    summary.add_detail("one");
    summary.add_detail("two");
    summary.add_detail("one");
    summary.add_detail("");
    assert!(!summary.is_empty());
    assert_eq!(summary.platforms.iter().cloned().collect::<Vec<_>>(), vec!["B", "A"]);
    assert_eq!(summary.formats.iter().cloned().collect::<Vec<_>>(), vec!["tar"]);
    assert_eq!(summary.details, vec!["one", "two"]);

    let mut other = TapeSummary::default();
    other.add_platform("C");
    other.add_platform("A");
    other.add_format("cpio");
    other.add_detail("two");
    other.add_detail("three");
    summary.merge(&other);
    assert_eq!(summary.platforms.iter().cloned().collect::<Vec<_>>(), vec!["B", "A", "C"]);
    assert_eq!(summary.formats.iter().cloned().collect::<Vec<_>>(), vec!["tar", "cpio"]);
    assert_eq!(summary.details, vec!["one", "two", "three"]);
}

#[test]
fn file_summary_reads_labels_signatures_and_block_size() {
    assert!(summarize_file_records(&[]).is_none());
    let lower = AnsiLabel::FileHeader1 {
        file: "image.sav".to_string(),
        file_set: String::new(),
        created: String::new(),
    };
    let mut records = vec![sample_record(Some(lower), Vec::new())];
    for (i, length) in [512u32, 2048, 2048, 512, 80].iter().enumerate() {
        let mut record = sample_record(
            None,
            vec![RecordSignature::new("t", &format!("sig {}", i)).with_format(&format!("F{}", i))],
        );
        record.length = *length;
        records.push(record);
    }
    let summary = summarize_file_records(&records).unwrap();
    assert_eq!(
        summary.platforms.iter().cloned().collect::<Vec<_>>(),
        vec!["ANSI/ISO Standard Labeled Tape"]
    );
    assert_eq!(
        summary.formats.iter().cloned().collect::<Vec<_>>(),
        vec!["DEC save image (.SAV)", "F0", "F1", "F2"]
    );
    assert_eq!(
        summary.details,
        vec![
            "HDR1 declares file 'image.sav'",
            "sig 0 (confidence: medium)",
            "sig 1 (confidence: medium)",
            "sig 2 (confidence: medium)",
            "Predominant data block size: 512 bytes",
        ]
    );

    let bak = AnsiLabel::FileHeader1 {
        file: "old.bak;1".to_string(),
        file_set: String::new(),
        created: String::new(),
    };
    let summary = summarize_file_records(&[sample_record(Some(bak), Vec::new())]).unwrap();
    assert_eq!(
        summary.formats.iter().cloned().collect::<Vec<_>>(),
        vec!["DEC BACKUP save set (.BCK)"]
    );
    let unnamed = AnsiLabel::FileHeader1 {
        file: String::new(),
        file_set: String::new(),
        created: String::new(),
    };
    let summary = summarize_file_records(&[sample_record(Some(unnamed), Vec::new())]).unwrap();
    assert!(summary.details.is_empty());
    assert!(summary.formats.is_empty());
}

#[test]
fn save_image_is_known_by_a_name_that_holds_sav() {
    let formats_for = |name: &str| {
        let label = AnsiLabel::FileHeader1 {
            file: name.to_string(),
            file_set: String::new(),
            created: String::new(),
        };
        let summary = summarize_file_records(&[sample_record(Some(label), Vec::new())]).unwrap();
        summary.formats.iter().cloned().collect::<Vec<_>>()
    };
    assert_eq!(formats_for("IMAGE.SAV;1"), vec!["DEC save image (.SAV)"]);
    assert_eq!(formats_for("image.sav;3"), vec!["DEC save image (.SAV)"]);
    assert_eq!(formats_for("IMAGE.SAV"), vec!["DEC save image (.SAV)"]);
    assert_eq!(
        formats_for("a.bck.sav.old"),
        vec!["DEC BACKUP save set (.BCK)", "DEC save image (.SAV)"]
    );
    assert!(formats_for("IMAGESAV").is_empty());
    assert!(formats_for("IMAGE.SA").is_empty());

    let mut summary = TapeSummary::default();
    add_name_formats(&mut summary, "X.SAV;2");
    add_name_formats(&mut summary, "x.sav");
    assert_eq!(
        summary.formats.iter().cloned().collect::<Vec<_>>(),
        vec!["DEC save image (.SAV)"]
    );
}

#[test]
fn common_block_size_is_the_most_frequent_length() {
    assert_eq!(common_block_size(&[]), None);
    assert_eq!(common_block_size(&[80]), Some(80));
    assert_eq!(common_block_size(&[80, 512, 512, 80, 512]), Some(512));
    assert_eq!(common_block_size(&[1, 2, 2, 1]), Some(1));
    assert_eq!(common_block_size(&[3, 1, 2, 1, 2, 3, 3]), Some(3));
}

#[test]
fn tape_summary_merges_files_and_counts_labels() {
    assert!(summarize_tape(&[]).is_none());
    let vol = AnsiLabel::Volume { serial: "T1".to_string(), owner: String::new() };
    let mut first = TapeFile::default();
    first.records = vec![sample_record(Some(vol), Vec::new())];
    first.summary = summarize_file_records(&first.records);
    let mut second = TapeFile::default();
    let mut data = sample_record(None, Vec::new());
    data.encoding = RecordEncoding::MostlyAnsi;
    second.records = vec![data];
    second.summary = summarize_file_records(&second.records);
    let summary = summarize_tape(&[first.clone(), second.clone()]).unwrap();
    assert_eq!(
        summary.platforms.iter().cloned().collect::<Vec<_>>(),
        vec!["ANSI/ISO Standard Labeled Tape"]
    );
    assert_eq!(
        summary.formats.iter().cloned().collect::<Vec<_>>(),
        vec!["Content appears mostly ANSI"]
    );
    assert_eq!(
        summary.details,
        vec![
            "Predominant data block size: 80 bytes",
            "Tape includes 1 ANSI/ISO label record",
        ]
    );
    let mut third = first.clone();
    third.summary = None;
    let summary = summarize_tape(&[first, third]).unwrap();
    assert_eq!(summary.details, vec!["Tape includes 2 ANSI/ISO label records"]);
    assert!(summary.formats.is_empty());

    let mut signed = sample_record(
        None,
        vec![RecordSignature::new("gzip", "GZIP compressed file").with_format("GZIP")],
    );
    signed.length = 10;
    let mut file = TapeFile::default();
    file.records = vec![signed];
    let summary = summarize_tape(&[file]).unwrap();
    assert_eq!(summary.formats.iter().cloned().collect::<Vec<_>>(), vec!["GZIP"]);
    assert_eq!(summary.details, vec!["GZIP compressed file (confidence: medium)"]);
}

#[test]
fn commands_need_six_bytes_and_a_keyword() {
    assert!(looks_like_command("backup/image"));
    assert!(looks_like_command("run command"));
    assert!(looks_like_command("show log"));
    assert!(looks_like_command("verify it"));
    assert!(looks_like_command("a/b/c/d"));
    assert!(looks_like_command("$ dir x"));
    assert!(!looks_like_command("backu"));
    assert!(!looks_like_command("a/b"));
    assert!(!looks_like_command("nothing here"));
    assert!(looks_like_command("\u{e9}\u{e9}\u{e9}/"));
    assert!(!looks_like_command("\u{e9}/"));
}

#[test]
fn label_commands_come_from_uhl_payload_or_vol1_comment() {
    let mut uhl = label_bytes(b"UHL1");
    uhl[10..22].copy_from_slice(b"$ BACKUP A B");
    assert_eq!(parse_label_for_command(&uhl).as_deref(), Some("$ BACKUP A B"));
    let quiet = label_bytes(b"UHL1");
    assert_eq!(parse_label_for_command(&quiet), None);
    let mut vol = label_bytes(b"VOL1");
    vol[51..63].copy_from_slice(b"BACKUP/VERIF");
    vol[4..10].copy_from_slice(b"BACKUP");
    assert_eq!(parse_label_for_command(&vol).as_deref(), Some("BACKUP/VERIF"));
    let mut hdr = label_bytes(b"HDR1");
    hdr[51..63].copy_from_slice(b"BACKUP/VERIF");
    assert_eq!(parse_label_for_command(&hdr), None);
    let mut broken = label_bytes(b"UHL1");
    broken[0] = 0xFF;
    broken[10..22].copy_from_slice(b"$ BACKUP A B");
    assert_eq!(parse_label_for_command(&broken), None);
    let mut lossy = label_bytes(b"UHL1");
    lossy[4..12].copy_from_slice(b"BACKUP/\xff");
    assert_eq!(parse_label_for_command(&lossy).as_deref(), Some("BACKUP/\u{fffd}"));
    let mut accented = label_bytes(b"UHL1");
    accented[4..13].copy_from_slice("BACKUP/\u{e9}".as_bytes());
    assert_eq!(parse_label_for_command(&accented).as_deref(), Some("BACKUP/\u{e9}"));
}

#[test]
fn block_commands_are_counted_or_run_as_far_as_printable() {
    assert_eq!(parse_data_block_for_command(&vec![b'x'; 512]), None);
    let command = b"BACKUP/IMAGE/VERIFY DUA0: MUA0:SAVE.BCK/SAVE_SET/LABEL=X";
    assert_eq!(command.len(), 56);
    let mut counted = vec![0u8; 600];
    counted[98] = 56;
    counted[99] = 0;
    counted[100..156].copy_from_slice(command);
    counted[156..160].copy_from_slice(b"junk");
    assert_eq!(
        parse_data_block_for_command(&counted).as_deref(),
        Some("BACKUP/IMAGE/VERIFY DUA0: MUA0:SAVE.BCK/SAVE_SET/LABEL=X")
    );
    let mut run = vec![0u8; 600];
    run[100..156].copy_from_slice(command);
    assert_eq!(
        parse_data_block_for_command(&run).as_deref(),
        Some("BACKUP/IMAGE/VERIFY DUA0: MUA0:SAVE.BCK/SAVE_SET/LABEL=X")
    );
    let mut short = vec![0u8; 600];
    short[100..112].copy_from_slice(b"BACKUP/A/B/C");
    assert_eq!(parse_data_block_for_command(&short), None);
    let mut few = vec![0u8; 600];
    few[100..140].copy_from_slice(b"BACKUP/IMAGE DUA0: MUA0: and more words.");
    assert_eq!(parse_data_block_for_command(&few), None);
    let mut late = vec![0u8; 1200];
    late[1018..1074].copy_from_slice(command);
    assert_eq!(parse_data_block_for_command(&late), None);
    let mut edge = vec![0u8; 1200];
    edge[1017..1073].copy_from_slice(command);
    assert!(parse_data_block_for_command(&edge).is_some());
}

#[test]
fn extract_backup_command_falls_back_to_data_blocks() {
    assert_eq!(extract_backup_command(&Vec::new()), None);
    let command = b"BACKUP/IMAGE/VERIFY DUA0: MUA0:SAVE.BCK/SAVE_SET/LABEL=X";
    let mut block = vec![0u8; 600];
    block[100..156].copy_from_slice(command);
    let mut uhl = label_bytes(b"UHL1");
    uhl[10..22].copy_from_slice(b"$ BACKUP A B");
    let quiet = label_bytes(b"HDR1");
    assert_eq!(
        extract_backup_command(&vec![quiet.clone(), block.clone()]).as_deref(),
        Some("BACKUP/IMAGE/VERIFY DUA0: MUA0:SAVE.BCK/SAVE_SET/LABEL=X")
    );
    assert_eq!(
        extract_backup_command(&vec![block, quiet, uhl]).as_deref(),
        Some("$ BACKUP A B")
    );
}
