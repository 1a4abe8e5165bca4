use rtsimh::error::TapeErrorKind;
use rtsimh::reader::{SimhTapeBlock, SimhTapeMark, SimhTapeReader};
use rtsimh::word::{
    decode_word, encode_word, le_bytes, word_at, END_OF_MEDIUM_WORD, ERASE_GAP_WORD,
    FORWARD_HALF_GAP_WORD, MAX_RECORD_LENGTH, TAPE_MARK_WORD,
};
use rtsimh::writer::SimhTapeWriter;

fn emit_record(buf: &mut Vec<u8>, class: u8, payload: &[u8]) {
    let len = payload.len() as u32;
    let word = encode_word(class, len).unwrap();
    buf.extend_from_slice(&word.to_le_bytes());
    buf.extend_from_slice(payload);
    if len % 2 != 0 {
        buf.push(0);
    }
    buf.extend_from_slice(&word.to_le_bytes());
}

fn emit_plain_record(buf: &mut Vec<u8>, payload: &[u8]) {
    let len = payload.len() as u32;
    buf.extend_from_slice(&len.to_le_bytes());
    buf.extend_from_slice(payload);
    if len % 2 != 0 {
        buf.push(0);
    }
    buf.extend_from_slice(&len.to_le_bytes());
}

#[test]
fn test_write_record_even() {
    let mut writer = SimhTapeWriter::new(Vec::new());

    let data = vec![0x01, 0x02];
    writer.write_record(&data).unwrap();

    let expected = vec![0x02, 0x00, 0x00, 0x00, 0x01, 0x02, 0x02, 0x00, 0x00, 0x00];
    let buf = writer.into_inner();
    assert_eq!(buf, expected);
}

#[test]
fn test_write_record_odd() {
    let mut writer = SimhTapeWriter::new(Vec::new());

    let data = vec![0x01, 0x02, 0x03];
    writer.write_record(&data).unwrap();

    let expected = vec![
        0x03, 0x00, 0x00, 0x00, 0x01, 0x02, 0x03, 0x00, 0x03, 0x00, 0x00, 0x00,
    ];
    let buf = writer.into_inner();
    assert_eq!(buf, expected);
}

#[test]
fn test_write_tape_mark() {
    let mut writer = SimhTapeWriter::new(Vec::new());

    writer.write_tape_mark().unwrap();

    let expected = vec![0x00, 0x00, 0x00, 0x00];
    let buf = writer.into_inner();
    assert_eq!(buf, expected);
}

#[test]
fn lib_reads_record_and_marks() {
    let mut tape = Vec::new();
    emit_record(&mut tape, 0, &[0x01, 0x02, 0x03]);
    tape.extend_from_slice(&TAPE_MARK_WORD.to_le_bytes());
    tape.extend_from_slice(&TAPE_MARK_WORD.to_le_bytes());
    tape.extend_from_slice(&END_OF_MEDIUM_WORD.to_le_bytes());

    let mut reader = SimhTapeReader::new(&tape);

    match reader.next_block().unwrap() {
        SimhTapeBlock::Record(record) => {
            assert_eq!(record.header.length, 3);
            assert_eq!(record.header.class, 0);
            assert_eq!(record.data, vec![1, 2, 3]);
            assert_eq!(record.header.trailing_length, Some(3));
        }
        other => panic!("expected record, got {:?}", other),
    }

    match reader.next_block().unwrap() {
        SimhTapeBlock::TapeMark { kind, .. } => assert_eq!(kind, SimhTapeMark::Single),
        other => panic!("expected tape mark, got {:?}", other),
    }

    match reader.next_block().unwrap() {
        SimhTapeBlock::TapeMark { kind, .. } => assert_eq!(kind, SimhTapeMark::Double),
        other => panic!("expected double tape mark, got {:?}", other),
    }

    match reader.next_block().unwrap() {
        SimhTapeBlock::TapeMark { kind, .. } => assert_eq!(kind, SimhTapeMark::EndOfTape),
        other => panic!("expected end-of-tape mark, got {:?}", other),
    }

    match reader.next_block().unwrap() {
        SimhTapeBlock::EndOfStream => {}
        other => panic!("expected end of stream, got {:?}", other),
    }
}

#[test]
fn reads_bad_record_class() {
    let mut tape = Vec::new();
    emit_record(&mut tape, 0x8, &[0xAA, 0xBB]);
    tape.extend_from_slice(&TAPE_MARK_WORD.to_le_bytes());

    let mut reader = SimhTapeReader::new(&tape);
    match reader.next_block().unwrap() {
        SimhTapeBlock::Record(record) => {
            assert_eq!(record.header.class, 0x8);
            assert_eq!(record.data, vec![0xAA, 0xBB]);
        }
        other => panic!("expected record, got {:?}", other),
    }
}

#[test]
fn handles_half_gap_and_erase_markers() {
    let mut tape = Vec::new();
    tape.extend_from_slice(&FORWARD_HALF_GAP_WORD.to_le_bytes());
    tape.extend_from_slice(&ERASE_GAP_WORD.to_le_bytes());

    let mut reader = SimhTapeReader::new(&tape);

    match reader.next_block().unwrap() {
        SimhTapeBlock::TapeMark { kind, .. } => assert_eq!(kind, SimhTapeMark::HalfGapForward),
        other => panic!("expected half-gap marker, got {:?}", other),
    }

    match reader.next_block().unwrap() {
        SimhTapeBlock::TapeMark { kind, .. } => assert_eq!(kind, SimhTapeMark::EraseGap),
        other => panic!("expected erase-gap marker, got {:?}", other),
    }
}

#[test]
fn lib_rejects_giant_records() {
    let mut tape = Vec::new();
    let len = MAX_RECORD_LENGTH + 1;
    tape.extend_from_slice(&len.to_le_bytes());
    tape.resize(tape.len() + len as usize, 0);

    let mut reader = SimhTapeReader::new(&tape);
    let err = reader.next_block().unwrap_err();
    assert_eq!(err.kind(), TapeErrorKind::InvalidData);
}

#[test]
fn tap_reads_record_and_marks() {
    let mut tape = Vec::new();
    emit_plain_record(&mut tape, &[0x01, 0x02, 0x03]);
    tape.extend_from_slice(&0u32.to_le_bytes());
    tape.extend_from_slice(&0u32.to_le_bytes());
    tape.extend_from_slice(&0xFFFF_FFFFu32.to_le_bytes());

    let mut reader = SimhTapeReader::new(&tape);

    match reader.next_block().unwrap() {
        SimhTapeBlock::Record(record) => {
            assert_eq!(record.header.length, 3);
            assert_eq!(record.data, vec![1, 2, 3]);
            assert_eq!(record.header.trailing_length, Some(3));
        }
        other => panic!("expected record, got {:?}", other),
    }

    match reader.next_block().unwrap() {
        SimhTapeBlock::TapeMark { kind, .. } => assert_eq!(kind, SimhTapeMark::Single),
        other => panic!("expected tape mark, got {:?}", other),
    }

    match reader.next_block().unwrap() {
        SimhTapeBlock::TapeMark { kind, .. } => assert_eq!(kind, SimhTapeMark::Double),
        other => panic!("expected double tape mark, got {:?}", other),
    }

    match reader.next_block().unwrap() {
        SimhTapeBlock::TapeMark { kind, .. } => assert_eq!(kind, SimhTapeMark::EndOfTape),
        other => panic!("expected end-of-tape mark, got {:?}", other),
    }

    match reader.next_block().unwrap() {
        SimhTapeBlock::EndOfStream => {}
        other => panic!("expected end of stream, got {:?}", other),
    }
}

#[test]
fn tap_rejects_giant_records() {
    let mut tape = Vec::new();
    let len = MAX_RECORD_LENGTH + 1;
    tape.extend_from_slice(&len.to_le_bytes());
    tape.resize(tape.len() + len as usize, 0);

    let mut reader = SimhTapeReader::new(&tape);
    let err = reader.next_block().unwrap_err();
    assert_eq!(err.kind(), TapeErrorKind::InvalidData);
}

#[test]
fn words_pack_class_and_value() {
    assert_eq!(encode_word(0, 3).unwrap(), 3);
    assert_eq!(encode_word(8, 2).unwrap(), 0x8000_0002);
    assert_eq!(encode_word(0xF, 0x0FFF_FFFF).unwrap(), 0xFFFF_FFFF);
    assert_eq!(decode_word(0x8000_0002), (8, 2));
    assert_eq!(decode_word(0xE123_4567), (0xE, 0x0123_4567));
}

#[test]
fn words_agree_with_little_endian_bytes() {
    for word in [0u32, 1, 0x0120_0000, 0x8000_0002, 0xFFFE_FFFF, 0xFFFF_FFFF, 0x1234_5678] {
        assert_eq!(le_bytes(word), word.to_le_bytes());
        assert_eq!(word_at(&word.to_le_bytes(), 0), word);
    }
}

#[test]
fn encode_word_rejects_wide_class_and_value() {
    let err = encode_word(16, 0).unwrap_err();
    assert_eq!(err.kind(), TapeErrorKind::InvalidInput);
    assert_eq!(err.to_string(), "SIMH class 0x10 exceeds 4-bit limit");
    let err = encode_word(0, 0x1000_0000).unwrap_err();
    assert_eq!(err.kind(), TapeErrorKind::InvalidInput);
    assert_eq!(
        err.to_string(),
        "record length 0x10000000 exceeds SIMH extended limit 0x0FFFFFFF"
    );
}

#[test]
fn writer_rejects_oversize_payload_without_writing() {
    let mut writer = SimhTapeWriter::new(vec![9, 9]);
    let data = vec![0u8; MAX_RECORD_LENGTH as usize + 1];
    let err = writer.write_record(&data).unwrap_err();
    assert_eq!(err.kind(), TapeErrorKind::InvalidInput);
    assert_eq!(
        err.to_string(),
        "record length 0x01200001 exceeds safety ceiling 0x01200000"
    );
    let err = writer.write_record_with_class(16, &[1]).unwrap_err();
    assert_eq!(err.kind(), TapeErrorKind::InvalidInput);
    assert_eq!(writer.into_inner(), vec![9, 9]);
}

#[test]
fn writer_emits_markers() {
    let mut writer = SimhTapeWriter::new(Vec::new());
    writer.write_end_of_medium().unwrap();
    writer.write_erase_gap_markers(2).unwrap();
    writer.write_private_marker(0x123).unwrap();
    writer.write_bad_record(&[7]).unwrap();
    assert!(writer.write_private_marker(0x1000_0000).is_err());
    let expected = vec![
        0xFF, 0xFF, 0xFF, 0xFF, 0xFE, 0xFF, 0xFF, 0xFF, 0xFE, 0xFF, 0xFF, 0xFF, 0x23, 0x01, 0x00,
        0x70, 0x01, 0x00, 0x00, 0x80, 0x07, 0x00, 0x01, 0x00, 0x00, 0x80,
    ];
    assert_eq!(writer.into_inner(), expected);
}

#[test]
fn encoded_size_has_parity_pad() {
    for len in [1usize, 2, 3, 4, 79, 80, 513] {
        let mut writer = SimhTapeWriter::new(Vec::new());
        let data = vec![0x55u8; len];
        writer.write_record(&data).unwrap();
        assert_eq!(writer.into_inner().len(), 8 + len + len % 2);
    }
}

#[test]
fn round_trip_yields_record_then_end_of_stream() {
    for len in [1usize, 2, 5, 64, 1023] {
        let payload: Vec<u8> = (0..len).map(|i| (i * 7 + 3) as u8).collect();
        let mut writer = SimhTapeWriter::new(Vec::new());
        writer.write_record(&payload).unwrap();
        let image = writer.into_inner();
        let mut reader = SimhTapeReader::new(&image);
        match reader.next_block().unwrap() {
            SimhTapeBlock::Record(record) => {
                assert_eq!(record.data, payload);
                assert_eq!(record.header.length as usize, len);
                assert_eq!(record.header.trailing_length, Some(len as u32));
                assert_eq!(record.header.offset, 0);
                assert_eq!(record.header.class, 0);
            }
            other => panic!("expected record, got {:?}", other),
        }
        assert!(matches!(reader.next_block().unwrap(), SimhTapeBlock::EndOfStream));
        assert!(matches!(reader.next_block().unwrap(), SimhTapeBlock::EndOfStream));
    }
}

#[test]
fn empty_record_of_class_zero_reads_as_two_tape_marks() {
    let mut writer = SimhTapeWriter::new(Vec::new());
    writer.write_record(&[]).unwrap();
    let image = writer.into_inner();
    assert_eq!(image, vec![0u8; 8]);
    let mut reader = SimhTapeReader::new(&image);
    assert!(matches!(
        reader.next_block().unwrap(),
        SimhTapeBlock::TapeMark { offset: 0, kind: SimhTapeMark::Single }
    ));
    assert!(matches!(
        reader.next_block().unwrap(),
        SimhTapeBlock::TapeMark { offset: 4, kind: SimhTapeMark::Double }
    ));
}

#[test]
fn single_mark_keeps_following_record() {
    let mut tape = Vec::new();
    tape.extend_from_slice(&TAPE_MARK_WORD.to_le_bytes());
    emit_record(&mut tape, 0, b"AB");
    let mut reader = SimhTapeReader::new(&tape);
    assert!(matches!(
        reader.next_block().unwrap(),
        SimhTapeBlock::TapeMark { offset: 0, kind: SimhTapeMark::Single }
    ));
    match reader.next_block().unwrap() {
        SimhTapeBlock::Record(record) => {
            assert_eq!(record.header.offset, 4);
            assert_eq!(record.data, b"AB".to_vec());
        }
        other => panic!("expected record, got {:?}", other),
    }
}

#[test]
fn safety_ceiling_applies_to_custom_limit() {
    let mut tape = Vec::new();
    emit_record(&mut tape, 0, &[1, 2, 3, 4, 5]);
    let mut reader = SimhTapeReader::new(&tape).with_limit(4);
    let err = reader.next_block().unwrap_err();
    assert_eq!(err.kind(), TapeErrorKind::InvalidData);
    assert_eq!(
        err.to_string(),
        "record length 0x00000005 exceeds SIMH safety ceiling (0x00000004)"
    );
    let mut reader = SimhTapeReader::new(&tape).with_limit(5);
    assert!(matches!(reader.next_block().unwrap(), SimhTapeBlock::Record(_)));
    let mut reader = SimhTapeReader::new(&tape).with_limit(0xFFFF_FFFF);
    assert!(matches!(reader.next_block().unwrap(), SimhTapeBlock::Record(_)));
}

#[test]
fn truncated_images_are_unexpected_eof() {
    let mut reader = SimhTapeReader::new(&[0x03, 0x00]);
    let err = reader.next_block().unwrap_err();
    assert_eq!(err.kind(), TapeErrorKind::UnexpectedEof);
    assert_eq!(err.to_string(), "truncated SIMH word");

    let mut reader = SimhTapeReader::new(&[0x03, 0x00, 0x00, 0x00, 1, 2]);
    let err = reader.next_block().unwrap_err();
    assert_eq!(err.kind(), TapeErrorKind::UnexpectedEof);
    assert_eq!(err.to_string(), "failed to fill whole buffer");

    let mut reader = SimhTapeReader::new(&[0x03, 0x00, 0x00, 0x00, 1, 2, 3, 0]);
    let err = reader.next_block().unwrap_err();
    assert_eq!(err.kind(), TapeErrorKind::UnexpectedEof);
    assert_eq!(err.to_string(), "missing trailing record length");

    let mut reader = SimhTapeReader::new(&[0x03, 0x00, 0x00, 0x00, 1, 2, 3, 0, 3, 0]);
    let err = reader.next_block().unwrap_err();
    assert_eq!(err.kind(), TapeErrorKind::UnexpectedEof);
    assert_eq!(err.to_string(), "truncated SIMH word");
}

#[test]
fn trailing_word_must_match_leading_word() {
    let tape = [0x02, 0x00, 0x00, 0x00, 1, 2, 0x03, 0x00, 0x00, 0x00];
    let mut reader = SimhTapeReader::new(&tape);
    let err = reader.next_block().unwrap_err();
    assert_eq!(err.kind(), TapeErrorKind::InvalidData);
    assert_eq!(
        err.to_string(),
        "trailing length 0x00000003 does not match leading length 0x00000002"
    );
}

#[test]
fn sentinel_words_decode_as_markers() {
    let mut tape = Vec::new();
    tape.extend_from_slice(&0xFFFF_0000u32.to_le_bytes());
    tape.extend_from_slice(&0xFFFF_FFFDu32.to_le_bytes());
    tape.extend_from_slice(&0x7000_0123u32.to_le_bytes());
    tape.extend_from_slice(&0xF000_0001u32.to_le_bytes());
    tape.extend_from_slice(&0xFFFE_0000u32.to_le_bytes());
    let mut reader = SimhTapeReader::new(&tape);
    assert!(matches!(
        reader.next_block().unwrap(),
        SimhTapeBlock::TapeMark { offset: 0, kind: SimhTapeMark::HalfGapReverse }
    ));
    assert!(matches!(
        reader.next_block().unwrap(),
        SimhTapeBlock::TapeMark { offset: 4, kind: SimhTapeMark::HalfGapReverse }
    ));
    assert!(matches!(
        reader.next_block().unwrap(),
        SimhTapeBlock::TapeMark { offset: 8, kind: SimhTapeMark::Private { class: 7, value: 0x123 } }
    ));
    assert!(matches!(
        reader.next_block().unwrap(),
        SimhTapeBlock::TapeMark { offset: 12, kind: SimhTapeMark::Reserved { class: 15, value: 1 } }
    ));
    let err = reader.next_block().unwrap_err();
    assert_eq!(err.kind(), TapeErrorKind::InvalidData);
    assert_eq!(err.to_string(), "illegal forward half-gap marker 0xFFFE0000");
}
