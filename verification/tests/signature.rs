use rtsimh::signature::{RecordSignature, SignatureDetector};

fn tags(signatures: &[RecordSignature]) -> Vec<String> {
    signatures.iter().map(|sig| sig.tag.clone()).collect()
}

#[test]
fn detects_gzip_magic() {
    let detector = SignatureDetector::default();
    let data = b"\x1f\x8brest";
    let signatures = detector.detect(data, 10);
    assert!(signatures.iter().any(|sig| sig.tag == "gzip"));
}

#[test]
fn detects_tar_header() {
    let detector = SignatureDetector::default();
    let mut block = vec![0u8; 512];
    block[257..263].copy_from_slice(b"ustar\0");
    let signatures = detector.detect(&block, 512);
    assert!(signatures.iter().any(|sig| sig.tag == "tar-ustar"));
}

#[test]
fn detects_plain_text_with_line_endings() {
    let detector = SignatureDetector::default();
    let data = b"First line of text\nSecond line of text\nThird line of text\n";
    let signatures = detector.detect(data, data.len() as u32);
    assert!(signatures
        .iter()
        .any(|sig| sig.tag == "ascii-text" && sig.description.contains("Unix")));
}

#[test]
fn block_size_hint_only_when_no_magic() {
    let detector = SignatureDetector::default();
    let data = vec![0u8; 100];
    let signatures = detector.detect(&data, 2048);
    assert!(signatures.iter().any(|sig| sig.tag == "rsx-block"));
}

#[test]
fn detects_unix_compress_format() {
    let detector = SignatureDetector::default();
    let mut data = vec![0u8; 64];
    data[0] = 0x1f;
    data[1] = 0x9d;
    let signatures = detector.detect(&data, data.len() as u32);
    assert!(signatures.iter().any(|sig| sig.tag == "compress-z"));
}

#[test]
fn detects_lha_archive_header() {
    let detector = SignatureDetector::default();
    let mut data = vec![0u8; 16];
    data[2..7].copy_from_slice(b"-lh5-");
    let signatures = detector.detect(&data, data.len() as u32);
    assert!(signatures.iter().any(|sig| sig.tag == "lha"));
}

#[test]
fn detects_arc_header() {
    let detector = SignatureDetector::default();
    let mut data = vec![0u8; 32];
    data[0] = 0x1a;
    data[1] = 0x05;
    let signatures = detector.detect(&data, data.len() as u32);
    assert!(signatures.iter().any(|sig| sig.tag == "arc"));
}

#[test]
fn detects_zoo_header() {
    let detector = SignatureDetector::default();
    let mut data = vec![0u8; 32];
    data[0..4].copy_from_slice(b"ZOO ");
    let signatures = detector.detect(&data, data.len() as u32);
    assert!(signatures.iter().any(|sig| sig.tag == "zoo"));
}

#[test]
fn detects_arj_header() {
    let detector = SignatureDetector::default();
    let mut data = vec![0u8; 16];
    data[0] = 0x60;
    data[1] = 0xea;
    let signatures = detector.detect(&data, data.len() as u32);
    assert!(signatures.iter().any(|sig| sig.tag == "arj"));
}

#[test]
fn detects_cabinet_file() {
    let detector = SignatureDetector::default();
    let mut data = vec![0u8; 32];
    data[0..4].copy_from_slice(b"MSCF");
    let signatures = detector.detect(&data, data.len() as u32);
    assert!(signatures.iter().any(|sig| sig.tag == "cab"));
}

#[test]
fn detects_szdd_file() {
    let detector = SignatureDetector::default();
    let mut data = vec![0u8; 32];
    data[0..4].copy_from_slice(b"SZDD");
    let signatures = detector.detect(&data, data.len() as u32);
    assert!(signatures.iter().any(|sig| sig.tag == "szdd"));
}

#[test]
fn block_size_hint_is_the_only_signature_of_zeros() {
    let detector = SignatureDetector::default();
    let signatures = detector.detect(&[0u8; 64], 2048);
    assert_eq!(tags(&signatures), vec!["rsx-block"]);
    let hint = &signatures[0];
    assert_eq!(hint.description, "Block size matches common DEC utilities");
    assert_eq!(hint.platform.as_deref(), Some("DEC operating systems"));
    assert_eq!(hint.format, None);
    assert_eq!(hint.confidence, "low");
    let signatures = detector.detect(&[0u8; 64], 4096);
    assert_eq!(tags(&signatures), vec!["rsx-block"]);
    let signatures = detector.detect(&[0u8; 64], 1024);
    assert!(signatures.is_empty());
}

#[test]
fn magic_suppresses_block_size_hint() {
    let detector = SignatureDetector::default();
    let mut data = vec![0u8; 64];
    data[0] = 0x1f;
    data[1] = 0x8b;
    let signatures = detector.detect(&data, 2048);
    assert_eq!(tags(&signatures), vec!["gzip"]);
    let gzip = &signatures[0];
    assert_eq!(gzip.description, "GZIP compressed file");
    assert_eq!(gzip.format.as_deref(), Some("GZIP"));
    assert_eq!(gzip.platform.as_deref(), Some("Unix/Linux"));
    assert_eq!(gzip.confidence, "high");
    assert_eq!(gzip.details, None);
}

#[test]
fn prefix_table_is_matched_in_order() {
    let detector = SignatureDetector::default();
    let cases: Vec<(&[u8], &str)> = vec![
        (b"BZh9", "bzip2"),
        (b"!<arch>\n", "ar"),
        (b"PK\x03\x04", "zip"),
        (b"Rar!\x1a", "rar"),
        (b"7z\xbc\xaf'\x1c", "7zip"),
        (b"\x7fELF", "elf"),
        (b"\x89PNG", "png"),
        (b"GIF87a", "gif87"),
        (b"GIF89a", "gif89"),
        (b"\xff\xd8\xff\xe0", "jpeg"),
        (b"BMxx", "bmp"),
        (b"%PDF-1.4", "pdf"),
        (b"<!DOCTYPE", "doctype"),
        (b"<html>", "html"),
        (b"<?xml ", "xml"),
        (b"#!/bin/sh", "shebang"),
    ];
    for (data, tag) in cases {
        let signatures = detector.detect(data, data.len() as u32);
        assert_eq!(tags(&signatures), vec![tag.to_string()], "payload {:?}", data);
    }
    let zip = detector.detect(b"PK\x03\x04", 4);
    assert_eq!(zip[0].platform, None);
    assert_eq!(zip[0].format.as_deref(), Some("ZIP"));
    let html = detector.detect(b"<html>", 6);
    assert_eq!(html[0].confidence, "medium");
}

#[test]
fn several_detectors_may_fire_on_one_record() {
    let detector = SignatureDetector::default();
    let signatures = detector.detect(b"\x71\xc7\x00\x00\x00rest", 9);
    assert_eq!(tags(&signatures), vec!["cpio-binary", "afio"]);
    let mut block = vec![0u8; 32];
    block[0] = 0x01;
    block[1] = 0x00;
    let signatures = detector.detect(&block, 32);
    assert_eq!(tags(&signatures), vec!["pdp11-backup"]);
}

#[test]
fn detects_legacy_tar_cpio_and_pdp11() {
    let detector = SignatureDetector::default();
    let mut block = vec![0u8; 512];
    block[0..4].copy_from_slice(b"file");
    block[257..265].copy_from_slice(b"ustar  \0");
    assert_eq!(tags(&detector.detect(&block, 512)), vec!["tar-ustar"]);
    let mut v7 = vec![0u8; 512];
    v7[0..4].copy_from_slice(b"name");
    v7[100..107].copy_from_slice(b"0000644");
    v7[124..135].copy_from_slice(b"00000001234");
    assert_eq!(tags(&detector.detect(&v7, 512)), vec!["tar-legacy"]);
    v7[130] = b'x';
    assert!(detector.detect(&v7, 512).is_empty());
    assert_eq!(tags(&detector.detect(b"070701rest", 10)), vec!["cpio-newc"]);
    assert_eq!(tags(&detector.detect(b"070702rest", 10)), vec!["cpio-newc"]);
    assert_eq!(tags(&detector.detect(b"070707rest", 10)), vec!["cpio-old"]);
    assert_eq!(tags(&detector.detect(b"\xc7\x70", 2)), vec!["cpio-binary"]);
    assert_eq!(tags(&detector.detect(b"\x01\x07", 2)), vec!["pdp11-omagic"]);
    assert_eq!(tags(&detector.detect(b"\x01\x08", 2)), vec!["pdp11-nmagic"]);
    assert_eq!(tags(&detector.detect(b"\x01\x0b", 2)), vec!["pdp11-zmagic"]);
    assert_eq!(tags(&detector.detect(b"\x01\x0c", 2)), vec!["pdp11-qmagic"]);
    let archive = detector.detect(b"\x02\x07", 2);
    assert_eq!(tags(&archive), vec!["pdp11-archive"]);
    assert_eq!(archive[0].format.as_deref(), Some("PDP-11 archive/library"));
    assert_eq!(archive[0].platform.as_deref(), Some("PDP-11"));
}

#[test]
fn detects_vms_backup_save_set() {
    let detector = SignatureDetector::default();
    let mut block = vec![0u8; 1024];
    block[32..38].copy_from_slice(b"BACKUP");
    block[96..104].copy_from_slice(b"SAVE SET");
    let signatures = detector.detect(&block, 1024);
    let found = signatures.iter().find(|sig| sig.tag == "vms-backup").unwrap();
    assert_eq!(found.confidence, "high");
    assert_eq!(found.platform.as_deref(), Some("OpenVMS / VAX/VMS"));
    assert_eq!(found.format.as_deref(), Some("VMS BACKUP save set"));
    assert!(!signatures.iter().any(|sig| sig.tag == "vms-backup-heur"));
}

#[test]
fn vms_backup_words_must_stand_within_their_windows() {
    let detector = SignatureDetector::default();
    let mut block = vec![0xAAu8; 512];
    block[115..121].copy_from_slice(b"BACKUP");
    block[96..104].copy_from_slice(b"SAVE SET");
    assert!(!detector.detect(&block, 512).iter().any(|sig| sig.tag == "vms-backup"));
    let mut block = vec![0xAAu8; 512];
    block[114..120].copy_from_slice(b"BACKUP");
    block[248..256].copy_from_slice(b"SAVE SET");
    assert!(detector.detect(&block, 512).iter().any(|sig| sig.tag == "vms-backup"));
    let mut block = vec![0xAAu8; 512];
    block[114..120].copy_from_slice(b"BACKUP");
    block[249..257].copy_from_slice(b"SAVE SET");
    assert!(!detector.detect(&block, 512).iter().any(|sig| sig.tag == "vms-backup"));
    let mut short = vec![0xAAu8; 511];
    short[32..38].copy_from_slice(b"BACKUP");
    short[96..104].copy_from_slice(b"SAVE SET");
    assert!(!detector.detect(&short, 511).iter().any(|sig| sig.tag == "vms-backup"));
}

#[test]
fn detects_vms_backup_prologue() {
    let detector = SignatureDetector::default();
    let mut block = vec![0xAAu8; 512];
    block[0] = 0x00;
    block[1] = 0x01;
    for b in &mut block[4..12] {
        *b = 0;
    }
    let signatures = detector.detect(&block, 512);
    let found = signatures.iter().find(|sig| sig.tag == "vms-backup-heur").unwrap();
    assert_eq!(found.confidence, "medium");
    assert_eq!(found.details.as_deref(), Some("Matches BACKUP block prologue pattern"));
    block[11] = 1;
    assert!(!detector.detect(&block, 512).iter().any(|sig| sig.tag == "vms-backup-heur"));
}

#[test]
fn detects_bru_dump_and_qic() {
    let detector = SignatureDetector::default();
    let mut block = vec![0xAAu8; 64];
    block[61..64].copy_from_slice(b"BRU");
    let signatures = detector.detect(&block, 64);
    assert_eq!(tags(&signatures), vec!["dec-bru"]);
    assert_eq!(signatures[0].confidence, "low");
    let mut short = vec![0xAAu8; 63];
    short[10..13].copy_from_slice(b"BRU");
    assert!(detector.detect(&short, 63).is_empty());
    let mut late = vec![0xAAu8; 80];
    late[62..65].copy_from_slice(b"BRU");
    assert!(detector.detect(&late, 80).is_empty());

    let mut dump = vec![0xAAu8; 28];
    dump[24..28].copy_from_slice(&60012u32.to_le_bytes());
    let signatures = detector.detect(&dump, 28);
    assert_eq!(tags(&signatures), vec!["unix-dump"]);
    assert_eq!(signatures[0].details.as_deref(), Some("Dump magic number: 60012"));
    dump[24..28].copy_from_slice(&60015u32.to_le_bytes());
    assert!(detector.detect(&dump, 28).is_empty());

    assert_eq!(tags(&detector.detect(b"QIC\0", 4)), vec!["qic"]);
    assert_eq!(tags(&detector.detect(b"\0QIC", 4)), vec!["qic"]);
    let mut qic = vec![0xAAu8; 516];
    qic[512..516].copy_from_slice(b"QF\0\0");
    let signatures = detector.detect(&qic, 516);
    assert_eq!(tags(&signatures), vec!["qic-113"]);
    assert_eq!(signatures[0].platform, None);
}

#[test]
fn detects_backup_products_and_labels() {
    let detector = SignatureDetector::default();
    assert_eq!(tags(&detector.detect(b"TAPE", 4)), vec!["mtf"]);
    let btf = detector.detect(b"BTF\0", 4);
    assert_eq!(tags(&btf), vec!["btf"]);
    assert_eq!(btf[0].platform, None);
    assert_eq!(tags(&detector.detect(b"NWSM", 4)), vec!["novell-sms"]);
    assert_eq!(tags(&detector.detect(b"SIT!", 4)), vec!["stuffit"]);

    let mut label = vec![b' '; 80];
    label[0..4].copy_from_slice(b"HDR1");
    let signatures = detector.detect(&label, 80);
    assert_eq!(tags(&signatures), vec!["ibm-sl"]);
    assert_eq!(signatures[0].description, "IBM Standard Label format (HDR1)");
    label[3] = b'X';
    assert!(!detector.detect(&label, 80).iter().any(|sig| sig.tag == "ibm-sl"));
    let mut short = vec![b' '; 79];
    short[0..4].copy_from_slice(b"VOL1");
    assert!(!detector.detect(&short, 79).iter().any(|sig| sig.tag == "ibm-sl"));
}

#[test]
fn detects_ltfs_and_mxf() {
    let detector = SignatureDetector::default();
    let index = b"<?xml version=\"1.0\"?><LtfsIndex version=\"2.4\">";
    assert_eq!(tags(&detector.detect(index, index.len() as u32)), vec!["xml", "ltfs"]);
    assert_eq!(tags(&detector.detect(b"LTFS label", 10)), vec!["ltfs-label"]);
    let mut far = vec![1u8; 600];
    far[0..5].copy_from_slice(b"<?xml");
    far[504..513].copy_from_slice(b"ltfsindex");
    assert_eq!(tags(&detector.detect(&far, 600)), vec!["xml"]);
    far[503..512].copy_from_slice(b"ltfsindex");
    assert_eq!(tags(&detector.detect(&far, 600)), vec!["xml", "ltfs"]);

    let mut mxf = vec![0u8; 16];
    mxf[0..4].copy_from_slice(b"\x06\x0e\x2b\x34");
    mxf[4..8].copy_from_slice(b"\x02\x05\x01\x01");
    assert_eq!(tags(&detector.detect(&mxf, 16)), vec!["mxf"]);
    mxf[7] = 2;
    assert_eq!(tags(&detector.detect(&mxf, 16)), vec!["mxf-klv"]);
    assert!(detector.detect(&mxf[..15], 15).is_empty());
}

#[test]
fn plain_text_names_its_line_endings() {
    let detector = SignatureDetector::default();
    let dos = b"line one of the text\r\nline two of the text\r\n";
    let mac = b"line one of the text\rline two of the text\r";
    let none = b"a single line of text without an end";
    let description = |data: &[u8]| detector.detect(data, 0)[0].description.clone();
    assert_eq!(description(dos), "Plain text content (DOS/Windows line endings)");
    assert_eq!(description(mac), "Plain text content (classic Mac line endings)");
    assert_eq!(description(none), "Plain text content (mixed line endings)");
    let text = detector.detect(none, 0);
    assert_eq!(text[0].format.as_deref(), Some("Text content"));
    assert_eq!(text[0].confidence, "low");
}

#[test]
fn plain_text_needs_length_and_nine_in_ten_printable() {
    let detector = SignatureDetector::default();
    let short = vec![b'a'; 31];
    assert!(detector.detect(&short, 31).is_empty());
    let mut data = vec![b'a'; 40];
    for b in &mut data[0..4] {
        *b = 0x80;
    }
    assert_eq!(tags(&detector.detect(&data, 40)), vec!["ascii-text"]);
    data[4] = 0x80;
    assert!(detector.detect(&data, 40).is_empty());
}

#[test]
fn signature_lines_read_as_documented() {
    let sig = RecordSignature::new("gzip", "GZIP compressed file");
    assert_eq!(sig.confidence, "medium");
    assert_eq!(sig.summary_detail(), "GZIP compressed file (confidence: medium)");
    assert_eq!(sig.describe_full(), "GZIP compressed file [medium]");
    let sig = sig
        .with_format("GZIP")
        .with_platform("Unix/Linux")
        .with_confidence("high")
        .with_details("deflate");
    assert_eq!(sig.summary_detail(), "GZIP compressed file (confidence: high) - deflate");
    assert_eq!(
        sig.describe_full(),
        "GZIP compressed file [high] -> GZIP / Unix/Linux - deflate"
    );
    let sig = RecordSignature::new("x", "Thing")
        .with_confidence("")
        .with_platform("Somewhere")
        .with_details("");
    assert_eq!(sig.summary_detail(), "Thing");
    assert_eq!(sig.describe_full(), "Thing -> Somewhere");
}
