use rtsimh::bytes::{find_subsequence, is_printable_ascii};
use rtsimh::device::{device_token_candidates, make_input_name, make_output_name, should_emit};
use rtsimh::ingest::format_seconds_with_commas;
use rtsimh::text::{decimal, format_with_commas, hex_upper, trim};

#[test]
fn test_make_output_name() {
    assert_eq!(make_output_name("test"), "test.tap");
    assert_eq!(make_output_name("test.tap"), "test.tap");
}

#[test]
fn test_make_input_name() {
    assert_eq!(make_input_name("-"), None);
    assert_eq!(make_input_name("/dev/rmt0"), Some("/dev/rmt0".to_string()));
    assert_eq!(make_input_name("rmt0"), Some("/dev/rmt0".to_string()));
    assert_eq!(make_input_name("./file"), Some("./file".to_string()));
}

#[test]
fn test_device_token_candidates() {
    assert!(device_token_candidates(&None).is_empty());
    assert_eq!(
        device_token_candidates(&Some("/dev/nst0".to_string())),
        vec!["nst0".to_string(), "st0".to_string()]
    );
    assert_eq!(
        device_token_candidates(&Some("/dev/st1".to_string())),
        vec!["st1".to_string()]
    );
    assert!(device_token_candidates(&Some("/dev/".to_string())).is_empty());
}

#[test]
fn output_names_of_odd_shapes() {
    assert_eq!(make_output_name(""), ".tap");
    assert_eq!(make_output_name(".tap"), ".tap");
    assert_eq!(make_output_name("tap"), "tap.tap");
    assert_eq!(make_output_name("a.TAP"), "a.TAP.tap");
    assert_eq!(make_input_name(""), Some("/dev/".to_string()));
    assert_eq!(make_input_name("--"), Some("/dev/--".to_string()));
}

#[test]
fn device_tokens_are_lower_case_names() {
    assert_eq!(
        device_token_candidates(&Some("/dev/NST0///".to_string())),
        vec!["nst0".to_string(), "st0".to_string()]
    );
    assert_eq!(device_token_candidates(&Some("n".to_string())), vec!["n".to_string()]);
    assert!(device_token_candidates(&Some("/dev".to_string())).is_empty());
    assert!(device_token_candidates(&Some("///".to_string())).is_empty());
    assert!(device_token_candidates(&Some("".to_string())).is_empty());
    assert!(device_token_candidates(&Some("/dev/..".to_string())).is_empty());
}

#[test]
fn kernel_lines_are_shown_when_they_name_a_token() {
    let tokens = vec!["nst0".to_string(), "st0".to_string()];
    assert!(should_emit("anything", &[]));
    assert!(should_emit("[ 12.3] ST0: Sense Key", &tokens));
    assert!(should_emit("kernel: nst0 ready", &tokens));
    assert!(!should_emit("kernel: sda ready", &tokens));
    assert!(!should_emit("", &tokens));
    assert!(should_emit("", &["".to_string()]));
}

#[test]
fn numbers_are_grouped_in_thousands() {
    assert_eq!(format_with_commas(0), "0");
    assert_eq!(format_with_commas(7), "7");
    assert_eq!(format_with_commas(999), "999");
    assert_eq!(format_with_commas(1000), "1,000");
    assert_eq!(format_with_commas(12345), "12,345");
    assert_eq!(format_with_commas(123456), "123,456");
    assert_eq!(format_with_commas(1234567), "1,234,567");
    assert_eq!(
        format_with_commas(u64::MAX as u128),
        "18,446,744,073,709,551,615"
    );
    assert_eq!(format_seconds_with_commas(0), "0");
    assert_eq!(format_seconds_with_commas(1001), "1,001");
    assert_eq!(format_seconds_with_commas(86_400_000), "86,400,000");
}

#[test]
fn numbers_are_written_in_decimal_and_hexadecimal() {
    assert_eq!(decimal(0), "0");
    assert_eq!(decimal(60012), "60012");
    assert_eq!(decimal(u128::MAX), u128::MAX.to_string());
    assert_eq!(hex_upper(0, 1), "0");
    assert_eq!(hex_upper(0, 8), "00000000");
    assert_eq!(hex_upper(0xE, 1), "E");
    assert_eq!(hex_upper(0x01200001, 8), "01200001");
    assert_eq!(hex_upper(0xABCDEF, 4), "ABCDEF");
    assert_eq!(hex_upper(0x1_0000_0000, 8), "100000000");
    assert_eq!(hex_upper(u64::MAX, 0), "FFFFFFFFFFFFFFFF");
}

#[test]
fn trimming_removes_unicode_white_space() {
    assert_eq!(trim("  a b  "), "a b");
    assert_eq!(trim("\u{a0}\u{2003}x\u{3000}\n"), "x");
    assert_eq!(trim("\t\r\n"), "");
    assert_eq!(trim(""), "");
    assert_eq!(trim("\u{200b}x"), "\u{200b}x");
    for text in ["  lead", "trail \u{85}", "\u{1680}mid dle\u{2028}", "\u{feff}bom"] {
        assert_eq!(trim(text), text.trim());
    }
}

#[test]
fn subsequences_are_found_at_their_first_place() {
    assert_eq!(find_subsequence(b"xxBACKUP/yyBACKUP/", b"BACKUP/"), Some(2));
    assert_eq!(find_subsequence(b"BACKUP", b"BACKUP/"), None);
    assert_eq!(find_subsequence(b"", b"a"), None);
    assert_eq!(find_subsequence(b"aab", b"ab"), Some(1));
    assert!(is_printable_ascii(b'\t'));
    assert!(is_printable_ascii(b' '));
    assert!(is_printable_ascii(b'~'));
    assert!(!is_printable_ascii(0x7f));
    assert!(!is_printable_ascii(0x0b));
    assert!(!is_printable_ascii(0x80));
}
