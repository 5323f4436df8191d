use hsdl::clock::get_epoch;
use hsdl::errors::PageError;
use hsdl::text::{parse_u32, str_eq, trim, u64_to_string};

#[test]
fn trim_removes_surrounding_whitespace_only() {
    assert_eq!(trim("  Show - 01 \r\n"), "Show - 01");
    assert_eq!(trim("\t"), "");
    assert_eq!(trim(""), "");
    assert_eq!(trim("a b"), "a b");
    assert_eq!(trim("no-trim"), "no-trim");
}

#[test]
fn parse_u32_accepts_plain_decimals() {
    assert_eq!(parse_u32("0"), Some(0));
    assert_eq!(parse_u32("482"), Some(482));
    assert_eq!(parse_u32("4294967295"), Some(u32::MAX));
}

#[test]
fn parse_u32_rejects_bad_input() {
    assert_eq!(parse_u32(""), None);
    assert_eq!(parse_u32("4294967296"), None);
    assert_eq!(parse_u32("1a2"), None);
    assert_eq!(parse_u32("-1"), None);
    assert_eq!(parse_u32("٤"), None);
}

#[test]
fn u64_renders_exactly() {
    assert_eq!(u64_to_string(0), "0");
    assert_eq!(u64_to_string(10), "10");
    assert_eq!(u64_to_string(1581000000), "1581000000");
    assert_eq!(u64_to_string(u64::MAX), "18446744073709551615");
}

#[test]
fn str_eq_compares_by_characters() {
    assert!(str_eq("DONE", "DONE"));
    assert!(!str_eq("DONE", "DONE "));
    assert!(!str_eq("", "x"));
    assert!(str_eq("", ""));
}

#[test]
fn error_messages_render() {
    assert_eq!(PageError::PageResponseError(404).message(), "Response Error: 404");
    assert_eq!(PageError::IoError(String::from("boom")).message(), "IO Error: boom");
    assert_eq!(
        PageError::ParseError("failed to extract show id").message(),
        "Parsing Failure: failed to extract show id"
    );
    assert_eq!(
        PageError::CommandLineError("unrecognized resolution").message(),
        "Command Line Failure: unrecognized resolution"
    );
}

#[test]
fn epoch_is_available() {
    let a = get_epoch();
    let b = get_epoch();
    assert!(b >= a);
}
