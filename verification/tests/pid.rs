use audiocap_lib::pid::{
    contains_bytes, listing_mentions_pid, parse_pid_record, pid_digits, pid_text,
};
use audiocap_lib::RecorderError;

#[test]
fn pid_text_is_the_decimal_numeral() {
    assert_eq!(pid_text(0), "0");
    assert_eq!(pid_text(7), "7");
    assert_eq!(pid_text(10), "10");
    assert_eq!(pid_text(1024), "1024");
    assert_eq!(pid_text(90210), "90210");
    assert_eq!(pid_text(u32::MAX), "4294967295");
}

#[test]
fn pid_digits_are_the_bytes_of_the_numeral() {
    assert_eq!(pid_digits(0), b"0".to_vec());
    assert_eq!(pid_digits(305), b"305".to_vec());
    assert_eq!(pid_digits(u32::MAX), b"4294967295".to_vec());
    for pid in [1u32, 9, 10, 99, 100, 65535, 1_000_000] {
        assert_eq!(pid_digits(pid), pid_text(pid).into_bytes());
        assert_eq!(pid_text(pid), pid.to_string());
    }
}

#[test]
fn a_record_of_digits_is_read() {
    assert_eq!(parse_pid_record(b"1234"), Ok(1234));
    assert_eq!(parse_pid_record(b"0"), Ok(0));
    assert_eq!(parse_pid_record(b"007"), Ok(7));
    assert_eq!(parse_pid_record(b"4294967295"), Ok(u32::MAX));
    assert_eq!(parse_pid_record(b"0000000000004294967295"), Ok(u32::MAX));
}

#[test]
fn blanks_around_the_number_and_a_plus_sign_are_accepted() {
    assert_eq!(parse_pid_record(b"1234\n"), Ok(1234));
    assert_eq!(parse_pid_record(b"  \t1234\r\n"), Ok(1234));
    assert_eq!(parse_pid_record(b"\x0b\x0c55 "), Ok(55));
    assert_eq!(parse_pid_record(b"+42"), Ok(42));
    assert_eq!(parse_pid_record(b" +42\n"), Ok(42));
}

#[test]
fn anything_else_is_an_invalid_record() {
    let invalid = Err(RecorderError::InvalidPidRecord);
    assert_eq!(parse_pid_record(b""), invalid);
    assert_eq!(parse_pid_record(b"   \n"), invalid);
    assert_eq!(parse_pid_record(b"+"), invalid);
    assert_eq!(parse_pid_record(b"++1"), invalid);
    assert_eq!(parse_pid_record(b"+ 1"), invalid);
    assert_eq!(parse_pid_record(b"-5"), invalid);
    assert_eq!(parse_pid_record(b"abc"), invalid);
    assert_eq!(parse_pid_record(b"12a"), invalid);
    assert_eq!(parse_pid_record(b"1 2"), invalid);
    assert_eq!(parse_pid_record(b"12.0"), invalid);
    assert_eq!(parse_pid_record(b"4294967296"), invalid);
    assert_eq!(parse_pid_record(b"99999999999999999999999999"), invalid);
    assert_eq!(parse_pid_record(b"\xff\xfe"), invalid);
    assert_eq!(parse_pid_record(b"\xc2\xa012"), invalid);
}

#[test]
fn what_is_written_is_read_back() {
    for pid in [0u32, 1, 9, 10, 4242, 65536, 2147483647, 2147483648, u32::MAX] {
        assert_eq!(parse_pid_record(pid_text(pid).as_bytes()), Ok(pid));
        assert_eq!(parse_pid_record(&pid_digits(pid)), Ok(pid));
    }
}

#[test]
fn a_listing_mentions_the_identifiers_it_holds() {
    let listing = b"Image Name   PID Session Name\r\n========= ======\r\nffmpeg.exe  4242 Console\r\n";
    assert!(listing_mentions_pid(listing, 4242));
    assert!(!listing_mentions_pid(listing, 4243));
    assert!(!listing_mentions_pid(listing, 14242));
    let none = b"INFO: No tasks are running which match the specified criteria.\r\n";
    assert!(!listing_mentions_pid(none, 77));
    assert!(!listing_mentions_pid(b"", 0));
    assert!(listing_mentions_pid(b"0", 0));
}

#[test]
fn a_longer_number_counts_as_a_mention_of_its_parts() {
    let listing = b"ffmpeg.exe  31245 Console";
    assert!(listing_mentions_pid(listing, 31245));
    assert!(listing_mentions_pid(listing, 12));
    assert!(listing_mentions_pid(listing, 245));
    assert!(!listing_mentions_pid(listing, 54));
}

#[test]
fn contains_bytes_finds_runs_of_adjacent_bytes() {
    assert!(contains_bytes(b"hello world", b"lo w"));
    assert!(contains_bytes(b"hello world", b"hello world"));
    assert!(contains_bytes(b"hello world", b"d"));
    assert!(contains_bytes(b"hello world", b""));
    assert!(contains_bytes(b"", b""));
    assert!(!contains_bytes(b"", b"a"));
    assert!(!contains_bytes(b"hello", b"hello!"));
    assert!(!contains_bytes(b"abcabd", b"abe"));
    assert!(contains_bytes(b"aaab", b"aab"));
    assert!(!contains_bytes(b"a1b2", b"12"));
}
