use kcounter::decimal::{push_decimal, push_numeral};
use kcounter::message::{Message, MESSAGE_CAPACITY};

fn numeral_of(n: u32) -> Vec<u8> {
    let mut out = Vec::new();
    push_numeral(&mut out, n);
    out
}

fn decimal_of(n: i32) -> Vec<u8> {
    let mut out = Vec::new();
    push_decimal(&mut out, n);
    out
}

#[test]
fn numeral_of_zero_is_one_digit() {
    assert_eq!(numeral_of(0), b"0".to_vec());
}

#[test]
fn numeral_of_single_digits() {
    assert_eq!(numeral_of(1), b"1".to_vec());
    assert_eq!(numeral_of(9), b"9".to_vec());
}

#[test]
fn numeral_crosses_powers_of_ten() {
    assert_eq!(numeral_of(10), b"10".to_vec());
    assert_eq!(numeral_of(99), b"99".to_vec());
    assert_eq!(numeral_of(100), b"100".to_vec());
    assert_eq!(numeral_of(1_000_000_000), b"1000000000".to_vec());
}

#[test]
fn numeral_of_largest_u32() {
    assert_eq!(numeral_of(u32::MAX), b"4294967295".to_vec());
}

#[test]
fn numeral_agrees_with_std_formatting() {
    let samples: [u32; 8] = [0, 5, 10, 42, 1909, 65_536, 2_147_483_647, 4_000_000_001];
    for n in samples {
        assert_eq!(numeral_of(n), format!("{}", n).into_bytes());
    }
}

#[test]
fn numeral_is_appended_behind_what_is_there() {
    let mut out = b"n=".to_vec();
    push_numeral(&mut out, 305);
    assert_eq!(out, b"n=305".to_vec());
}

#[test]
fn decimal_of_negative_has_minus_sign() {
    assert_eq!(decimal_of(-1), b"-1".to_vec());
    assert_eq!(decimal_of(-120), b"-120".to_vec());
}

#[test]
fn decimal_of_extremes() {
    assert_eq!(decimal_of(i32::MAX), b"2147483647".to_vec());
    assert_eq!(decimal_of(i32::MIN), b"-2147483648".to_vec());
    assert_eq!(decimal_of(0), b"0".to_vec());
}

#[test]
fn decimal_agrees_with_std_formatting() {
    let samples: [i32; 7] = [0, -1, 1, -99, 100, i32::MIN, i32::MAX];
    for n in samples {
        assert_eq!(decimal_of(n), format!("{}", n).into_bytes());
    }
}

#[test]
fn message_for_one() {
    let message = Message::render(1, Vec::new());
    assert_eq!(
        message.as_bytes_with_nul(),
        b"I already told you 1 times Hello world!\n\0"
    );
    assert_eq!(message.len(), 41);
}

#[test]
fn message_for_larger_counts() {
    let message = Message::render(12, Vec::new());
    assert_eq!(
        message.as_bytes_with_nul(),
        b"I already told you 12 times Hello world!\n\0"
    );
    let message = Message::render(i32::MAX, Vec::new());
    assert_eq!(
        message.as_bytes_with_nul(),
        b"I already told you 2147483647 times Hello world!\n\0"
    );
}

#[test]
fn message_ends_in_its_only_zero_byte() {
    for n in [1, 10, 999, i32::MAX, i32::MIN] {
        let message = Message::render(n, Vec::new());
        let bytes = message.as_bytes_with_nul();
        assert_eq!(bytes[bytes.len() - 1], 0);
        assert!(bytes[..bytes.len() - 1].iter().all(|b| *b != 0));
    }
}

#[test]
fn message_never_exceeds_capacity() {
    assert_eq!(MESSAGE_CAPACITY, 51);
    assert_eq!(Message::render(i32::MIN, Vec::new()).len(), MESSAGE_CAPACITY);
    assert_eq!(Message::render(i32::MAX, Vec::new()).len(), 50);
    assert_eq!(Message::render(0, Vec::new()).len(), 41);
}

#[test]
fn render_discards_what_the_storage_held() {
    let message = Message::render(3, b"left over".to_vec());
    assert_eq!(
        message.as_bytes_with_nul(),
        b"I already told you 3 times Hello world!\n\0"
    );
}
