use vekslosh::text::{lower_hex, push_decimal, same_text};

fn decimal(n: u128) -> String {
    let mut text = String::from("n=");
    push_decimal(&mut text, n);
    text
}

#[test]
fn decimals_have_no_leading_zeros() {
    assert_eq!(decimal(0), "n=0");
    assert_eq!(decimal(7), "n=7");
    assert_eq!(decimal(10), "n=10");
    assert_eq!(decimal(1_000_203), "n=1000203");
    assert_eq!(decimal(u64::MAX as u128), "n=18446744073709551615");
    assert_eq!(decimal(u128::MAX), "n=340282366920938463463374607431768211455");
}

#[test]
fn decimals_read_back() {
    let mut n: u128 = 1;
    for i in 0..120u128 {
        assert_eq!(decimal(n + i)[2..].parse::<u128>(), Ok(n + i));
        n *= 2;
    }
}

#[test]
fn bytes_become_two_digits_each() {
    assert_eq!(lower_hex(&[]), "");
    assert_eq!(lower_hex(&[0x00, 0x0f, 0xa0, 0xff]), "000fa0ff");
    for byte in 0..=255u8 {
        assert_eq!(lower_hex(&[byte]), format!("{:02x}", byte));
    }
}

#[test]
fn texts_are_told_apart() {
    assert!(same_text("sats", "sats"));
    assert!(!same_text("sats", "Sats"));
    assert!(!same_text("sats", "sat"));
    assert!(same_text("", ""));
}
