use juliet::text::append_decimal;

fn decimal(n: u64) -> String {
    let mut text = String::from("n = ");
    append_decimal(&mut text, n);
    text
}

#[test]
fn numbers_are_written_in_decimal() {
    assert_eq!(decimal(0), "n = 0");
    assert_eq!(decimal(9), "n = 9");
    assert_eq!(decimal(10), "n = 10");
    assert_eq!(decimal(1_234_567_890), "n = 1234567890");
    assert_eq!(decimal(u64::MAX), "n = 18446744073709551615");
}
