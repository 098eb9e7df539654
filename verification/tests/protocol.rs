use railroad_runners::protocol::seed_line;

#[test]
fn seed_line_is_decimal_text_plus_newline() {
    assert_eq!(seed_line(42), b"42\n".to_vec());
    assert_eq!(seed_line(7), b"7\n".to_vec());
    assert_eq!(seed_line(1521), b"1521\n".to_vec());
}

#[test]
fn seed_line_handles_zero_and_negatives() {
    assert_eq!(seed_line(0), b"0\n".to_vec());
    assert_eq!(seed_line(-7), b"-7\n".to_vec());
    assert_eq!(seed_line(-1000), b"-1000\n".to_vec());
}

#[test]
fn seed_line_handles_the_extremes() {
    assert_eq!(seed_line(i32::MAX), b"2147483647\n".to_vec());
    assert_eq!(seed_line(i32::MIN), b"-2147483648\n".to_vec());
}
