use stylus_benchmark::decimal::write_decimal;

fn rendered(n: usize) -> Vec<u8> {
    let mut out = Vec::new();
    write_decimal(&mut out, n);
    out
}

#[test]
fn write_decimal_renders_zero_as_one_digit() {
    assert_eq!(rendered(0), b"0".to_vec());
}

#[test]
fn write_decimal_renders_single_digits() {
    assert_eq!(rendered(7), b"7".to_vec());
    assert_eq!(rendered(9), b"9".to_vec());
}

#[test]
fn write_decimal_renders_powers_of_ten() {
    assert_eq!(rendered(10), b"10".to_vec());
    assert_eq!(rendered(100), b"100".to_vec());
    assert_eq!(rendered(400_000_000), b"400000000".to_vec());
}

#[test]
fn write_decimal_renders_the_largest_value() {
    assert_eq!(rendered(usize::MAX), format!("{}", usize::MAX).into_bytes());
}

#[test]
fn write_decimal_agrees_with_std_formatting() {
    for n in [1usize, 12, 99, 101, 1231, 2000, 65_535, 200_000, 12_312_313, 4_294_967_295] {
        assert_eq!(rendered(n), format!("{}", n).into_bytes());
    }
}

#[test]
fn write_decimal_appends_and_keeps_what_was_there() {
    let mut out = b"n = ".to_vec();
    write_decimal(&mut out, 2000);
    assert_eq!(out, b"n = 2000".to_vec());
}

#[test]
fn write_decimal_reads_back_as_the_number() {
    for n in [0usize, 5, 10, 2000, 400_000_000] {
        let text = String::from_utf8(rendered(n)).unwrap();
        assert_eq!(text.parse::<usize>().unwrap(), n);
    }
}
