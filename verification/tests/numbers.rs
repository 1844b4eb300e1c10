use f06::numbers::parse_decimal;
use f06::numbers::parse_natural;
use f06::numbers::Decimal;

#[test]
fn natural_reads_digits() {
    assert_eq!(parse_natural(b"7"), Some(7));
    assert_eq!(parse_natural(b"0012"), Some(12));
    assert_eq!(parse_natural(b""), None);
    assert_eq!(parse_natural(b"-5"), None);
    assert_eq!(parse_natural(b"1.0"), None);
    assert_eq!(parse_natural(b"99999999999999999999999999"), None);
}

#[test]
fn decimal_reads_plain_and_exponent_forms() {
    assert_eq!(parse_decimal(b"0.1"), Some(Decimal { negative: false, mantissa: 1, exponent: -1 }));
    assert_eq!(
        parse_decimal(b"-1.234567E+02"),
        Some(Decimal { negative: true, mantissa: 1234567, exponent: -4 })
    );
    assert_eq!(parse_decimal(b"5.E-3"), Some(Decimal { negative: false, mantissa: 5, exponent: -3 }));
    assert_eq!(parse_decimal(b".5"), Some(Decimal { negative: false, mantissa: 5, exponent: -1 }));
    assert_eq!(parse_decimal(b"2D3"), Some(Decimal { negative: false, mantissa: 2, exponent: 3 }));
    assert_eq!(parse_decimal(b"7"), None);
    assert_eq!(parse_decimal(b"."), None);
    assert_eq!(parse_decimal(b"1.0E"), None);
    assert_eq!(parse_decimal(b"1.0E+"), None);
    assert_eq!(parse_decimal(b"1.0x"), None);
    assert_eq!(parse_decimal(b"ELAS1"), None);
    assert_eq!(parse_decimal(b"123456789012345678901234567890.0"), None);
}

fn value(d: Decimal) -> f64 {
    let sign = if d.negative { "-" } else { "" };
    format!("{}{}e{}", sign, d.mantissa, d.exponent).parse::<f64>().unwrap()
}

#[test]
fn decimal_denotes_the_number_that_was_written() {
    for text in ["0.1", "-2.345678E+02", "1.E+00", "+7.5e-3", "0.0", "-0.0", "12.5D+01", "1e10"] {
        let d = parse_decimal(text.as_bytes()).unwrap();
        let plain = text.replace('D', "E");
        assert_eq!(value(d), plain.parse::<f64>().unwrap(), "{}", text);
    }
}

#[test]
fn decimal_keeps_what_fits_and_refuses_what_does_not() {
    assert_eq!(
        parse_decimal(b"18446744073709551615."),
        Some(Decimal { negative: false, mantissa: u64::MAX, exponent: 0 })
    );
    assert_eq!(parse_decimal(b"18446744073709551616."), None);
    assert_eq!(parse_decimal(b"1.8446744073709551616"), None);
    assert_eq!(
        parse_decimal(b"1.E4294967295"),
        Some(Decimal { negative: false, mantissa: 1, exponent: 4294967295 })
    );
    assert_eq!(parse_decimal(b"1.E4294967296"), None);
    assert_eq!(
        parse_decimal(b"1.5E-4294967295"),
        Some(Decimal { negative: false, mantissa: 15, exponent: -4294967296 })
    );
    assert_eq!(
        parse_decimal(b"0000000000000000000000001.5"),
        Some(Decimal { negative: false, mantissa: 15, exponent: -1 })
    );
}

#[test]
fn decimal_wants_the_whole_field() {
    assert_eq!(parse_decimal(b""), None);
    assert_eq!(parse_decimal(b"-"), None);
    assert_eq!(parse_decimal(b"-."), None);
    assert_eq!(parse_decimal(b"E5"), None);
    assert_eq!(parse_decimal(b".E5"), None);
    assert_eq!(parse_decimal(b"1.0E5x"), None);
    assert_eq!(parse_decimal(b"1.0.0"), None);
    assert_eq!(parse_decimal(b"--1.0"), None);
    assert_eq!(parse_decimal(b"1.0E--5"), None);
    assert_eq!(parse_decimal(b"1.0-5"), None);
    assert_eq!(parse_decimal(b"1,0"), None);
    assert_eq!(parse_decimal(b"-5"), None);
    assert_eq!(parse_decimal(b"inf"), None);
    assert_eq!(parse_decimal(b"NaN"), None);
}

#[test]
fn natural_keeps_what_fits_the_word() {
    let max = usize::MAX.to_string();
    assert_eq!(parse_natural(max.as_bytes()), Some(usize::MAX));
    let over = format!("{}0", max);
    assert_eq!(parse_natural(over.as_bytes()), None);
    assert_eq!(parse_natural(b"18446744073709551616"), None);
    assert_eq!(parse_natural(b"0"), Some(0));
    assert_eq!(parse_natural(b"12a"), None);
    assert_eq!(parse_natural(b" 12"), None);
}
