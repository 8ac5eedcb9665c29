use batteryctl::decimal::{parse_decimal, parse_u64, parse_u8};

#[test]
fn plain_numbers() {
    assert_eq!(parse_u8("0"), Some(0));
    assert_eq!(parse_u8("7"), Some(7));
    assert_eq!(parse_u8("42"), Some(42));
    assert_eq!(parse_u8("255"), Some(255));
    assert_eq!(parse_u64("180000"), Some(180000));
    assert_eq!(parse_u64("18446744073709551615"), Some(u64::MAX));
}

#[test]
fn a_plus_and_leading_zeros_are_read() {
    assert_eq!(parse_u8("+5"), Some(5));
    assert_eq!(parse_u8("007"), Some(7));
    assert_eq!(parse_u8("+000255"), Some(255));
    assert_eq!(parse_u64("+0"), Some(0));
}

#[test]
fn what_is_no_number() {
    for text in ["", "+", "-", "-1", "++1", "+-1", " 1", "1 ", "1\n", "1_0", "0x10", "1.5", "a", "٣", "１"] {
        assert_eq!(parse_u8(text), None, "{:?}", text);
        assert_eq!(parse_u64(text), None, "{:?}", text);
    }
}

#[test]
fn too_large_numbers() {
    assert_eq!(parse_u8("256"), None);
    assert_eq!(parse_u8("1000"), None);
    assert_eq!(parse_u8("0256"), None);
    assert_eq!(parse_u64("18446744073709551616"), None);
    assert_eq!(parse_u64("99999999999999999999"), None);
    assert_eq!(parse_u64("184467440737095516150"), None);
    assert_eq!(parse_decimal("100", 100), Some(100));
    assert_eq!(parse_decimal("101", 100), None);
    assert_eq!(parse_decimal("0", 0), Some(0));
    assert_eq!(parse_decimal("1", 0), None);
}

#[test]
fn reads_what_the_standard_library_reads() {
    let pieces = ["", "+", "-", "0", "1", "9", "25", "5", "6", "00", " ", "a", "é"];
    for a in pieces.iter() {
        for b in pieces.iter() {
            for c in pieces.iter() {
                let text = format!("{}{}{}", a, b, c);
                assert_eq!(parse_u8(&text), text.parse::<u8>().ok(), "{:?}", text);
                assert_eq!(parse_u64(&text), text.parse::<u64>().ok(), "{:?}", text);
            }
        }
    }
    for n in 0u64..1000 {
        let text = format!("{}", n);
        assert_eq!(parse_u8(&text), text.parse::<u8>().ok());
        assert_eq!(parse_u64(&text), Some(n));
    }
    for n in [u64::MAX, u64::MAX - 1, u64::MAX / 10, u64::MAX / 10 + 1, 1 << 32, 1 << 63] {
        let text = format!("{}", n);
        assert_eq!(parse_u64(&text), Some(n));
        let longer = format!("{}0", n);
        assert_eq!(parse_u64(&longer), longer.parse::<u64>().ok());
        let longer = format!("{}9", n);
        assert_eq!(parse_u64(&longer), longer.parse::<u64>().ok());
    }
}
