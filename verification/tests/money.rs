use solana_token_viewer::money::UsdAmount;
use solana_token_viewer::text::{decimal_string, is_decimal_str};

#[test]
fn decimal_string_of_small_and_large_numbers() {
    assert_eq!(decimal_string(0), "0");
    assert_eq!(decimal_string(7), "7");
    assert_eq!(decimal_string(10), "10");
    assert_eq!(decimal_string(1234567890), "1234567890");
    assert_eq!(decimal_string(u64::MAX), "18446744073709551615");
}

#[test]
fn decimal_string_agrees_with_std() {
    let mut n: u64 = 1;
    for _ in 0..64 {
        assert_eq!(decimal_string(n), n.to_string());
        assert_eq!(decimal_string(n - 1), (n - 1).to_string());
        n = n.wrapping_mul(3).wrapping_add(11);
    }
}

#[test]
fn is_decimal_str_accepts_digits_only() {
    assert!(is_decimal_str("0"));
    assert!(is_decimal_str("42"));
    assert!(is_decimal_str("0042"));
    assert!(is_decimal_str("18446744073709551615"));
    assert!(!is_decimal_str(""));
    assert!(!is_decimal_str("-1"));
    assert!(!is_decimal_str("+1"));
    assert!(!is_decimal_str("1.5"));
    assert!(!is_decimal_str("1e3"));
    assert!(!is_decimal_str(" 1"));
    assert!(!is_decimal_str("12a"));
    assert!(!is_decimal_str("١٢"));
}

#[test]
fn amount_text_has_two_decimals() {
    assert_eq!(UsdAmount::zero().to_text(), "0.00");
    assert_eq!(UsdAmount::from_hundredths(5).to_text(), "0.05");
    assert_eq!(UsdAmount::from_hundredths(50).to_text(), "0.50");
    assert_eq!(UsdAmount::from_hundredths(250).to_text(), "2.50");
    assert_eq!(UsdAmount::from_hundredths(100000).to_text(), "1000.00");
    assert_eq!(UsdAmount::from_hundredths(30000).to_text(), "300.00");
    assert_eq!(UsdAmount::from_hundredths(u64::MAX).to_text(), "184467440737095516.15");
}

#[test]
fn amount_is_read_from_text_with_two_decimals() {
    assert_eq!(UsdAmount::from_decimal_text("2.50"), Some(UsdAmount::from_hundredths(250)));
    assert_eq!(UsdAmount::from_decimal_text("0.00"), Some(UsdAmount::zero()));
    assert_eq!(UsdAmount::from_decimal_text("0.07"), Some(UsdAmount::from_hundredths(7)));
    assert_eq!(UsdAmount::from_decimal_text("1000.00"), Some(UsdAmount::from_hundredths(100000)));
    assert_eq!(UsdAmount::from_decimal_text("007.10"), Some(UsdAmount::from_hundredths(710)));
    assert_eq!(
        UsdAmount::from_decimal_text("184467440737095516.15"),
        Some(UsdAmount::from_hundredths(u64::MAX))
    );
}

#[test]
fn amount_is_not_read_from_other_text() {
    assert_eq!(UsdAmount::from_decimal_text(""), None);
    assert_eq!(UsdAmount::from_decimal_text("2"), None);
    assert_eq!(UsdAmount::from_decimal_text("2.5"), None);
    assert_eq!(UsdAmount::from_decimal_text("2.500"), None);
    assert_eq!(UsdAmount::from_decimal_text(".50"), None);
    assert_eq!(UsdAmount::from_decimal_text("-2.50"), None);
    assert_eq!(UsdAmount::from_decimal_text("2,50"), None);
    assert_eq!(UsdAmount::from_decimal_text("2.5a"), None);
    assert_eq!(UsdAmount::from_decimal_text("a.50"), None);
    assert_eq!(UsdAmount::from_decimal_text("NaN"), None);
    assert_eq!(UsdAmount::from_decimal_text("inf"), None);
    assert_eq!(UsdAmount::from_decimal_text("١.٢٣"), None);
}

#[test]
fn amount_too_large_is_not_read() {
    assert_eq!(UsdAmount::from_decimal_text("184467440737095516.16"), None);
    assert_eq!(UsdAmount::from_decimal_text("184467440737095517.00"), None);
    assert_eq!(UsdAmount::from_decimal_text("99999999999999999999999999999999.99"), None);
}

#[test]
fn amount_text_round_trips() {
    let mut h: u64 = 0;
    for _ in 0..200 {
        let amount = UsdAmount::from_hundredths(h);
        assert_eq!(UsdAmount::from_decimal_text(&amount.to_text()), Some(amount));
        h = h.wrapping_mul(6364136223846793005).wrapping_add(1442695040888963407);
    }
}

#[test]
fn amount_text_agrees_with_two_decimal_rendering() {
    let shown: [(f64, u64); 6] =
        [(2.50, 250), (1000.0, 100000), (300.0, 30000), (0.0, 0), (0.004, 0), (19.999, 2000)];
    for (value, hundredths) in shown {
        let text = format!("{:.2}", value);
        let amount = UsdAmount::from_decimal_text(&text);
        assert_eq!(amount, Some(UsdAmount::from_hundredths(hundredths)));
        assert_eq!(amount.unwrap().to_text(), text);
    }
}
