use smart_ledger::text::{push_decimal, push_signed_decimal, push_signed_zero_padded, push_zero_padded, same_text};

#[test]
fn decimal_text_as_format_writes_it() {
    for n in [0u64, 1, 9, 10, 11, 99, 100, 101, 1000, 65535, u64::MAX] {
        let mut s = String::from("n=");
        push_decimal(&mut s, n);
        assert_eq!(s, format!("n={}", n));
    }
}

#[test]
fn signed_decimal_text_as_format_writes_it() {
    for n in [0i64, 5, -5, 10, -10, 123456, -123456, i64::MAX, i64::MIN] {
        let mut s = String::new();
        push_signed_decimal(&mut s, n);
        assert_eq!(s, format!("{}", n));
    }
}

#[test]
fn zero_padded_text_as_format_writes_it() {
    for n in [0u64, 3, 42, 999, 1000, 123456] {
        for w in [0usize, 1, 2, 4, 8] {
            let mut s = String::new();
            push_zero_padded(&mut s, n, w);
            assert_eq!(s, format!("{:0w$}", n, w = w));
        }
    }
    for n in [0i64, 7, -7, 42, -42, 2024, -2024, 99999, -99999] {
        for w in [1usize, 2, 4, 6] {
            let mut s = String::new();
            push_signed_zero_padded(&mut s, n, w);
            assert_eq!(s, format!("{:0w$}", n, w = w));
        }
    }
}

#[test]
fn same_text_compares_characters() {
    assert!(same_text("收入", "收入"));
    assert!(!same_text("收入", "支出"));
    assert!(!same_text("abc", "abcd"));
    assert!(same_text("", ""));
}
