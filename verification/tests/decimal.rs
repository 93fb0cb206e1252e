use dense_matrix::decimal::{render_signed, render_unsigned};
use dense_matrix::Element;

#[test]
fn unsigned_numbers_in_decimal() {
    assert_eq!(render_unsigned(0), "0");
    assert_eq!(render_unsigned(7), "7");
    assert_eq!(render_unsigned(10), "10");
    assert_eq!(render_unsigned(1234567890), "1234567890");
    assert_eq!(render_unsigned(u128::MAX), u128::MAX.to_string());
}

#[test]
fn signed_numbers_in_decimal() {
    assert_eq!(render_signed(0), "0");
    assert_eq!(render_signed(-1), "-1");
    assert_eq!(render_signed(-120), "-120");
    assert_eq!(render_signed(i128::MAX), i128::MAX.to_string());
    assert_eq!(render_signed(i128::MIN), i128::MIN.to_string());
}

#[test]
fn elements_render_as_std_formats_them() {
    for v in [i32::MIN, -100, -1, 0, 1, 9, 10, 99, 100, 101, i32::MAX] {
        assert_eq!(v.render(), format!("{:?}", v));
        assert_eq!(v.render(), format!("{}", v));
    }
    for v in [0u64, 1, 9, 10, 19, 1000, u64::MAX] {
        assert_eq!(v.render(), format!("{:?}", v));
    }
}

#[test]
fn element_arithmetic_is_exact() {
    assert_eq!(<i32 as Element>::zero(), 0);
    assert_eq!(6i32.plus(-7), -1);
    assert_eq!(6i32.times(-7), -42);
    assert_eq!(<u64 as Element>::zero(), 0);
    assert_eq!(6u64.plus(7), 13);
    assert_eq!(6u64.times(7), 42);
}

#[test]
fn checked_arithmetic_tells_what_fits() {
    assert_eq!(127i8.checked_plus(1), None);
    assert_eq!(126i8.checked_plus(1), Some(127));
    assert_eq!((-128i8).checked_times(-1), None);
    assert_eq!((-64i8).checked_times(2), Some(-128));
    assert_eq!(u16::MAX.checked_plus(1), None);
    assert_eq!(256u16.checked_times(256), None);
    assert_eq!(255u16.checked_times(257), Some(65535));
}
