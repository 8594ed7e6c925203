use agri_backend::text::{format_centi, u32_to_string};

#[test]
fn decimal_rendering_of_integers() {
    assert_eq!(u32_to_string(0), "0");
    assert_eq!(u32_to_string(7), "7");
    assert_eq!(u32_to_string(10), "10");
    assert_eq!(u32_to_string(12345), "12345");
    assert_eq!(u32_to_string(u32::MAX), "4294967295");
}

#[test]
fn centi_rendering_has_two_decimal_places() {
    assert_eq!(format_centi(100), "1.00");
    assert_eq!(format_centi(105), "1.05");
    assert_eq!(format_centi(525), "5.25");
    assert_eq!(format_centi(999), "9.99");
    assert_eq!(format_centi(0), "0.00");
    assert_eq!(format_centi(12345), "123.45");
}
