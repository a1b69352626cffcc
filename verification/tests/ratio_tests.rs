use tarnished::ratio::Scalable;

#[test]
fn scale_u32() {
    assert_eq!(4u32.scale(1, 2), 2);
}

#[test]
fn scale_i32() {
    assert_eq!(4i32.scale(1, 2), 2);
}

#[test]
fn scale_i32_by_u32_ratio() {
    assert_eq!((-4i32).scale(1, 2), -2);
}

#[test]
fn scale_u8_by_u32_ratio() {
    assert_eq!(232u8.scale(1523, 1546), 228);
}

#[test]
fn scale_u16_by_u32_ratio() {
    assert_eq!(51221u16.scale(7251, 492124), 754);
}

#[test]
fn scale_i8_by_u32_ratio() {
    assert_eq!((-100i8).scale(5, 25), -20);
}

#[test]
fn scale_i16_by_u32_ratio() {
    assert_eq!((-12i16).scale(5, 20), -3);
}
