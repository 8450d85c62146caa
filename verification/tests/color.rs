use sniffnet::gui::styles::color::Color;

#[test]
fn six_digits_give_an_opaque_color() {
    assert_eq!(Color::from_hex(b"#1c315e"), Some(Color { r: 0x1c, g: 0x31, b: 0x5e, a: 255 }));
    assert_eq!(Color::from_hex(b"#000000"), Some(Color { r: 0, g: 0, b: 0, a: 255 }));
    assert_eq!(Color::from_hex(b"#ffffff"), Some(Color { r: 255, g: 255, b: 255, a: 255 }));
}

#[test]
fn eight_digits_give_the_alpha_channel() {
    assert_eq!(Color::from_hex(b"#1c315e80"), Some(Color { r: 0x1c, g: 0x31, b: 0x5e, a: 0x80 }));
    assert_eq!(Color::from_hex(b"#01020300"), Some(Color { r: 1, g: 2, b: 3, a: 0 }));
}

#[test]
fn digits_may_be_of_either_case() {
    assert_eq!(Color::from_hex(b"#AbCdEf"), Some(Color { r: 0xab, g: 0xcd, b: 0xef, a: 255 }));
    assert_eq!(Color::from_hex(b"#ABCDEF09"), Some(Color { r: 0xab, g: 0xcd, b: 0xef, a: 9 }));
}

#[test]
fn other_texts_are_no_color() {
    assert_eq!(Color::from_hex(b""), None);
    assert_eq!(Color::from_hex(b"#"), None);
    assert_eq!(Color::from_hex(b"#fff"), None);
    assert_eq!(Color::from_hex(b"#fffff"), None);
    assert_eq!(Color::from_hex(b"#fffffff"), None);
    assert_eq!(Color::from_hex(b"#fffffffff"), None);
    assert_eq!(Color::from_hex(b"1c315e"), None);
    assert_eq!(Color::from_hex(b"01c315e"), None);
    assert_eq!(Color::from_hex(b"#1c315g"), None);
    assert_eq!(Color::from_hex(b"#1c315e8z"), None);
    assert_eq!(Color::from_hex(b"#1c 15e"), None);
    assert_eq!(Color::from_hex(b"#1c315/"), None);
    assert_eq!(Color::from_hex(b"#1c315:"), None);
    assert_eq!(Color::from_hex(b"#1c315@"), None);
    assert_eq!(Color::from_hex(b"#1c315G"), None);
    assert_eq!(Color::from_hex(b"#1c315`"), None);
}

#[test]
fn from_rgb_splits_the_channels() {
    assert_eq!(Color::from_rgb(0x1c315e), Color { r: 0x1c, g: 0x31, b: 0x5e, a: 255 });
    assert_eq!(Color::from_rgb(0), Color { r: 0, g: 0, b: 0, a: 255 });
    assert_eq!(Color::from_rgb(0xffffff), Color { r: 255, g: 255, b: 255, a: 255 });
    assert_eq!(Color::from_rgb(0xab123456), Color { r: 0x12, g: 0x34, b: 0x56, a: 255 });
}
