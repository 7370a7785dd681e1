use vmath::color::rgb8::{ColorRGB8, ColorRGBA8};
use vmath::types::rgb8::RGB8;
use vmath::types::rgba8::RGBA8;

#[test]
fn color_rgb8_construction_and_accessors() {
    let mut c = ColorRGB8::new(10, 20, 30);
    assert_eq!(*c.r(), 10);
    assert_eq!(*c.g(), 20);
    assert_eq!(*c.b(), 30);
    assert_eq!(*c.as_array(), [10, 20, 30]);
    c.set(1, 2, 3);
    assert_eq!(*c.as_array(), [1, 2, 3]);
    c.set_array([4, 5, 6]);
    assert_eq!(c, ColorRGB8::from_array([4, 5, 6]));
}

#[test]
fn color_rgb8_mutable_accessors() {
    let mut c = ColorRGB8::new(0, 0, 0);
    *c.r_mut() = 7;
    *c.g_mut() = 8;
    *c.b_mut() = 9;
    assert_eq!(*c.as_array(), [7, 8, 9]);
    c.as_mut_array()[1] = 80;
    assert_eq!(*c.as_array(), [7, 80, 9]);
}

#[test]
fn color_rgb8_hex_round_trip() {
    let c = ColorRGB8::from_hex("0a141e").unwrap();
    assert_eq!(*c.as_array(), [10, 20, 30]);
    assert_eq!(c.as_hex_string(), "0a141e");
    assert_eq!(ColorRGB8::new(255, 255, 255).as_hex_string(), "ffffff");
}

#[test]
fn color_rgb8_hex_errors() {
    assert_eq!(
        ColorRGB8::from_hex("aabbccdd").unwrap_err(),
        "COLOR RGB8 ERROR: Input hexadecimal should be formatted as such: rrggbb!"
    );
    assert_eq!(
        ColorRGB8::from_hex("abc").unwrap_err(),
        "DECODE HEXADECIMAL ERROR: Input hex string should have even number length!"
    );
    assert_eq!(
        ColorRGB8::from_hex("aabbcq").unwrap_err(),
        "invalid digit found in string"
    );
}

#[test]
fn color_rgba8_construction_and_hex() {
    let mut c = ColorRGBA8::new(1, 2, 3, 4);
    assert_eq!((*c.r(), *c.g(), *c.b(), *c.a()), (1, 2, 3, 4));
    let from_hex = ColorRGBA8::from_hex("010203").unwrap();
    assert_eq!(*from_hex.as_array(), [1, 2, 3, 255]);
    assert_eq!(from_hex.as_hex_string(), "010203");
    assert_eq!(
        ColorRGBA8::from_hex("01020304").unwrap_err(),
        "COLOR RGBA8 ERROR: Input hexadecimal should be formatted as such: rrggbb!"
    );
    *c.a_mut() = 40;
    c.set(9, 8, 7, 6);
    assert_eq!(*c.as_array(), [9, 8, 7, 6]);
    c.set_array([1, 1, 2, 2]);
    assert_eq!(c, ColorRGBA8::from_array([1, 1, 2, 2]));
}

#[test]
fn rgb8_matches_color_rgb8_behaviour() {
    let c = RGB8::from_hex("336699").unwrap();
    assert_eq!(*c.as_array(), [0x33, 0x66, 0x99]);
    assert_eq!(c.as_hex_string(), "336699");
    let rgba = RGBA8::new(5, 6, 7, 8);
    let dropped = RGB8::from_rgba8(rgba);
    assert_eq!(*dropped.as_array(), [5, 6, 7]);
}

#[test]
fn rgb8_named_colors() {
    assert_eq!(*RGB8::new_red().as_array(), [255, 0, 0]);
    assert_eq!(*RGB8::new_green().as_array(), [0, 255, 0]);
    assert_eq!(*RGB8::new_blue().as_array(), [0, 0, 255]);
    assert_eq!(*RGB8::new_cyan().as_array(), [0, 255, 255]);
    assert_eq!(*RGB8::new_magenta().as_array(), [255, 0, 255]);
    assert_eq!(*RGB8::new_yellow().as_array(), [255, 255, 0]);
    assert_eq!(*RGB8::new_black().as_array(), [0, 0, 0]);
    assert_eq!(*RGB8::new_gray().as_array(), [128, 128, 128]);
    assert_eq!(*RGB8::new_white().as_array(), [255, 255, 255]);
}

#[test]
fn rgba8_named_colors_and_clear() {
    assert_eq!(*RGBA8::new_red().as_array(), [255, 0, 0, 255]);
    assert_eq!(*RGBA8::new_clear().as_array(), [0, 0, 0, 0]);
    assert_eq!(*RGBA8::new_white().as_array(), [255, 255, 255, 255]);
    assert_eq!(*RGBA8::new_gray().as_array(), [128, 128, 128, 255]);
}

#[test]
fn rgba8_mutation() {
    let mut c = RGBA8::from_array([0, 0, 0, 0]);
    *c.r_mut() = 1;
    *c.g_mut() = 2;
    *c.b_mut() = 3;
    *c.a_mut() = 4;
    assert_eq!(*c.as_array(), [1, 2, 3, 4]);
    c.as_mut_array()[0] = 100;
    assert_eq!(*c.r(), 100);
}
