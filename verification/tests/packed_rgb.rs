use vmath::structs::rgb::RGB as StructsRGB;
use vmath::types::rgb::RGB as TypesRGB;

fn pack(r: u8, g: u8, b: u8, a: u8) -> u32 {
    (r as u32) | ((g as u32) << 8) | ((b as u32) << 16) | ((a as u32) << 24)
}

#[test]
fn types_rgb_packs_little_endian() {
    let c = TypesRGB::new_rgba(1, 2, 3, 4);
    assert_eq!((c.r(), c.g(), c.b(), c.a()), (1, 2, 3, 4));
    // new_rgb of this type leaves alpha 0
    let c = TypesRGB::new_rgb(10, 20, 30);
    assert_eq!(c.a(), 0);
    assert_eq!(c.as_rgba_array(), [10, 20, 30, 0]);
    assert_eq!(c.as_rgb_array(), [10, 20, 30]);
    assert_eq!(c.as_rgb_tuple(), (10, 20, 30));
    assert_eq!(c.as_rgba_tuple(), (10, 20, 30, 0));
}

#[test]
fn types_rgb_setters_keep_other_components() {
    let mut c = TypesRGB::new_rgba(1, 2, 3, 4);
    c.set_r(100);
    c.set_g(101);
    c.set_b(102);
    c.set_a(103);
    assert_eq!(c.as_rgba_tuple(), (100, 101, 102, 103));
}

#[test]
fn types_rgb_hex() {
    let c = TypesRGB::from_hex("#abcdef").unwrap();
    assert_eq!(c.as_rgb_array(), [0xab, 0xcd, 0xef]);
    assert_eq!(c.as_hex_rgb(), "#abcdef");
    assert!(TypesRGB::from_hex("#abcde").is_err());
}

#[test]
fn types_rgb_named_colors() {
    assert_eq!(TypesRGB::new_red().as_rgba_tuple(), (255, 0, 0, 255));
    assert_eq!(TypesRGB::new_green().as_rgba_tuple(), (0, 255, 0, 255));
    assert_eq!(TypesRGB::new_blue().as_rgba_tuple(), (0, 0, 255, 255));
    assert_eq!(TypesRGB::new_yellow().as_rgba_tuple(), (255, 255, 0, 255));
    assert_eq!(TypesRGB::new_cyan().as_rgba_tuple(), (0, 255, 255, 255));
    assert_eq!(TypesRGB::new_magenta().as_rgba_tuple(), (255, 0, 255, 255));
    assert_eq!(TypesRGB::new_white().as_rgba_tuple(), (255, 255, 255, 255));
    assert_eq!(TypesRGB::new_black().as_rgba_tuple(), (0, 0, 0, 255));
    assert_eq!(TypesRGB::new_gray().as_rgba_tuple(), (127, 127, 127, 255));
    assert_eq!(TypesRGB::new_grey().as_rgba_tuple(), (127, 127, 127, 255));
    assert_eq!(TypesRGB::new_clear().as_rgba_tuple(), (0, 0, 0, 0));
}

#[test]
fn types_rgb_binary_format_matches_std() {
    let c = TypesRGB::new_rgba(0x12, 0x34, 0x56, 0x78);
    let word = pack(0x12, 0x34, 0x56, 0x78);
    assert_eq!(c.format_as_bytes(), format!("{:#034b}", word));
    let zero = TypesRGB::new_clear();
    assert_eq!(zero.format_as_bytes(), format!("{:#034b}", 0u32));
}

#[test]
fn structs_rgb_alpha_is_opaque() {
    let c = StructsRGB::new_rgb(10, 20, 30);
    assert_eq!((c.r(), c.g(), c.b(), c.a()), (10, 20, 30, 255));
}

#[test]
fn structs_rgb_byte_slice_padding() {
    let c = StructsRGB::from_byte_slice(&[1, 2]);
    assert_eq!((c.r(), c.g(), c.b(), c.a()), (1, 2, 0, 0));
    let c = StructsRGB::from_byte_slice(&[1, 2, 3, 4, 5]);
    assert_eq!((c.r(), c.g(), c.b(), c.a()), (1, 2, 3, 4));
}

#[test]
fn structs_rgb_to_be_matches_std() {
    let c = StructsRGB::new_rgba(0x12, 0x34, 0x56, 0x78);
    let word = pack(0x12, 0x34, 0x56, 0x78);
    assert_eq!(c.to_be(), word.to_be());
}

#[test]
fn structs_rgb_hex_and_clear() {
    let mut c = StructsRGB::from_hex("#010203").unwrap();
    assert_eq!(c.as_bytes_rgba(), [1, 2, 3, 0]);
    assert_eq!(c.as_hex_rgb(), "#010203");
    assert_eq!(c.as_bytes_rgb(), [1, 2, 3]);
    c.clear();
    assert_eq!(c.as_bytes_rgba(), [0, 0, 0, 0]);
}

#[test]
fn structs_rgb_setters() {
    let mut c = StructsRGB::new_clear();
    c.set_r(9);
    c.set_g(8);
    c.set_b(7);
    c.set_a(6);
    assert_eq!((c.r(), c.g(), c.b(), c.a()), (9, 8, 7, 6));
}

#[test]
fn structs_rgb_level_format_matches_float_formatting() {
    // the verified renderer must agree with printing the f32 level to three
    // decimal places, for every byte value
    for byte in 0u16..=255 {
        let b = byte as u8;
        let c = StructsRGB::new_rgba(b, b, b, b);
        let level = (b as f32) / 255.0;
        let expected = format!("RGB: ( {:5.3}, {:5.3}, {:5.3} )", level, level, level);
        assert_eq!(c.format_rgb_f32(), expected);
        let expected = format!(
            "RGBA: ( {:5.3}, {:5.3}, {:5.3}, {:5.3} )",
            level, level, level, level
        );
        assert_eq!(c.format_rgba_f32(), expected);
    }
}

#[test]
fn structs_rgb_binary_format() {
    let c = StructsRGB::new_rgba(0xff, 0, 0, 0);
    assert_eq!(c.format_bytes(), format!("{:#034b}", 0xffu32));
}

#[test]
fn structs_rgb_named_colors() {
    assert_eq!(StructsRGB::new_red().as_bytes_rgba(), [255, 0, 0, 255]);
    assert_eq!(StructsRGB::new_grey().as_bytes_rgba(), [127, 127, 127, 255]);
    assert_eq!(StructsRGB::new_clear().as_bytes_rgba(), [0, 0, 0, 0]);
    assert_eq!(StructsRGB::default(), StructsRGB::new_clear());
}
