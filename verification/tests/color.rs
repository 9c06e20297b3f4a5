use vga_buffer::{Color, ColorCode, ScreenChar};

fn palette() -> [Color; 16] {
    [
        Color::Black,
        Color::Blue,
        Color::Green,
        Color::Cyan,
        Color::Red,
        Color::Magenta,
        Color::Brown,
        Color::LightGray,
        Color::DarkGray,
        Color::LightBlue,
        Color::LightGreen,
        Color::LightCyan,
        Color::LightRed,
        Color::Pink,
        Color::Yellow,
        Color::White,
    ]
}

#[test]
fn color_codes_count_up_from_black() {
    let colors = palette();
    for (index, color) in colors.iter().enumerate() {
        assert_eq!(color.code() as usize, index);
    }
}

#[test]
fn color_codes_of_named_colors() {
    assert_eq!(Color::Black.code(), 0);
    assert_eq!(Color::Blue.code(), 1);
    assert_eq!(Color::LightGray.code(), 7);
    assert_eq!(Color::DarkGray.code(), 8);
    assert_eq!(Color::Pink.code(), 13);
    assert_eq!(Color::Yellow.code(), 14);
    assert_eq!(Color::White.code(), 15);
}

#[test]
fn attribute_byte_is_background_times_sixteen_plus_foreground() {
    for fg in palette() {
        for bg in palette() {
            let expected = bg.code() * 16 + fg.code();
            assert_eq!(ColorCode::new(fg, bg), ColorCode(expected));
            assert_eq!(ColorCode::new(fg, bg).0, (bg.code() << 4) | fg.code());
        }
    }
}

#[test]
fn attribute_byte_keeps_both_nibbles() {
    for fg in palette() {
        for bg in palette() {
            let code = ColorCode::new(fg, bg).0;
            assert_eq!(code >> 4, bg.code());
            assert_eq!(code & 0x0f, fg.code());
        }
    }
}

#[test]
fn yellow_on_black_is_fourteen() {
    assert_eq!(ColorCode::new(Color::Yellow, Color::Black).0, 14);
}

#[test]
fn black_on_yellow_is_two_hundred_twenty_four() {
    assert_eq!(ColorCode::new(Color::Black, Color::Yellow).0, 224);
}

#[test]
fn white_on_white_is_all_ones() {
    assert_eq!(ColorCode::new(Color::White, Color::White).0, 0xff);
}

#[test]
fn black_on_black_is_zero() {
    assert_eq!(ColorCode::new(Color::Black, Color::Black).0, 0);
}

#[test]
fn cyan_on_green_matches_the_bit_pattern() {
    assert_eq!(ColorCode::new(Color::Cyan, Color::Green).0, 0b0010_0011);
}

#[test]
fn colors_compare_by_variant() {
    assert_eq!(Color::Red, Color::Red);
    assert_ne!(Color::Red, Color::LightRed);
    let copy = Color::Brown;
    let other = copy;
    assert_eq!(copy, other);
}

#[test]
fn cell_bytes_are_character_then_attribute() {
    let cell = ScreenChar { ascii_character: b'A', color_code: ColorCode(0x1e) };
    assert_eq!(cell.to_bytes(), [0x41, 0x1e]);
}

#[test]
fn cell_from_bytes_reads_character_then_attribute() {
    let cell = ScreenChar::from_bytes([0x7a, 0xe0]);
    assert_eq!(cell.ascii_character, 0x7a);
    assert_eq!(cell.color_code, ColorCode(0xe0));
}

#[test]
fn cell_bytes_round_trip() {
    for character in [0u8, 0x20, 0x41, 0x7e, 0xfe, 0xff] {
        for attribute in [0u8, 0x0e, 0xe0, 0xff] {
            let cell = ScreenChar { ascii_character: character, color_code: ColorCode(attribute) };
            assert_eq!(ScreenChar::from_bytes(cell.to_bytes()), cell);
            assert_eq!(ScreenChar::from_bytes([character, attribute]).to_bytes(), [
                character,
                attribute,
            ]);
        }
    }
}
