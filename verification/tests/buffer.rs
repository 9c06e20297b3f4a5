use vga_buffer::{Buffer, ColorCode, ScreenChar, Surface, BUFFER_HEIGHT, BUFFER_WIDTH};
use volatile::Volatile;

fn surface_filled_with(bytes: [u8; 2]) -> &'static mut Surface {
    let surface: Surface = core::array::from_fn(|_| core::array::from_fn(|_| Volatile::new(bytes)));
    Box::leak(Box::new(surface))
}

fn numbered_surface() -> &'static mut Surface {
    let surface: Surface = core::array::from_fn(|row| {
        core::array::from_fn(|col| Volatile::new([row as u8, col as u8]))
    });
    Box::leak(Box::new(surface))
}

#[test]
fn display_is_twenty_five_rows_of_eighty_columns() {
    assert_eq!(BUFFER_HEIGHT, 25);
    assert_eq!(BUFFER_WIDTH, 80);
    assert_eq!(core::mem::size_of::<Surface>(), 25 * 80 * 2);
}

#[test]
fn buffer_shows_what_the_memory_holds() {
    let buffer = Buffer::new(numbered_surface());
    for row in 0..BUFFER_HEIGHT {
        for col in 0..BUFFER_WIDTH {
            let cell = buffer.read(row, col);
            assert_eq!(cell.ascii_character, row as u8);
            assert_eq!(cell.color_code, ColorCode(col as u8));
        }
    }
}

#[test]
fn buffer_read_returns_what_was_written() {
    let mut buffer = Buffer::new(surface_filled_with([0, 0]));
    let cell = ScreenChar { ascii_character: b'x', color_code: ColorCode(0x4f) };
    buffer.write(3, 7, cell);
    assert_eq!(buffer.read(3, 7), cell);
}

#[test]
fn buffer_write_changes_one_cell_only() {
    let mut buffer = Buffer::new(numbered_surface());
    let cell = ScreenChar { ascii_character: 0xaa, color_code: ColorCode(0xbb) };
    buffer.write(12, 40, cell);
    for row in 0..BUFFER_HEIGHT {
        for col in 0..BUFFER_WIDTH {
            let expected = if row == 12 && col == 40 {
                cell
            } else {
                ScreenChar { ascii_character: row as u8, color_code: ColorCode(col as u8) }
            };
            assert_eq!(buffer.read(row, col), expected);
        }
    }
}

#[test]
fn buffer_write_overwrites_an_earlier_write() {
    let mut buffer = Buffer::new(surface_filled_with([b' ', 0]));
    let first = ScreenChar { ascii_character: b'1', color_code: ColorCode(0x01) };
    let second = ScreenChar { ascii_character: b'2', color_code: ColorCode(0x02) };
    buffer.write(0, 0, first);
    buffer.write(0, 0, second);
    assert_eq!(buffer.read(0, 0), second);
}

#[test]
fn buffer_reaches_all_four_corners() {
    let mut buffer = Buffer::new(surface_filled_with([b' ', 0]));
    let corners = [
        (0, 0),
        (0, BUFFER_WIDTH - 1),
        (BUFFER_HEIGHT - 1, 0),
        (BUFFER_HEIGHT - 1, BUFFER_WIDTH - 1),
    ];
    for (index, (row, col)) in corners.iter().enumerate() {
        let cell = ScreenChar { ascii_character: b'a' + index as u8, color_code: ColorCode(7) };
        buffer.write(*row, *col, cell);
    }
    for (index, (row, col)) in corners.iter().enumerate() {
        assert_eq!(buffer.read(*row, *col).ascii_character, b'a' + index as u8);
    }
}
