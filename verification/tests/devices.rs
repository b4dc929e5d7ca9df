use vga_text::buffer::{Buffer, VGA_TEXT_BUFFER};
use vga_text::cell::Color;
use vga_text::device::Device;
use vga_text::position::Position;

/// A device in which the cell at offset `i` holds `i + 1`.
fn numbered_buffer() -> Buffer {
    let mut buffer = Buffer::new(0x1000);
    for offset in 0..2000usize {
        buffer.store(offset, offset as u16 + 1);
    }
    buffer
}

#[test]
fn hardware_address_is_the_text_buffer() {
    assert_eq!(VGA_TEXT_BUFFER, 0xb8000);
}

#[test]
fn buffer_knows_whether_it_is_the_hardware_region() {
    assert!(Buffer::new_physical_vga_buffer().is_physical_vga_buffer());
    assert!(Buffer::new(0xb8000).is_physical_vga_buffer());
    assert!(!Buffer::new(0xb8002).is_physical_vga_buffer());
    assert!(!Buffer::new(0x1000).is_physical_vga_buffer());
    assert_eq!(Buffer::new(0x1000).address(), 0x1000);
    assert_eq!(Buffer::new_physical_vga_buffer().address(), 0xb8000);
}

#[test]
fn new_buffer_is_blank() {
    let buffer = Buffer::new(0x1000);
    assert_eq!(buffer.cells().len(), 2000);
    assert!(buffer.cells().iter().all(|cell| *cell == 0));
    let hardware = Buffer::new_physical_vga_buffer();
    assert!(hardware.cells().iter().all(|cell| *cell == 0));
}

#[test]
fn buffer_store_changes_one_cell() {
    let mut buffer = Buffer::new(0x1000);
    buffer.store(1999, 0xabcd);
    buffer.store(0, 0x1234);
    assert_eq!(buffer.load(0), 0x1234);
    assert_eq!(buffer.load(1999), 0xabcd);
    for offset in 1..1999usize {
        assert_eq!(buffer.load(offset), 0);
    }
}

#[test]
fn buffer_scroll_by_nothing_changes_nothing() {
    let mut buffer = numbered_buffer();
    buffer.scroll_up(0);
    for offset in 0..2000usize {
        assert_eq!(buffer.load(offset), offset as u16 + 1);
    }
    assert_eq!(buffer.address(), 0x1000);
}

#[test]
fn buffer_scroll_moves_rows_up_and_blanks_the_rest() {
    for lines in 1..25u8 {
        let mut buffer = numbered_buffer();
        buffer.scroll_up(lines);
        let kept = (25 - lines as usize) * 80;
        for offset in 0..kept {
            assert_eq!(
                buffer.load(offset),
                (offset + lines as usize * 80) as u16 + 1
            );
        }
        for offset in kept..2000 {
            assert_eq!(buffer.load(offset), 0);
        }
        assert_eq!(buffer.address(), 0x1000);
    }
}

#[test]
fn buffer_scroll_by_one_row_exact_cells() {
    let mut buffer = numbered_buffer();
    buffer.scroll_up(1);
    assert_eq!(buffer.load(0), 81);
    assert_eq!(buffer.load(79), 160);
    assert_eq!(buffer.load(1919), 2000);
    assert_eq!(buffer.load(1920), 0);
    assert_eq!(buffer.load(1999), 0);
}

#[test]
fn buffer_scroll_by_a_full_screen_or_more_blanks_everything() {
    for lines in [25u8, 26, 100, 231, 255] {
        let mut buffer = numbered_buffer();
        buffer.scroll_up(lines);
        assert!(buffer.cells().iter().all(|cell| *cell == 0));
    }
}

#[test]
fn new_device_is_bright_light_gray_on_black() {
    let device = Device::new(0x1000);
    assert_eq!(device.foreground_color(), Color::LightGray);
    assert_eq!(device.background_color(), Color::Black);
    assert!(device.is_bright());
    assert!(device.cells().iter().all(|cell| *cell == 0));
    assert_eq!(device.address(), 0x1000);
    assert!(!device.is_actual_vga_device());
}

#[test]
fn actual_device_is_the_hardware_one() {
    let device = Device::new_actual_vga_device();
    assert!(device.is_actual_vga_device());
    assert_eq!(device.address(), 0xb8000);
    assert_eq!(device.foreground_color(), Color::LightGray);
    assert_eq!(device.background_color(), Color::Black);
    assert!(device.is_bright());
}

#[test]
fn device_geometry() {
    let device = Device::new(0x1000);
    assert_eq!(device.width(), 80);
    assert_eq!(device.height(), 25);
}

#[test]
fn device_write_byte_paints_one_cell_in_current_colors() {
    let mut device = Device::new(0x1000);
    device.write_byte(b'A', Position::new(2, 3));
    assert_eq!(device.cell_at(Position::new(2, 3)), 0x0f41);
    assert_eq!(device.cells()[163], 0x0f41);
    let painted = device.cells().iter().filter(|cell| **cell != 0).count();
    assert_eq!(painted, 1);
}

#[test]
fn device_write_byte_reaches_the_corners() {
    let mut device = Device::new(0x1000);
    device.write_byte(b'a', Position::new(0, 0));
    device.write_byte(b'z', Position::new(24, 79));
    assert_eq!(device.cells()[0], 0x0f61);
    assert_eq!(device.cells()[1999], 0x0f7a);
}

#[test]
fn device_write_byte_unchecked_paints_like_write_byte() {
    let mut checked = Device::new(0x1000);
    let mut unchecked = Device::new(0x1000);
    checked.write_byte(b'Q', Position::new(7, 11));
    unchecked.write_byte_unchecked(b'Q', Position::new(7, 11));
    assert_eq!(checked.cells(), unchecked.cells());
    assert_eq!(unchecked.cell_at(Position::new(7, 11)), 0x0f51);
}

#[test]
fn color_changes_show_in_later_cells_only() {
    let mut device = Device::new(0x1000);
    device.write_byte(b'x', Position::new(0, 0));
    device.set_foreground_color(Color::Green);
    device.set_background_color(Color::Magenta);
    assert_eq!(device.cell_at(Position::new(0, 0)), 0x0f78);
    device.write_byte(b'y', Position::new(0, 1));
    assert_eq!(device.cell_at(Position::new(0, 0)), 0x0f78);
    assert_eq!(device.cell_at(Position::new(0, 1)), 0x5a79);
    assert_eq!(device.foreground_color(), Color::Green);
    assert_eq!(device.background_color(), Color::Magenta);
}

#[test]
fn toggle_bright_flips_and_flips_back() {
    let mut device = Device::new(0x1000);
    device.toggle_bright();
    assert!(!device.is_bright());
    device.write_byte(b'x', Position::new(0, 0));
    assert_eq!(device.cell_at(Position::new(0, 0)), 0x0778);
    device.toggle_bright();
    assert!(device.is_bright());
    device.write_byte(b'x', Position::new(0, 1));
    assert_eq!(device.cell_at(Position::new(0, 1)), 0x0f78);
    assert_eq!(device.cell_at(Position::new(0, 0)), 0x0778);
}

#[test]
fn device_clear_screen_paints_spaces_in_current_colors() {
    let mut device = Device::new(0x1000);
    device.write_byte(b'x', Position::new(12, 40));
    device.set_background_color(Color::Blue);
    device.set_foreground_color(Color::Brown);
    device.toggle_bright();
    device.clear_screen();
    assert!(device.cells().iter().all(|cell| *cell == 0x1620));
    assert_eq!(device.background_color(), Color::Blue);
    assert_eq!(device.foreground_color(), Color::Brown);
    assert!(!device.is_bright());
}

#[test]
fn device_scroll_fills_with_blank_cells_not_current_colors() {
    let mut device = Device::new(0x1000);
    device.set_background_color(Color::Red);
    device.clear_screen();
    device.write_byte(b'k', Position::new(5, 9));
    device.scroll_up(2);
    assert_eq!(device.cell_at(Position::new(3, 9)), 0x4f6b);
    assert_eq!(device.cell_at(Position::new(5, 9)), 0x4f20);
    for row in 0..23u8 {
        for col in 0..80u8 {
            if (row, col) != (3, 9) {
                assert_eq!(device.cell_at(Position::new(row, col)), 0x4f20);
            }
        }
    }
    for row in 23..25u8 {
        for col in 0..80u8 {
            assert_eq!(device.cell_at(Position::new(row, col)), 0);
        }
    }
    assert_eq!(device.background_color(), Color::Red);
}

#[test]
fn device_scroll_by_nothing_changes_nothing() {
    let mut device = Device::new(0x1000);
    device.clear_screen();
    device.write_byte(b'k', Position::new(24, 79));
    let before = *device.cells();
    device.scroll_up(0);
    assert_eq!(*device.cells(), before);
}
