use orchidemu::display::Rgba;
use orchidemu::display::colors_from_byte;
use orchidemu::display::fourbit_color;

fn rgba(red: u8, green: u8, blue: u8) -> Rgba {
    Rgba { red, green, blue, alpha: 255 }
}

#[test]
fn palette_entries() {
    assert_eq!(fourbit_color(0), rgba(255, 255, 255));
    assert_eq!(fourbit_color(1), rgba(0, 117, 44));
    assert_eq!(fourbit_color(2), rgba(0, 228, 48));
    assert_eq!(fourbit_color(3), rgba(0, 82, 172));
    assert_eq!(fourbit_color(4), rgba(0, 121, 241));
    assert_eq!(fourbit_color(5), rgba(102, 191, 255));
    assert_eq!(fourbit_color(6), rgba(230, 41, 55));
    assert_eq!(fourbit_color(7), rgba(255, 161, 0));
    assert_eq!(fourbit_color(8), rgba(253, 249, 0));
    assert_eq!(fourbit_color(9), rgba(255, 109, 194));
    assert_eq!(fourbit_color(10), rgba(200, 200, 200));
    assert_eq!(fourbit_color(11), rgba(0, 0, 0));
    assert_eq!(fourbit_color(12), rgba(255, 0, 255));
}

#[test]
fn unmapped_palette_indices_are_black() {
    assert_eq!(fourbit_color(13), rgba(0, 0, 0));
    assert_eq!(fourbit_color(14), rgba(0, 0, 0));
    assert_eq!(fourbit_color(15), rgba(0, 0, 0));
    assert_eq!(fourbit_color(255), rgba(0, 0, 0));
}

#[test]
fn color_byte_packs_two_nibbles() {
    // High nibble foreground, low nibble background.
    let (fg, bg) = colors_from_byte(&0x06);
    assert_eq!(fg, rgba(255, 255, 255));
    assert_eq!(bg, rgba(230, 41, 55));
    let (fg, bg) = colors_from_byte(&0x8B);
    assert_eq!(fg, rgba(253, 249, 0));
    assert_eq!(bg, rgba(0, 0, 0));
    let (fg, bg) = colors_from_byte(&0xC0);
    assert_eq!(fg, rgba(255, 0, 255));
    assert_eq!(bg, rgba(255, 255, 255));
}
