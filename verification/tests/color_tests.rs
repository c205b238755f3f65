use colorfmt::color::{bg_palette, fg_palette, Color, DisplayOptions};

#[test]
fn nearest_palette_index_of_black_is_16() {
    let c = Color { r: 0, g: 0, b: 0 };
    assert_eq!(c.nearest_ansi_color_code(), 16);
}

#[test]
fn nearest_palette_index_of_white_is_231() {
    let c = Color { r: 255, g: 255, b: 255 };
    assert_eq!(c.nearest_ansi_color_code(), 231);
}

#[test]
fn nearest_palette_index_stays_in_cube_over_byte_range() {
    // a coarse sweep across the full byte range of every channel
    for r in (0..=255u16).step_by(17) {
        for g in (0..=255u16).step_by(17) {
            for b in (0..=255u16).step_by(17) {
                let c = Color { r: r as u8, g: g as u8, b: b as u8 };
                let code = c.nearest_ansi_color_code();
                assert!((16..=231).contains(&code));
            }
        }
    }
}

#[test]
fn nearest_palette_index_mid_value() {
    let c = Color { r: 128, g: 64, b: 200 };
    // levels 4, 2 and 5: 16 + 36*4 + 6*2 + 5
    assert_eq!(c.nearest_ansi_color_code(), 177);
}

#[test]
fn display_hex_is_uppercase_six_digits() {
    let c = Color { r: 255, g: 0, b: 16 };
    assert_eq!(c.display_hex(), "FF0010");
    let c = Color { r: 1, g: 171, b: 205 };
    assert_eq!(c.display_hex(), "01ABCD");
}

#[test]
fn truecolor_escapes() {
    let c = Color { r: 1, g: 22, b: 133 };
    assert_eq!(c.fg(), "\x1b[38;2;1;22;133m");
    assert_eq!(c.bg(), "\x1b[48;2;1;22;133m");
}

#[test]
fn palette_escapes() {
    assert_eq!(bg_palette(16), "\x1b[48;5;16m");
    assert_eq!(fg_palette(250), "\x1b[38;5;250m");
}

#[test]
fn render_rgb_cell() {
    let c = Color { r: 0, g: 0, b: 0 };
    let expected = format!("\x1b[48;2;0;0;0m\x1b[38;2;255;255;255m{:^9}\x1b[m", "000000");
    assert_eq!(c.render(DisplayOptions::Rgb, 255, 0), expected);
}

#[test]
fn render_ansi_cell() {
    let c = Color { r: 0, g: 0, b: 0 };
    let expected = format!(
        "\x1b[48;5;16m\x1b[38;2;255;255;255m{:^9}\x1b[m",
        format!("{:^6}", 16)
    );
    assert_eq!(c.render(DisplayOptions::Ansi, 255, 0), expected);
}

#[test]
fn render_lum_cell() {
    let c = Color { r: 10, g: 20, b: 30 };
    let expected = format!(
        "\x1b[48;2;10;20;30m\x1b[38;2;250;250;250m{:^9}\x1b[m",
        format!("{:>3}%", 7)
    );
    assert_eq!(c.render(DisplayOptions::Lum, 250, 7), expected);
}

#[test]
fn render_blank_cell() {
    let c = Color { r: 200, g: 100, b: 50 };
    let expected = format!("\x1b[48;2;200;100;50m\x1b[38;2;3;3;3m{:^9}\x1b[m", "");
    assert_eq!(c.render(DisplayOptions::Blank, 3, 56), expected);
}
