//! The swatch colour model on byte triplets: the nearest 256-colour palette
//! index, the uppercase hex label, the truecolor and palette escape
//! sequences, and the rendering of one swatch cell.

use vstd::prelude::*;
use vstd::string::*;
use crate::text::{
    code_start_chars, reset_chars, dec_chars, hex_byte_chars, pad_left, centered,
    digit_str, append_dec, append_pad_left, append_centered, append_reset,
};

verus! {

/// An RGB colour as the byte triplet a terminal escape sequence carries;
/// each channel is the rounded 0-255 form of a normalized component.
#[derive(Debug, Copy, Clone, PartialEq, Eq, Structural)]
pub struct Color {
    pub r: u8,
    pub g: u8,
    pub b: u8,
}

/// What a swatch cell shows inside its coloured field.
#[derive(Debug, Copy, Clone, PartialEq, Eq, Structural)]
pub enum DisplayOptions {
    /// The hex RGB label
    Rgb,
    /// The nearest 256-colour palette index
    Ansi,
    /// The luminosity percentage
    Lum,
    /// Nothing
    Blank,
}

/// One channel's level on the 6-level colour cube: the byte divided by 32,
/// capped at 5.
pub open spec fn cube_level(channel: u8) -> nat {
    if channel / 32 >= 5 {
        5
    } else {
        (channel / 32) as nat
    }
}

/// The nearest index in the 216-colour cube of the 256-colour palette,
/// offset by the 16 basic colours.
pub open spec fn spec_palette_index(c: Color) -> nat {
    16 + 36 * cube_level(c.r) + 6 * cube_level(c.g) + cube_level(c.b)
}

/// The uppercase 6-digit hex label of the byte triplet.
pub open spec fn hex_label_chars(c: Color) -> Seq<char> {
    hex_byte_chars(c.r as nat) + hex_byte_chars(c.g as nat) + hex_byte_chars(c.b as nat)
}

/// A truecolor escape sequence ESC `[<lead>8;2;R;G;Bm`; the lead digit is
/// `3` for a foreground and `4` for a background.
pub open spec fn truecolor_chars(lead: char, c: Color) -> Seq<char> {
    code_start_chars() + seq![lead, '8', ';', '2', ';'] + dec_chars(c.r as nat) + seq![';']
        + dec_chars(c.g as nat) + seq![';'] + dec_chars(c.b as nat) + seq!['m']
}

/// The truecolor foreground escape ESC `[38;2;R;G;Bm`.
pub open spec fn fg_chars(c: Color) -> Seq<char> {
    truecolor_chars('3', c)
}

/// The truecolor background escape ESC `[48;2;R;G;Bm`.
pub open spec fn bg_chars(c: Color) -> Seq<char> {
    truecolor_chars('4', c)
}

/// The 256-colour palette background escape ESC `[48;5;Nm`.
pub open spec fn bg_palette_chars(index: nat) -> Seq<char> {
    code_start_chars() + seq!['4', '8', ';', '5', ';'] + dec_chars(index) + seq!['m']
}

/// The 256-colour palette foreground escape ESC `[38;5;Nm`.
pub open spec fn fg_palette_chars(index: nat) -> Seq<char> {
    code_start_chars() + seq!['3', '8', ';', '5', ';'] + dec_chars(index) + seq!['m']
}

/// What one swatch cell prints: the cell's background (true colour, or the
/// nearest palette entry in palette mode), the grey text foreground, the
/// mode's label centred in a 9-character field, and a reset.
pub open spec fn cell_chars(c: Color, display: DisplayOptions, text_grey: u8, lum_percent: u8) -> Seq<char> {
    let fg = fg_chars(Color { r: text_grey, g: text_grey, b: text_grey });
    match display {
        DisplayOptions::Ansi => bg_palette_chars(spec_palette_index(c)) + fg
            + centered(centered(dec_chars(spec_palette_index(c)), 6), 9) + reset_chars(),
        DisplayOptions::Rgb => bg_chars(c) + fg + centered(hex_label_chars(c), 9)
            + reset_chars(),
        DisplayOptions::Lum => bg_chars(c) + fg
            + centered(pad_left(dec_chars(lum_percent as nat), 3) + seq!['%'], 9)
            + reset_chars(),
        DisplayOptions::Blank => bg_chars(c) + fg + centered(Seq::empty(), 9) + reset_chars(),
    }
}

impl Color {
    /// The nearest 256-colour palette index: each channel quantized to the
    /// 6-level cube, always landing in the cube's range 16-231.
    pub fn nearest_ansi_color_code(&self) -> (code: u8)
        ensures
            code as nat == spec_palette_index(*self),
            16 <= code <= 231,
    {
        let r = if self.r / 32 >= 5 { 5 } else { self.r / 32 };
        let g = if self.g / 32 >= 5 { 5 } else { self.g / 32 };
        let b = if self.b / 32 >= 5 { 5 } else { self.b / 32 };
        16 + 36 * r + 6 * g + b
    }

    /// The uppercase 6-digit hex label of the byte triplet.
    pub fn display_hex(&self) -> (s: String)
        ensures
            s@ == hex_label_chars(*self),
    {
        let mut s = String::new();
        s.append(digit_str(self.r / 16));
        s.append(digit_str(self.r % 16));
        s.append(digit_str(self.g / 16));
        s.append(digit_str(self.g % 16));
        s.append(digit_str(self.b / 16));
        s.append(digit_str(self.b % 16));
        proof {
            assert(s@ =~= hex_label_chars(*self));
        }
        s
    }

    /// The truecolor foreground escape ESC `[38;2;R;G;Bm`.
    pub fn fg(&self) -> (s: String)
        ensures
            s@ == fg_chars(*self),
    {
        let mut s = String::new();
        s.append("\x1b[38;2;");
        append_dec(&mut s, self.r as u16);
        s.append(";");
        append_dec(&mut s, self.g as u16);
        s.append(";");
        append_dec(&mut s, self.b as u16);
        s.append("m");
        proof {
            reveal_strlit("\x1b[38;2;");
            reveal_strlit(";");
            reveal_strlit("m");
            assert(s@ =~= fg_chars(*self));
        }
        s
    }

    /// The truecolor background escape ESC `[48;2;R;G;Bm`.
    pub fn bg(&self) -> (s: String)
        ensures
            s@ == bg_chars(*self),
    {
        let mut s = String::new();
        s.append("\x1b[48;2;");
        append_dec(&mut s, self.r as u16);
        s.append(";");
        append_dec(&mut s, self.g as u16);
        s.append(";");
        append_dec(&mut s, self.b as u16);
        s.append("m");
        proof {
            reveal_strlit("\x1b[48;2;");
            reveal_strlit(";");
            reveal_strlit("m");
            assert(s@ =~= bg_chars(*self));
        }
        s
    }

    /// Renders one swatch cell. The grey level of the label text and the
    /// rounded luminosity percentage are computed by the caller from the
    /// cell's perceptual luminosity; this function fixes everything the
    /// cell prints for each display mode.
    pub fn render(&self, display: DisplayOptions, text_grey: u8, lum_percent: u8) -> (s: String)
        ensures
            s@ == cell_chars(*self, display, text_grey, lum_percent),
    {
        let grey = Color { r: text_grey, g: text_grey, b: text_grey };
        let fg = grey.fg();
        let mut s: String;
        match display {
            DisplayOptions::Ansi => {
                let code = self.nearest_ansi_color_code();
                s = bg_palette(code);
                s.append(fg.as_str());
                let mut label = String::new();
                append_dec(&mut label, code as u16);
                let mut inner = String::new();
                append_centered(&mut inner, label.as_str(), 6);
                append_centered(&mut s, inner.as_str(), 9);
                append_reset(&mut s);
                proof {
                    assert(s@ =~= cell_chars(*self, display, text_grey, lum_percent));
                }
            }
            DisplayOptions::Rgb => {
                s = self.bg();
                s.append(fg.as_str());
                let label = self.display_hex();
                append_centered(&mut s, label.as_str(), 9);
                append_reset(&mut s);
                proof {
                    assert(s@ =~= cell_chars(*self, display, text_grey, lum_percent));
                }
            }
            DisplayOptions::Lum => {
                s = self.bg();
                s.append(fg.as_str());
                let mut digits = String::new();
                append_dec(&mut digits, lum_percent as u16);
                let mut label = String::new();
                append_pad_left(&mut label, digits.as_str(), 3);
                label.append("%");
                append_centered(&mut s, label.as_str(), 9);
                append_reset(&mut s);
                proof {
                    reveal_strlit("%");
                    assert(label@ =~= pad_left(dec_chars(lum_percent as nat), 3) + seq!['%']);
                    assert(s@ =~= cell_chars(*self, display, text_grey, lum_percent));
                }
            }
            DisplayOptions::Blank => {
                s = self.bg();
                s.append(fg.as_str());
                append_centered(&mut s, "", 9);
                append_reset(&mut s);
                proof {
                    reveal_strlit("");
                    assert(""@ =~= Seq::<char>::empty());
                    assert(s@ =~= cell_chars(*self, display, text_grey, lum_percent));
                }
            }
        }
        s
    }
}

/// The 256-colour palette background escape ESC `[48;5;Nm`.
pub fn bg_palette(index: u8) -> (s: String)
    ensures
        s@ == bg_palette_chars(index as nat),
{
    let mut s = String::new();
    s.append("\x1b[48;5;");
    append_dec(&mut s, index as u16);
    s.append("m");
    proof {
        reveal_strlit("\x1b[48;5;");
        reveal_strlit("m");
        assert(s@ =~= bg_palette_chars(index as nat));
    }
    s
}

/// The 256-colour palette foreground escape ESC `[38;5;Nm`.
pub fn fg_palette(index: u8) -> (s: String)
    ensures
        s@ == fg_palette_chars(index as nat),
{
    let mut s = String::new();
    s.append("\x1b[38;5;");
    append_dec(&mut s, index as u16);
    s.append("m");
    proof {
        reveal_strlit("\x1b[38;5;");
        reveal_strlit("m");
        assert(s@ =~= fg_palette_chars(index as nat));
    }
    s
}

} // verus!
