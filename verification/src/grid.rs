//! The sampling grid and the fixed parts of the swatch display: the index
//! sequence behind the evenly spaced hue/saturation/value samples, the
//! legend line, and the two reference blocks of the 256-colour palette.

use vstd::prelude::*;
use vstd::string::*;
use crate::text::{
    dec_chars, pad_left, centered, reset_chars, append_dec, append_pad_left, append_centered,
    append_reset,
};
use crate::color::{
    Color, fg_chars, bg_palette_chars, fg_palette_chars, bg_palette, fg_palette,
};

verus! {

/// `a - b`, stopping at zero.
pub open spec fn sat_sub(a: nat, b: nat) -> nat {
    if b <= a {
        (a - b) as nat
    } else {
        0
    }
}

/// The sample indices of a grid axis: the integers from `truncate_head` up
/// to (but not including) `resolution - truncate_tail`. Sample `i` stands
/// for the fraction `i / (resolution - 1)` of the axis, so truncating one
/// point at each end keeps exactly the interior points.
pub open spec fn range_indices(resolution: nat, truncate_head: nat, truncate_tail: nat) -> Seq<u8> {
    let upper = sat_sub(resolution, truncate_tail);
    Seq::new(sat_sub(upper, truncate_head), |k: int| (truncate_head + k) as u8)
}

/// The sample indices of one axis of the grid. The sequence is empty
/// exactly when the requested resolution minus the truncated head and tail
/// counts is nothing or less.
pub fn range(resolution: u8, truncate_head: u8, truncate_tail: u8) -> (samples: Vec<u8>)
    ensures
        samples@ == range_indices(resolution as nat, truncate_head as nat, truncate_tail as nat),
        samples@.len() == 0 <==> resolution as int - truncate_head as int - truncate_tail as int
            <= 0,
{
    let upper = if truncate_tail <= resolution { resolution - truncate_tail } else { 0 };
    let mut samples: Vec<u8> = Vec::new();
    let mut i: u8 = truncate_head;
    proof {
        assert(samples@ =~= range_indices(resolution as nat, truncate_head as nat,
            truncate_tail as nat).take(0));
    }
    while i < upper
        invariant
            truncate_head <= i,
            i <= upper || i == truncate_head,
            upper as nat == sat_sub(resolution as nat, truncate_tail as nat),
            samples@ == range_indices(resolution as nat, truncate_head as nat,
                truncate_tail as nat).take(i as int - truncate_head as int),
        decreases upper - i,
    {
        samples.push(i);
        i = i + 1;
        proof {
            assert(samples@ =~= range_indices(resolution as nat, truncate_head as nat,
                truncate_tail as nat).take(i as int - truncate_head as int));
        }
    }
    proof {
        let whole = range_indices(resolution as nat, truncate_head as nat, truncate_tail as nat);
        assert(whole.take(whole.len() as int) =~= whole);
        assert(samples@ =~= whole);
    }
    samples
}

/// One legend column header: the percentage right-aligned to three
/// characters between a leading space and `% <tag>  `.
pub open spec fn legend_cell_chars(percent: nat, tag: char) -> Seq<char> {
    seq![' '] + pad_left(dec_chars(percent), 3) + seq!['%', ' ', tag, ' ', ' ']
}

/// The legend column headers of one axis, in sample order.
pub open spec fn legend_cells_chars(percents: Seq<u8>, tag: char) -> Seq<char>
    decreases percents.len(),
{
    if percents.len() == 0 {
        Seq::empty()
    } else {
        legend_cells_chars(percents.drop_last(), tag) + legend_cell_chars(
            percents.last() as nat, tag)
    }
}

/// The whole legend line: value columns, the fixed centre marker over the
/// pure-colour column, saturation columns, and the line break.
pub open spec fn legend_line_chars(value_percents: Seq<u8>, saturation_percents: Seq<u8>) -> Seq<char> {
    legend_cells_chars(value_percents, 'v') + seq![' ', 'v', 'a', 'l', '/', 's', 'a', 't', ' ']
        + legend_cells_chars(saturation_percents, 's') + seq!['\n']
}

/// Appends the legend column headers of one axis; `tag` is the character
/// printed after the percent sign (`v` or `s`).
fn append_legend_cells(s: &mut String, percents: &Vec<u8>, tag_str: &str, tag: char)
    requires
        tag_str@ == seq!['%', ' ', tag, ' ', ' '],
    ensures
        final(s)@ == old(s)@ + legend_cells_chars(percents@, tag),
{
    proof {
        assert(s@ =~= old(s)@ + legend_cells_chars(percents@.take(0), tag));
    }
    let mut i: usize = 0;
    while i < percents.len()
        invariant
            i <= percents.len(),
            tag_str@ == seq!['%', ' ', tag, ' ', ' '],
            s@ == old(s)@ + legend_cells_chars(percents@.take(i as int), tag),
        decreases percents.len() - i,
    {
        s.append(" ");
        let mut digits = String::new();
        append_dec(&mut digits, percents[i] as u16);
        append_pad_left(s, digits.as_str(), 3);
        s.append(tag_str);
        i = i + 1;
        proof {
            reveal_strlit(" ");
            assert(percents@.take(i as int).drop_last() =~= percents@.take(i as int - 1));
            assert(percents@.take(i as int).last() == percents@[i as int - 1]);
            assert(s@ =~= old(s)@ + legend_cells_chars(percents@.take(i as int), tag));
        }
    }
    proof {
        assert(percents@.take(percents@.len() as int) =~= percents@);
    }
}

/// The legend line above the grid: one percentage header per value sample,
/// the `val/sat` marker over the pure-colour column, one header per
/// saturation sample, and a line break. The caller rounds each sample to a
/// whole percent.
pub fn legend_line(value_percents: &Vec<u8>, saturation_percents: &Vec<u8>) -> (s: String)
    ensures
        s@ == legend_line_chars(value_percents@, saturation_percents@),
{
    let mut s = String::new();
    proof {
        reveal_strlit("% v  ");
        reveal_strlit("% s  ");
        assert("% v  "@ =~= seq!['%', ' ', 'v', ' ', ' ']);
        assert("% s  "@ =~= seq!['%', ' ', 's', ' ', ' ']);
    }
    append_legend_cells(&mut s, value_percents, "% v  ", 'v');
    s.append(" val/sat ");
    proof {
        reveal_strlit(" val/sat ");
    }
    append_legend_cells(&mut s, saturation_percents, "% s  ", 's');
    s.append("\n");
    proof {
        reveal_strlit("\n");
        assert(s@ =~= legend_line_chars(value_percents@, saturation_percents@));
    }
    s
}

/// The trailer after one hue row when the legend is shown: ` hue: ` and the
/// hue in whole degrees.
pub open spec fn hue_label_chars(degrees: nat) -> Seq<char> {
    seq![' ', 'h', 'u', 'e', ':', ' '] + dec_chars(degrees)
}

/// The row trailer ` hue: N` with the hue rounded to whole degrees by the
/// caller.
pub fn hue_label(degrees: u16) -> (s: String)
    ensures
        s@ == hue_label_chars(degrees as nat),
{
    let mut s = String::new();
    s.append(" hue: ");
    append_dec(&mut s, degrees);
    proof {
        reveal_strlit(" hue: ");
        assert(s@ =~= hue_label_chars(degrees as nat));
    }
    s
}

/// One reference cell: the palette entry as background, a light-grey or
/// near-black text colour, the index centred in a 9-character field, and a
/// reset.
pub open spec fn reference_cell_chars(index: nat, grey_text: bool) -> Seq<char> {
    let fg = if grey_text {
        fg_palette_chars(250)
    } else {
        fg_chars(Color { r: 0, g: 0, b: 0 })
    };
    bg_palette_chars(index) + fg + centered(dec_chars(index), 9) + reset_chars()
}

/// The first `n` cells of the 16 basic palette entries, a line break before
/// each row of eight; only the black cell (index 0) gets grey text.
pub open spec fn basic_palette_chars(n: nat) -> Seq<char>
    decreases n,
{
    if n == 0 {
        Seq::empty()
    } else {
        let i = (n - 1) as nat;
        basic_palette_chars(i) + (if i % 8 == 0 {
            seq!['\n']
        } else {
            Seq::empty()
        }) + reference_cell_chars(i, i == 0)
    }
}

/// The first `n` cells of the greyscale ramp, indices 232 and up, a line
/// break before each row of eight; the darkest cells (up to index 237) get
/// grey text.
pub open spec fn greyscale_chars(n: nat) -> Seq<char>
    decreases n,
{
    if n == 0 {
        Seq::empty()
    } else {
        let k = (n - 1) as nat;
        greyscale_chars(k) + (if k % 8 == 0 {
            seq!['\n']
        } else {
            Seq::empty()
        }) + reference_cell_chars(232 + k, 232 + k <= 237)
    }
}

/// Appends one reference cell for a palette index.
fn append_reference_cell(s: &mut String, index: u8, grey_text: bool)
    ensures
        final(s)@ == old(s)@ + reference_cell_chars(index as nat, grey_text),
{
    let bg = bg_palette(index);
    s.append(bg.as_str());
    let fg = if grey_text {
        fg_palette(250)
    } else {
        let black = Color { r: 0, g: 0, b: 0 };
        black.fg()
    };
    s.append(fg.as_str());
    let mut label = String::new();
    append_dec(&mut label, index as u16);
    append_centered(s, label.as_str(), 9);
    append_reset(s);
    proof {
        assert(s@ =~= old(s)@ + reference_cell_chars(index as nat, grey_text));
    }
}

/// The reference block of the 16 basic palette entries, two rows of eight,
/// each row led by a line break and the whole block closed by one.
pub fn basic_palette_block() -> (s: String)
    ensures
        s@ == basic_palette_chars(16) + seq!['\n'],
{
    let mut s = String::new();
    let mut i: u8 = 0;
    while i < 16
        invariant
            i <= 16,
            s@ == basic_palette_chars(i as nat),
        decreases 16 - i,
    {
        if i % 8 == 0 {
            s.append("\n");
        }
        append_reference_cell(&mut s, i, i == 0);
        i = i + 1;
        proof {
            reveal_strlit("\n");
            assert(s@ =~= basic_palette_chars(i as nat));
        }
    }
    s.append("\n");
    proof {
        reveal_strlit("\n");
        assert(s@ =~= basic_palette_chars(16) + seq!['\n']);
    }
    s
}

/// The reference block of the greyscale ramp, indices 232 to 254, in rows
/// of eight, each row led by a line break and the whole block closed by one.
pub fn greyscale_block() -> (s: String)
    ensures
        s@ == greyscale_chars(23) + seq!['\n'],
{
    let mut s = String::new();
    let mut k: u8 = 0;
    while k < 23
        invariant
            k <= 23,
            s@ == greyscale_chars(k as nat),
        decreases 23 - k,
    {
        if k % 8 == 0 {
            s.append("\n");
        }
        append_reference_cell(&mut s, 232 + k, 232 + k <= 237);
        k = k + 1;
        proof {
            reveal_strlit("\n");
            assert(s@ =~= greyscale_chars(k as nat));
        }
    }
    s.append("\n");
    proof {
        reveal_strlit("\n");
        assert(s@ =~= greyscale_chars(23) + seq!['\n']);
    }
    s
}

} // verus!
