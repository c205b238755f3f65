use colorfmt::grid::{
    basic_palette_block, greyscale_block, hue_label, legend_line, range,
};

#[test]
fn range_keeps_three_interior_points() {
    // resolution 5 with one point truncated at each end: the three interior
    // samples, evenly spaced as 1/4, 2/4 and 3/4 of the axis
    assert_eq!(range(5, 1, 1), vec![1, 2, 3]);
}

#[test]
fn range_of_resolution_one_is_empty() {
    assert_eq!(range(1, 1, 1), Vec::<u8>::new());
}

#[test]
fn range_without_truncation_keeps_every_point() {
    assert_eq!(range(17, 0, 1), (0..16).collect::<Vec<u8>>());
    assert_eq!(range(4, 0, 0), vec![0, 1, 2, 3]);
}

#[test]
fn range_is_empty_when_truncation_swallows_it() {
    assert_eq!(range(0, 0, 0), Vec::<u8>::new());
    assert_eq!(range(2, 1, 1), Vec::<u8>::new());
    assert_eq!(range(5, 7, 0), Vec::<u8>::new());
    assert_eq!(range(5, 0, 7), Vec::<u8>::new());
}

#[test]
fn legend_line_matches_column_layout() {
    let values = vec![25u8, 50, 75];
    let saturations = vec![75u8, 50, 25];
    let mut expected = String::new();
    for p in &values {
        expected += &format!(" {:>3}% v  ", p);
    }
    expected += " val/sat ";
    for p in &saturations {
        expected += &format!(" {:>3}% s  ", p);
    }
    expected.push('\n');
    assert_eq!(legend_line(&values, &saturations), expected);
}

#[test]
fn legend_line_of_empty_axes() {
    assert_eq!(legend_line(&Vec::new(), &Vec::new()), " val/sat \n");
}

#[test]
fn hue_label_shows_degrees() {
    assert_eq!(hue_label(0), " hue: 0");
    assert_eq!(hue_label(90), " hue: 90");
    assert_eq!(hue_label(338), " hue: 338");
}

#[test]
fn basic_palette_block_matches_reference_layout() {
    let mut expected = String::new();
    for i in 0..16 {
        if i % 8 == 0 {
            expected.push('\n');
        }
        let foreground = if i == 0 { "\x1b[38;5;250m" } else { "\x1b[38;2;0;0;0m" };
        expected += &format!("\x1b[48;5;{i}m{foreground}{i:^9}\x1b[m");
    }
    expected.push('\n');
    assert_eq!(basic_palette_block(), expected);
}

#[test]
fn greyscale_block_matches_reference_layout() {
    let mut expected = String::new();
    for i in 232..255 {
        if (i - 232) % 8 == 0 {
            expected.push('\n');
        }
        let foreground = if i <= 237 { "\x1b[38;5;250m" } else { "\x1b[38;2;0;0;0m" };
        expected += &format!("\x1b[48;5;{i}m{foreground}{i:^9}\x1b[m");
    }
    expected.push('\n');
    assert_eq!(greyscale_block(), expected);
}
