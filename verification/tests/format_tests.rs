use colorfmt::format::{apply_style, get_color_code_digit, get_format_code};
use colorfmt::format::{Args, Color, FormattingOption, Style};

fn plain_args() -> Args {
    Args {
        text: Vec::new(),
        style: None,
        foreground: None,
        background: None,
        options: Vec::new(),
        reset: false,
        no_reset: false,
        no_newline: false,
    }
}

#[test]
fn format_error_style() {
    let mut args = plain_args();
    args.text = vec!["hello".to_string()];
    args.style = Some(Style::Error);
    assert_eq!(colorfmt::format::format(args), "\x1b[31mhello\x1b[m\n");
}

#[test]
fn format_fg_bg_no_reset_no_newline() {
    let mut args = plain_args();
    args.text = vec!["hi".to_string()];
    args.foreground = Some(Color::Red);
    args.background = Some(Color::Black);
    args.no_reset = true;
    args.no_newline = true;
    assert_eq!(colorfmt::format::format(args), "\x1b[31;40mhi");
}

#[test]
fn format_plain_text_gets_no_codes() {
    let mut args = plain_args();
    args.text = vec!["hi".to_string(), "there".to_string()];
    assert_eq!(colorfmt::format::format(args), "hi there\x1b[m\n");
}

#[test]
fn format_empty_text() {
    let args = plain_args();
    assert_eq!(colorfmt::format::format(args), "\x1b[m\n");
}

#[test]
fn format_joins_tokens_with_single_spaces() {
    let mut args = plain_args();
    args.text = vec!["a".to_string(), "b".to_string(), "c".to_string()];
    args.no_reset = true;
    args.no_newline = true;
    assert_eq!(colorfmt::format::format(args), "a b c");
}

#[test]
fn format_options_in_given_order() {
    let mut args = plain_args();
    args.text = vec!["x".to_string()];
    args.options = vec![
        FormattingOption::Bold,
        FormattingOption::Underline,
        FormattingOption::Strikethrough,
    ];
    assert_eq!(colorfmt::format::format(args), "\x1b[1;4;9mx\x1b[m\n");
}

#[test]
fn format_leading_reset() {
    let mut args = plain_args();
    args.text = vec!["x".to_string()];
    args.foreground = Some(Color::Red);
    args.reset = true;
    assert_eq!(colorfmt::format::format(args), "\x1b[m\x1b[31mx\x1b[m\n");
}

#[test]
fn format_bright_colors() {
    let mut args = plain_args();
    args.text = vec!["x".to_string()];
    args.foreground = Some(Color::BrightWhite);
    args.background = Some(Color::BrightBlack);
    assert_eq!(colorfmt::format::format(args), "\x1b[97;100mx\x1b[m\n");
}

#[test]
fn format_debug_style_full_sequence() {
    let mut args = plain_args();
    args.text = vec!["x".to_string()];
    args.style = Some(Style::Debug);
    assert_eq!(colorfmt::format::format(args), "\x1b[30;46;2mx\x1b[m\n");
}

#[test]
fn apply_style_debug_overrides_prior_fields() {
    let mut args = plain_args();
    args.foreground = Some(Color::White);
    args.background = Some(Color::Red);
    args.options = vec![FormattingOption::Bold, FormattingOption::Underline];
    args.style = Some(Style::Debug);
    let resolved = apply_style(args);
    assert_eq!(resolved.foreground, Some(Color::Black));
    assert_eq!(resolved.background, Some(Color::Cyan));
    assert_eq!(resolved.options, vec![FormattingOption::Dim]);
}

#[test]
fn apply_style_foreground_presets() {
    let cases = [
        (Style::Success, Color::Green),
        (Style::Notice, Color::Magenta),
        (Style::Error, Color::Red),
        (Style::Warn, Color::Yellow),
        (Style::Info, Color::Cyan),
    ];
    for (style, color) in cases {
        let mut args = plain_args();
        args.style = Some(style);
        let resolved = apply_style(args);
        assert_eq!(resolved.foreground, Some(color));
        assert_eq!(resolved.background, None);
        assert!(resolved.options.is_empty());
    }
}

#[test]
fn apply_style_without_style_keeps_fields() {
    let mut args = plain_args();
    args.foreground = Some(Color::Blue);
    args.options = vec![FormattingOption::Dim];
    let resolved = apply_style(args);
    assert_eq!(resolved.foreground, Some(Color::Blue));
    assert_eq!(resolved.background, None);
    assert_eq!(resolved.options, vec![FormattingOption::Dim]);
}

#[test]
fn format_codes_table() {
    assert_eq!(get_format_code(&FormattingOption::Bold), 1);
    assert_eq!(get_format_code(&FormattingOption::Dim), 2);
    assert_eq!(get_format_code(&FormattingOption::Underline), 4);
    assert_eq!(get_format_code(&FormattingOption::Inverted), 7);
    assert_eq!(get_format_code(&FormattingOption::Strikethrough), 9);
}

#[test]
fn color_digit_table() {
    assert_eq!(get_color_code_digit(Color::Black), 0);
    assert_eq!(get_color_code_digit(Color::Red), 1);
    assert_eq!(get_color_code_digit(Color::Green), 2);
    assert_eq!(get_color_code_digit(Color::Yellow), 3);
    assert_eq!(get_color_code_digit(Color::Blue), 4);
    assert_eq!(get_color_code_digit(Color::Magenta), 5);
    assert_eq!(get_color_code_digit(Color::Cyan), 6);
    assert_eq!(get_color_code_digit(Color::White), 7);
    assert_eq!(get_color_code_digit(Color::BrightBlack), 60);
    assert_eq!(get_color_code_digit(Color::BrightRed), 61);
    assert_eq!(get_color_code_digit(Color::BrightGreen), 62);
    assert_eq!(get_color_code_digit(Color::BrightYellow), 63);
    assert_eq!(get_color_code_digit(Color::BrightBlue), 64);
    assert_eq!(get_color_code_digit(Color::BrightMagenta), 65);
    assert_eq!(get_color_code_digit(Color::BrightCyan), 66);
    assert_eq!(get_color_code_digit(Color::BrightWhite), 67);
}
