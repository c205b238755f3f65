//! The text formatter: builds one SGR escape sequence from an optional
//! foreground colour, an optional background colour and a set of formatting
//! flags, with named presets that overwrite all three, and wraps the joined
//! text tokens in it together with the requested reset sequences.

use vstd::prelude::*;
use vstd::string::*;
use crate::text::{code_start_chars, reset_chars, dec_chars, append_dec, append_reset};

verus! {

/// The sixteen colours a foreground or background can name: the eight base
/// colours and their bright variants.
#[derive(Debug, Copy, Clone, PartialEq, Eq, Structural)]
pub enum Color {
    Black,
    White,
    Red,
    Green,
    Blue,
    Yellow,
    Cyan,
    Magenta,
    BrightBlack,
    BrightWhite,
    BrightRed,
    BrightGreen,
    BrightBlue,
    BrightYellow,
    BrightCyan,
    BrightMagenta,
}

/// The formatting flags, each mapped to one SGR parameter code.
#[derive(Debug, Copy, Clone, PartialEq, Eq, Structural)]
pub enum FormattingOption {
    Bold,
    Dim,
    Underline,
    Inverted,
    Strikethrough,
}

/// The named presets; each one fully determines foreground, background and
/// formatting flags.
#[derive(Debug, Copy, Clone, PartialEq, Eq, Structural)]
pub enum Style {
    Success,
    Notice,
    Error,
    Warn,
    Info,
    Debug,
}

/// One formatting request: the text tokens (joined with single spaces), an
/// optional preset, the explicit colour and flag choices, and the reset and
/// newline switches.
#[derive(Debug)]
pub struct Args {
    /// Text to format
    pub text: Vec<String>,
    /// Premade style
    pub style: Option<Style>,
    /// Foreground color
    pub foreground: Option<Color>,
    /// Background color
    pub background: Option<Color>,
    /// Formatting options
    pub options: Vec<FormattingOption>,
    /// Reset formatting before text
    pub reset: bool,
    /// Do not reset formatting after text
    pub no_reset: bool,
    /// Do not print newline
    pub no_newline: bool,
}

/// The SGR colour digit: 0-7 for the base colours in the standard order,
/// 60 + the same digit for the bright variants.
pub open spec fn spec_color_code_digit(color: Color) -> u8 {
    match color {
        Color::Black => 0,
        Color::Red => 1,
        Color::Green => 2,
        Color::Yellow => 3,
        Color::Blue => 4,
        Color::Magenta => 5,
        Color::Cyan => 6,
        Color::White => 7,
        Color::BrightBlack => 60,
        Color::BrightRed => 61,
        Color::BrightGreen => 62,
        Color::BrightYellow => 63,
        Color::BrightBlue => 64,
        Color::BrightMagenta => 65,
        Color::BrightCyan => 66,
        Color::BrightWhite => 67,
    }
}

/// The SGR parameter code of one formatting flag.
pub open spec fn spec_format_code(option: FormattingOption) -> u8 {
    match option {
        FormattingOption::Bold => 1,
        FormattingOption::Dim => 2,
        FormattingOption::Underline => 4,
        FormattingOption::Inverted => 7,
        FormattingOption::Strikethrough => 9,
    }
}

/// The foreground colour a preset selects.
pub open spec fn preset_foreground(style: Style) -> Option<Color> {
    match style {
        Style::Success => Some(Color::Green),
        Style::Notice => Some(Color::Magenta),
        Style::Error => Some(Color::Red),
        Style::Warn => Some(Color::Yellow),
        Style::Info => Some(Color::Cyan),
        Style::Debug => Some(Color::Black),
    }
}

/// The background colour a preset selects.
pub open spec fn preset_background(style: Style) -> Option<Color> {
    match style {
        Style::Debug => Some(Color::Cyan),
        _ => None,
    }
}

/// The formatting flags a preset selects.
pub open spec fn preset_options(style: Style) -> Seq<FormattingOption> {
    match style {
        Style::Debug => seq![FormattingOption::Dim],
        _ => Seq::empty(),
    }
}

/// The foreground the formatter uses: the preset's when one is set,
/// otherwise the explicit choice.
pub open spec fn resolved_foreground(args: Args) -> Option<Color> {
    match args.style {
        Some(style) => preset_foreground(style),
        None => args.foreground,
    }
}

/// The background the formatter uses.
pub open spec fn resolved_background(args: Args) -> Option<Color> {
    match args.style {
        Some(style) => preset_background(style),
        None => args.background,
    }
}

/// The formatting flags the formatter uses.
pub open spec fn resolved_options(args: Args) -> Seq<FormattingOption> {
    match args.style {
        Some(style) => preset_options(style),
        None => args.options@,
    }
}

/// The SGR parameter codes for given colour and flag choices, in emission
/// order: foreground, background, then one code per flag in the order the
/// flags were given.
pub open spec fn code_list(
    foreground: Option<Color>,
    background: Option<Color>,
    options: Seq<FormattingOption>,
) -> Seq<u8> {
    let fg = match foreground {
        Some(c) => seq![(30 + spec_color_code_digit(c)) as u8],
        None => Seq::empty(),
    };
    let bg = match background {
        Some(c) => seq![(40 + spec_color_code_digit(c)) as u8],
        None => Seq::empty(),
    };
    fg + bg + options.map_values(|o: FormattingOption| spec_format_code(o))
}

/// The SGR parameter codes the formatter emits, after preset resolution.
pub open spec fn spec_codes(args: Args) -> Seq<u8> {
    code_list(resolved_foreground(args), resolved_background(args), resolved_options(args))
}

/// Decimal renderings of the codes joined with `;`.
pub open spec fn joined_codes_chars(codes: Seq<u8>) -> Seq<char>
    decreases codes.len(),
{
    if codes.len() == 0 {
        Seq::empty()
    } else if codes.len() == 1 {
        dec_chars(codes[0] as nat)
    } else {
        joined_codes_chars(codes.drop_last()) + seq![';'] + dec_chars(codes.last() as nat)
    }
}

/// The text tokens joined with single spaces.
pub open spec fn joined_text_chars(tokens: Seq<Seq<char>>) -> Seq<char>
    decreases tokens.len(),
{
    if tokens.len() == 0 {
        Seq::empty()
    } else if tokens.len() == 1 {
        tokens[0]
    } else {
        joined_text_chars(tokens.drop_last()) + seq![' '] + tokens.last()
    }
}

/// The formatter's whole output: the joined text wrapped in the SGR sequence
/// when any code was collected, behind a leading reset when one was asked
/// for, before a trailing reset and a newline unless they were switched off.
pub open spec fn spec_format(args: Args) -> Seq<char> {
    let codes = spec_codes(args);
    let text = joined_text_chars(args.text@.map_values(|t: String| t@));
    let body = if codes.len() > 0 {
        code_start_chars() + joined_codes_chars(codes) + seq!['m'] + text
    } else {
        text
    };
    let led = if args.reset {
        reset_chars() + body
    } else {
        body
    };
    let closed = if !args.no_reset {
        led + reset_chars()
    } else {
        led
    };
    if !args.no_newline {
        closed + seq!['\n']
    } else {
        closed
    }
}

/// The SGR parameter code of one formatting flag.
pub fn get_format_code(option: &FormattingOption) -> (code: u8)
    ensures
        code == spec_format_code(*option),
{
    match option {
        FormattingOption::Bold => 1,
        FormattingOption::Dim => 2,
        FormattingOption::Underline => 4,
        FormattingOption::Inverted => 7,
        FormattingOption::Strikethrough => 9,
    }
}

/// The SGR colour digit of one named colour.
pub fn get_color_code_digit(color: Color) -> (digit: u8)
    ensures
        digit == spec_color_code_digit(color),
{
    match color {
        Color::Black => 0,
        Color::Red => 1,
        Color::Green => 2,
        Color::Yellow => 3,
        Color::Blue => 4,
        Color::Magenta => 5,
        Color::Cyan => 6,
        Color::White => 7,
        Color::BrightBlack => 60,
        Color::BrightRed => 61,
        Color::BrightGreen => 62,
        Color::BrightYellow => 63,
        Color::BrightBlue => 64,
        Color::BrightMagenta => 65,
        Color::BrightCyan => 66,
        Color::BrightWhite => 67,
    }
}

/// Resolves a preset: when a style is set it overwrites foreground,
/// background and flags — whatever they held before — and everything else is
/// kept as it was.
pub fn apply_style(args: Args) -> (resolved: Args)
    ensures
        resolved.text@ == args.text@,
        resolved.style == args.style,
        resolved.reset == args.reset,
        resolved.no_reset == args.no_reset,
        resolved.no_newline == args.no_newline,
        resolved.foreground == resolved_foreground(args),
        resolved.background == resolved_background(args),
        resolved.options@ == resolved_options(args),
{
    let mut args = args;
    if let Some(style) = args.style {
        args.background = None;
        args.foreground = None;
        args.options = Vec::new();
        match style {
            Style::Success => {
                args.foreground = Some(Color::Green);
            }
            Style::Notice => {
                args.foreground = Some(Color::Magenta);
            }
            Style::Error => {
                args.foreground = Some(Color::Red);
            }
            Style::Warn => {
                args.foreground = Some(Color::Yellow);
            }
            Style::Info => {
                args.foreground = Some(Color::Cyan);
            }
            Style::Debug => {
                args.background = Some(Color::Cyan);
                args.foreground = Some(Color::Black);
                args.options.push(FormattingOption::Dim);
            }
        }
        proof {
            assert(args.options@ =~= preset_options(style));
        }
    }
    args
}


/// A preset overwrites any independently supplied foreground, background
/// and formatting flags: two requests that share the same preset, text and
/// reset switches format to the same output, whatever their explicit colour
/// and flag fields hold.
pub proof fn lemma_preset_overrides(a: Args, b: Args)
    requires
        a.style is Some,
        a.style == b.style,
        a.text@ == b.text@,
        a.reset == b.reset,
        a.no_reset == b.no_reset,
        a.no_newline == b.no_newline,
    ensures
        spec_format(a) == spec_format(b),
{
    assert(spec_codes(a) == spec_codes(b));
}

/// Collects the SGR parameter codes for the given colour and flag choices.
fn collect_codes(
    foreground: Option<Color>,
    background: Option<Color>,
    options: &Vec<FormattingOption>,
) -> (codes: Vec<u8>)
    ensures
        codes@ == code_list(foreground, background, options@),
{
    let mut codes: Vec<u8> = Vec::new();
    if let Some(fg) = foreground {
        codes.push(30 + get_color_code_digit(fg));
    }
    if let Some(bg) = background {
        codes.push(40 + get_color_code_digit(bg));
    }
    proof {
        assert(options@.take(0).map_values(|o: FormattingOption| spec_format_code(o))
            =~= Seq::empty());
        assert(codes@ =~= code_list(foreground, background, options@.take(0)));
    }
    let mut k: usize = 0;
    while k < options.len()
        invariant
            k <= options.len(),
            codes@ == code_list(foreground, background, options@.take(k as int)),
        decreases options.len() - k,
    {
        let option = options[k];
        codes.push(get_format_code(&option));
        k = k + 1;
        proof {
            assert(options@.take(k as int).map_values(|o: FormattingOption| spec_format_code(o))
                =~= options@.take(k as int - 1).map_values(
                    |o: FormattingOption| spec_format_code(o)).push(spec_format_code(options@[k as int - 1])));
            assert(codes@ =~= code_list(foreground, background, options@.take(k as int)));
        }
    }
    proof {
        assert(options@.take(options@.len() as int) =~= options@);
    }
    codes
}

/// Appends the decimal renderings of the codes joined with `;`.
fn append_joined_codes(s: &mut String, codes: &Vec<u8>)
    ensures
        final(s)@ == old(s)@ + joined_codes_chars(codes@),
{
    proof {
        assert(s@ =~= old(s)@ + joined_codes_chars(codes@.take(0)));
    }
    let mut i: usize = 0;
    while i < codes.len()
        invariant
            i <= codes.len(),
            s@ == old(s)@ + joined_codes_chars(codes@.take(i as int)),
        decreases codes.len() - i,
    {
        if i > 0 {
            s.append(";");
        }
        append_dec(s, codes[i] as u16);
        i = i + 1;
        proof {
            reveal_strlit(";");
            assert(codes@.take(i as int).drop_last() =~= codes@.take(i as int - 1));
            assert(codes@.take(i as int).last() == codes@[i as int - 1]);
            assert(s@ =~= old(s)@ + joined_codes_chars(codes@.take(i as int)));
        }
    }
    proof {
        assert(codes@.take(codes@.len() as int) =~= codes@);
    }
}

/// Appends the text tokens joined with single spaces.
fn append_joined_text(s: &mut String, tokens: &Vec<String>)
    ensures
        final(s)@ == old(s)@ + joined_text_chars(tokens@.map_values(|t: String| t@)),
{
    let ghost views = tokens@.map_values(|t: String| t@);
    proof {
        assert(views.take(0) =~= Seq::empty());
        assert(s@ =~= old(s)@ + joined_text_chars(views.take(0)));
    }
    let mut j: usize = 0;
    while j < tokens.len()
        invariant
            j <= tokens.len(),
            views == tokens@.map_values(|t: String| t@),
            s@ == old(s)@ + joined_text_chars(views.take(j as int)),
        decreases tokens.len() - j,
    {
        if j > 0 {
            s.append(" ");
        }
        s.append(tokens[j].as_str());
        j = j + 1;
        proof {
            reveal_strlit(" ");
            assert(views.take(j as int).drop_last() =~= views.take(j as int - 1));
            assert(views.take(j as int).last() == views[j as int - 1]);
            assert(s@ =~= old(s)@ + joined_text_chars(views.take(j as int)));
        }
    }
    proof {
        assert(views.take(views.len() as int) =~= views);
    }
}

/// Formats the request: resolves the preset, collects the SGR codes, joins
/// the text tokens with spaces, and assembles escape prefix, resets and the
/// final newline exactly as `spec_format` states.
pub fn format(args: Args) -> (result: String)
    ensures
        result@ == spec_format(args),
{
    let ghost input = args;
    let args = apply_style(args);
    let codes = collect_codes(args.foreground, args.background, &args.options);
    proof {
        assert(codes@ == spec_codes(input));
    }

    let mut result = String::new();

    // Pre-text formatting
    if args.reset {
        append_reset(&mut result);
    }
    let ghost led = result@;

    // The SGR parameter sequence
    if codes.len() > 0 {
        result.append("\x1b[");
        proof {
            reveal_strlit("\x1b[");
            assert(result@ =~= led + code_start_chars());
        }
        append_joined_codes(&mut result, &codes);
        result.append("m");
        proof {
            reveal_strlit("m");
            assert(result@ =~= led + code_start_chars() + joined_codes_chars(codes@)
                + seq!['m']);
        }
    }

    // The joined text tokens
    append_joined_text(&mut result, &args.text);

    // Post-text formatting
    if !args.no_reset {
        append_reset(&mut result);
    }
    if !args.no_newline {
        result.append("\n");
        proof {
            reveal_strlit("\n");
        }
    }
    proof {
        assert(result@ =~= spec_format(input));
    }
    result
}

} // verus!
