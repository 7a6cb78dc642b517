//! Console styling: which colours and text styles a line is shown with, and the
//! call that applies them.

use vstd::prelude::*;
use colored::{Color, Styles};
use crate::level::Level;
use crate::text::is_subsequence;

verus! {

/// `colored::Color`, the colours of a terminal. Its variants are read as they
/// are declared, so that a colour can be named and compared.
#[verifier::external_type_specification]
pub struct ExColor(Color);

/// `colored::Styles`, the text styles that can be switched on one by one. Its
/// variants are read as they are declared.
#[verifier::external_type_specification]
pub struct ExStyles(Styles);

/// `colored::Style`, a set of text styles. Nothing is known of what a value
/// holds; the operators that `colored` defines between it and `Styles` need
/// the type declared.
#[verifier::external_type_specification]
#[verifier::external_body]
pub struct ExStyle(colored::Style);

/// How a piece of console text is shown: an optional foreground colour, an
/// optional background colour, and the text styles that are switched on.
#[derive(Debug, Clone)]
pub struct Paint {
    pub fg: Option<Color>,
    pub bg: Option<Color>,
    pub styles: Vec<Styles>,
}

/// The mathematical value of a [`Paint`].
pub struct PaintView {
    pub fg: Option<Color>,
    pub bg: Option<Color>,
    pub styles: Seq<Styles>,
}

impl View for Paint {
    type V = PaintView;

    open spec fn view(&self) -> PaintView {
        PaintView { fg: self.fg, bg: self.bg, styles: self.styles@ }
    }
}

/// Whether a colour is one of the sixteen named ones. Only those are shown the
/// same way on every terminal.
pub open spec fn is_named(c: Option<Color>) -> bool {
    c matches Some(col) ==> !(col is TrueColor)
}

/// The text that `colored` produces for `text` with the given colours and
/// styles when colouring is switched on: the input between the escape sequence
/// that starts the style and the one that resets it.
pub uninterp spec fn painted(
    text: Seq<char>,
    fg: Option<Color>,
    bg: Option<Color>,
    styles: Seq<Styles>,
) -> Seq<char>;

/// What painting `text` may give: the text itself where colouring is switched
/// off (by the environment, or because the output is no terminal), and the
/// styled text where it is on. Either way nothing of the text is lost: escape
/// sequences are only put in.
pub open spec fn paint_outcome(out: Seq<char>, text: Seq<char>, paint: PaintView) -> bool {
    &&& is_named(paint.fg) && is_named(paint.bg) ==> out == text || out == painted(
        text,
        paint.fg,
        paint.bg,
        paint.styles,
    )
    &&& is_subsequence(text, out)
}

/// Shows `text` through `colored::ColoredString`: its `From<&str>`, its public
/// fields `fgcolor`, `bgcolor` and `style`, and its `Display`.
///
/// Trusted: `colored` decides from the environment whether to colour at all. If
/// not, `Display` writes the input unchanged; if so, it writes a string that
/// depends on the input, the two colours and the set of styles only, as long as
/// neither colour is a `TrueColor`. That much holds of calls during which the
/// process-wide switch keeps its value. In every case the output is the input
/// with escape sequences put in: before it, after it, and after each reset
/// sequence that the input holds itself.
#[verifier::external_body]
fn show(text: &str, fg: Option<Color>, bg: Option<Color>, styles: &Vec<Styles>) -> (out: String)
    ensures
        is_named(fg) && is_named(bg) ==> out@ == text@ || out@ == painted(text@, fg, bg, styles@),
        is_subsequence(text@, out@),
{
    let mut cs = colored::ColoredString::from(text);
    cs.fgcolor = fg;
    cs.bgcolor = bg;
    cs.style = styles.iter().copied().collect();
    cs.to_string()
}

impl Paint {
    /// Paints `text`. Whether any colour is applied is for the environment to
    /// decide.
    pub fn apply(&self, text: &str) -> (out: String)
        ensures
            paint_outcome(out@, text@, self@),
    {
        show(text, self.fg, self.bg, &self.styles)
    }
}

/// The paint of the level tag on the console.
pub open spec fn tag_paint_of(level: Level) -> PaintView {
    match level {
        Level::Debug => PaintView {
            fg: Some(Color::Green),
            bg: None,
            styles: seq![Styles::Italic, Styles::Underline],
        },
        Level::Info => PaintView { fg: Some(Color::Blue), bg: None, styles: seq![] },
        Level::Warn => PaintView { fg: Some(Color::Yellow), bg: None, styles: seq![Styles::Bold] },
        Level::Error => PaintView {
            fg: None,
            bg: Some(Color::Red),
            styles: seq![Styles::Bold, Styles::Underline],
        },
    }
}

/// The paint of a whole console line.
pub open spec fn line_paint_of(level: Level) -> PaintView {
    let fg = match level {
        Level::Debug => Color::Green,
        Level::Info => Color::Blue,
        Level::Warn => Color::Yellow,
        Level::Error => Color::Red,
    };
    PaintView { fg: Some(fg), bg: None, styles: seq![] }
}

/// The paint of the level tag on the console.
pub fn tag_paint(level: Level) -> (p: Paint)
    ensures
        p@ == tag_paint_of(level),
{
    let mut styles: Vec<Styles> = Vec::new();
    let p = match level {
        Level::Debug => {
            styles.push(Styles::Italic);
            styles.push(Styles::Underline);
            Paint { fg: Some(Color::Green), bg: None, styles }
        },
        Level::Info => Paint { fg: Some(Color::Blue), bg: None, styles },
        Level::Warn => {
            styles.push(Styles::Bold);
            Paint { fg: Some(Color::Yellow), bg: None, styles }
        },
        Level::Error => {
            styles.push(Styles::Bold);
            styles.push(Styles::Underline);
            Paint { fg: None, bg: Some(Color::Red), styles }
        },
    };
    assert(p@.styles =~= tag_paint_of(level).styles);
    p
}

/// The paint of a whole console line.
pub fn line_paint(level: Level) -> (p: Paint)
    ensures
        p@ == line_paint_of(level),
{
    let fg = match level {
        Level::Debug => Color::Green,
        Level::Info => Color::Blue,
        Level::Warn => Color::Yellow,
        Level::Error => Color::Red,
    };
    let p = Paint { fg: Some(fg), bg: None, styles: Vec::new() };
    assert(p@.styles =~= line_paint_of(level).styles);
    p
}

} // verus!
