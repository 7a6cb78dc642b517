use colored::{Color, Colorize, Styles};
use logthis::line::make_console_text;
use logthis::paint::{line_paint, tag_paint, Paint};
use logthis::{Level, Logger, Sink};

const TS: &str = "2024-05-06 07:08:09";

fn coloured_console() {
    colored::control::set_override(true);
}

#[test]
fn tag_paint_of_each_level() {
    let p = tag_paint(Level::Debug);
    assert_eq!((p.fg, p.bg), (Some(Color::Green), None));
    assert_eq!(p.styles, vec![Styles::Italic, Styles::Underline]);
    let p = tag_paint(Level::Info);
    assert_eq!((p.fg, p.bg), (Some(Color::Blue), None));
    assert_eq!(p.styles, vec![]);
    let p = tag_paint(Level::Warn);
    assert_eq!((p.fg, p.bg), (Some(Color::Yellow), None));
    assert_eq!(p.styles, vec![Styles::Bold]);
    let p = tag_paint(Level::Error);
    assert_eq!((p.fg, p.bg), (None, Some(Color::Red)));
    assert_eq!(p.styles, vec![Styles::Bold, Styles::Underline]);
}

#[test]
fn line_paint_of_each_level() {
    for (level, colour) in [
        (Level::Debug, Color::Green),
        (Level::Info, Color::Blue),
        (Level::Warn, Color::Yellow),
        (Level::Error, Color::Red),
    ] {
        let p = line_paint(level);
        assert_eq!((p.fg, p.bg), (Some(colour), None));
        assert_eq!(p.styles, vec![]);
    }
}

#[test]
fn paint_wraps_the_text_in_escape_sequences() {
    coloured_console();
    assert_eq!(tag_paint(Level::Info).apply("[INFO] "), "\x1b[34m[INFO] \x1b[0m");
    assert_eq!(tag_paint(Level::Debug).apply("[DEBUG]"), "\x1b[4;3;32m[DEBUG]\x1b[0m");
    assert_eq!(tag_paint(Level::Warn).apply("[WARN] "), "\x1b[1;33m[WARN] \x1b[0m");
    assert_eq!(tag_paint(Level::Error).apply("[ERROR]"), "\x1b[1;4;41m[ERROR]\x1b[0m");
    assert_eq!(line_paint(Level::Error).apply("x"), "\x1b[31mx\x1b[0m");
}

#[test]
fn paint_without_colour_or_style_keeps_the_text() {
    coloured_console();
    let plain = Paint { fg: None, bg: None, styles: vec![] };
    assert_eq!(plain.apply("text"), "text");
    let clear = Paint { fg: None, bg: None, styles: vec![Styles::Clear] };
    assert_eq!(clear.apply("text"), "text");
}

#[test]
fn paint_agrees_with_the_colorize_methods() {
    coloured_console();
    assert_eq!(
        tag_paint(Level::Debug).apply("[DEBUG]"),
        "[DEBUG]".green().italic().underline().to_string()
    );
    assert_eq!(tag_paint(Level::Info).apply("[INFO] "), "[INFO] ".blue().to_string());
    assert_eq!(tag_paint(Level::Warn).apply("[WARN] "), "[WARN] ".yellow().bold().to_string());
    assert_eq!(
        tag_paint(Level::Error).apply("[ERROR]"),
        "[ERROR]".on_red().bold().underline().to_string()
    );
}

#[test]
fn console_text_with_colours() {
    coloured_console();
    let text = make_console_text(TS, Level::Info, "owner", "Hello");
    let expected = format!(
        "\x1b[34m{} \x1b[34m[INFO] \x1b[0m\x1b[34m {:>60} |: {}\x1b[0m\n",
        TS, "owner", "Hello"
    );
    assert_eq!(text, expected);
}

#[test]
fn console_text_agrees_with_formatting_through_colored() {
    coloured_console();
    let debug = format!(
        "{} {:<7} {:>60} |: {}",
        TS,
        "[DEBUG]".green().italic().underline(),
        "owner",
        "message"
    )
    .green();
    assert_eq!(make_console_text(TS, Level::Debug, "owner", "message"), format!("{}\n", debug));
    let info = format!("{} {:<7} {:>60} |: {}", TS, "[INFO]".blue(), "owner", "message").blue();
    assert_eq!(make_console_text(TS, Level::Info, "owner", "message"), format!("{}\n", info));
    let warn =
        format!("{} {:<7} {:>60} |: {}", TS, "[WARN]".yellow().bold(), "owner", "message").yellow();
    assert_eq!(make_console_text(TS, Level::Warn, "owner", "message"), format!("{}\n", warn));
    let error = format!(
        "{} {:<7} {:>60} |: {}",
        TS,
        "[ERROR]".on_red().bold().underline(),
        "owner",
        "message"
    )
    .red();
    assert_eq!(make_console_text(TS, Level::Error, "owner", "message"), format!("{}\n", error));
}

#[test]
fn coloured_line_still_names_its_parts_in_order() {
    coloured_console();
    let logger = Logger::new();
    let e = logger.render(TS, Level::Error, "owner @main", "it \x1b[0m broke").unwrap();
    assert_eq!(e.sink, Sink::Stderr);
    let mut rest = e.text.chars();
    for c in "[ERROR]owner @mainit \x1b[0m broke".chars() {
        assert!(rest.any(|d| d == c));
    }
    assert!(e.text.ends_with('\n'));
}
