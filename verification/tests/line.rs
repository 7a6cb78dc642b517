use logthis::line::{
    end_console_line, make_file_text, make_line, make_owner_field, OWNER_WIDTH, TAG_WIDTH,
    THREAD_WIDTH,
};
use logthis::{location_owner, Level};

#[test]
fn field_widths() {
    assert_eq!(TAG_WIDTH, 7);
    assert_eq!(OWNER_WIDTH, 60);
    assert_eq!(THREAD_WIDTH, 20);
}

#[test]
fn owner_field_names_the_thread() {
    assert_eq!(make_owner_field("app", "main"), "app @main                ");
    assert_eq!(make_owner_field("app", "main"), format!("{} @{:<20}", "app", "main"));
    assert_eq!(
        make_owner_field("app", "ThreadId(1)"),
        format!("{} @{:<20}", "app", "ThreadId(1)")
    );
}

#[test]
fn owner_field_keeps_a_long_thread_name() {
    let name = "a-thread-with-a-very-long-name";
    assert_eq!(make_owner_field("", name), format!(" @{}", name));
}

#[test]
fn location_owner_joins_file_line_and_column() {
    assert_eq!(location_owner("src/main.rs", 12, 5), "src/main.rs:12:5");
    assert_eq!(location_owner("examples/use.rs", 100, 1), "examples/use.rs:100:1");
    assert_eq!(location_owner("", 0, 0), ":0:0");
}

#[test]
fn line_puts_the_fields_in_order() {
    let line = make_line("2024-05-06 07:08:09", "[INFO] ", "owner", "Hello");
    let expected = format!(
        "{} {} {:>60} |: {}",
        "2024-05-06 07:08:09", "[INFO] ", "owner", "Hello"
    );
    assert_eq!(line, expected);
    assert_eq!(line.chars().count(), 19 + 1 + 7 + 1 + 60 + 4 + 5);
}

#[test]
fn file_text_for_each_level() {
    let ts = "2024-05-06 07:08:09";
    assert_eq!(
        make_file_text(ts, Level::Debug, "o", "m"),
        format!("{} [DEBUG] {:>60} |: {}\n", ts, "o", "m")
    );
    assert_eq!(
        make_file_text(ts, Level::Info, "o", "m"),
        format!("{} [INFO]  {:>60} |: {}\n", ts, "o", "m")
    );
    assert_eq!(
        make_file_text(ts, Level::Warn, "o", "m"),
        format!("{} [WARN]  {:>60} |: {}\n", ts, "o", "m")
    );
    assert_eq!(
        make_file_text(ts, Level::Error, "o", "m"),
        format!("{} [ERROR] {:>60} |: {}\n", ts, "o", "m")
    );
}

#[test]
fn file_text_keeps_a_long_owner() {
    let owner = "x".repeat(75);
    let text = make_file_text("T", Level::Warn, &owner, "m");
    assert_eq!(text, format!("T [WARN]  {} |: m\n", owner));
}

#[test]
fn file_text_with_empty_fields() {
    assert_eq!(
        make_file_text("", Level::Info, "", ""),
        format!(" [INFO]  {} |: \n", " ".repeat(60))
    );
}

#[test]
fn console_line_ends_with_a_line_feed() {
    assert_eq!(end_console_line(String::from("abc")), "abc\n");
    assert_eq!(end_console_line(String::new()), "\n");
}
