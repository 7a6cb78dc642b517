use logthis::{debug, error, info, location_owner, log, warn, Level, Log, Logger, Sink};

fn plain_console() {
    colored::control::set_override(false);
}

fn without_stamp(text: &str) -> &str {
    &text[19..]
}

#[test]
fn hello_world_on_the_console() {
    plain_console();
    let logger = Logger::new();
    let name = String::from("ThreadId(1)");
    let owner = location_owner("examples/use.rs", 16, 5);
    let e = info(&logger, &name, &owner, "Hello, world!").unwrap();
    assert_eq!(e.sink, Sink::Stdout);
    assert_eq!(
        without_stamp(&e.text),
        format!(
            " [INFO]  {:>60} |: Hello, world!\n",
            "examples/use.rs:16:5 @ThreadId(1)         "
        )
    );
    assert_eq!(e.text.matches('\n').count(), 1);
    let tag = e.text.find("[INFO]").unwrap();
    let place = e.text.find("examples/use.rs:16:5").unwrap();
    let thread = e.text.find("ThreadId(1)").unwrap();
    let message = e.text.find("Hello, world!").unwrap();
    assert!(tag < place && place < thread && thread < message);
    assert_eq!(debug(&logger, &name, &owner, "invisible"), None);
}

#[test]
fn three_levels_into_a_file() {
    let mut logger = Logger::new();
    Log::set_level(&mut logger, Level::Debug);
    Log::set_file(&mut logger, Some(String::from("log.txt")));
    let name = String::from("main");
    let lines = [
        debug(&logger, &name, "here", "x"),
        info(&logger, &name, "here", "y"),
        error(&logger, &name, "here", "z"),
    ];
    let expected = [("[DEBUG] ", "x"), ("[INFO]  ", "y"), ("[ERROR] ", "z")];
    let mut file = String::new();
    for (line, (tag, message)) in lines.iter().zip(expected) {
        let e = line.as_ref().unwrap();
        assert_eq!(e.sink, Sink::File(String::from("log.txt")));
        assert_eq!(
            without_stamp(&e.text),
            format!(" {}{:>60} |: {}\n", tag, "here @main                ", message)
        );
        file.push_str(&e.text);
    }
    assert_eq!(file.lines().count(), 3);
}

#[test]
fn entry_points_log_at_their_level() {
    plain_console();
    let mut logger = Logger::new();
    logger.set_level(Level::Debug);
    let name = "main";
    let by_level = [
        (debug(&logger, name, "o", "m"), log(&logger, name, Level::Debug, "o", "m")),
        (info(&logger, name, "o", "m"), log(&logger, name, Level::Info, "o", "m")),
        (warn(&logger, name, "o", "m"), log(&logger, name, Level::Warn, "o", "m")),
        (error(&logger, name, "o", "m"), log(&logger, name, Level::Error, "o", "m")),
    ];
    for (entry, plain) in by_level {
        let (entry, plain) = (entry.unwrap(), plain.unwrap());
        assert_eq!(entry.sink, plain.sink);
        assert_eq!(without_stamp(&entry.text), without_stamp(&plain.text));
    }
    logger.set_level(Level::Error);
    assert_eq!(debug(&logger, name, "o", "m"), None);
    assert_eq!(info(&logger, name, "o", "m"), None);
    assert_eq!(warn(&logger, name, "o", "m"), None);
    assert!(error(&logger, name, "o", "m").is_some());
}

#[test]
fn a_thread_name_shows_on_the_lines_of_its_thread_only() {
    let mut logger = Logger::new();
    logger.set_file(Some(String::from("log.txt")));
    let mut first = String::from("ThreadId(1)");
    let second = String::from("ThreadId(2)");
    Log::set_current_thread_name(&mut first, "MainThread");
    let a = warn(&logger, &first, "o", "m").unwrap();
    let b = warn(&logger, &second, "o", "m").unwrap();
    assert!(a.text.contains("o @MainThread          "));
    assert!(!a.text.contains("ThreadId"));
    assert!(b.text.contains("o @ThreadId(2)         "));
    assert!(!b.text.contains("MainThread"));
}

#[test]
fn the_message_may_hold_line_feeds() {
    let mut logger = Logger::new();
    logger.set_file(Some(String::from("log.txt")));
    let e = log(&logger, "main", Level::Info, "o", "one\ntwo").unwrap();
    assert!(e.text.ends_with(" |: one\ntwo\n"));
}
