use fil_logger::text::{render_default, render_text};
use fil_logger::{color_logger_format, nocolor_logger_format, Level, LogFormat, LogRecord};
use flexi_logger::DeferredNow;

fn warning() -> LogRecord {
    LogRecord::new(Level::Warn, Some("app"), Some("main.x"), Some(7), "careful")
}

fn is_local_timestamp(ts: &str) -> bool {
    // 2019-11-11T21:04:25.685
    let shape = "dddd-dd-ddTdd:dd:dd.ddd";
    ts.len() == shape.len()
        && ts.chars().zip(shape.chars()).all(|(c, s)| if s == 'd' { c.is_ascii_digit() } else { c == s })
}

#[test]
fn text_line_of_a_warn_record() {
    let line = render_text("<ts>", "WARN", &warning());
    assert_eq!(line, "<ts> WARN app > careful");
}

#[test]
fn text_line_of_a_record_without_module() {
    let record = LogRecord::new(Level::Info, None, Some("main.x"), Some(7), "who");
    let line = render_text("2019-11-11T21:04:25.685", "INFO", &record);
    assert_eq!(line, "2019-11-11T21:04:25.685 INFO <unnamed> > who");
}

#[test]
fn text_line_takes_the_level_token_as_it_is() {
    let line = render_text("T", "\u{1b}[1;38;5;208mWARN\u{1b}[0m", &warning());
    assert_eq!(line, "T \u{1b}[1;38;5;208mWARN\u{1b}[0m app > careful");
}

#[test]
fn plain_format_of_a_warn_record_has_no_colour_codes() {
    let mut now = DeferredNow::new();
    let line = nocolor_logger_format(&mut now, &warning());
    let tail = " WARN app > careful";
    assert!(line.ends_with(tail));
    assert!(!line.contains('\u{1b}'));
    assert!(is_local_timestamp(&line[..line.len() - tail.len()]));
}

#[test]
fn plain_format_names_every_level_in_upper_case() {
    let levels = [
        (Level::Error, "ERROR"),
        (Level::Warn, "WARN"),
        (Level::Info, "INFO"),
        (Level::Debug, "DEBUG"),
        (Level::Trace, "TRACE"),
    ];
    for (level, name) in levels {
        let record = LogRecord::new(level, Some("simple"), None, None, "a message");
        let mut now = DeferredNow::new();
        let shown = now.now().format("%Y-%m-%dT%H:%M:%S%.3f").to_string();
        let line = nocolor_logger_format(&mut now, &record);
        assert_eq!(line, format!("{} {} simple > a message", shown, name));
    }
}

#[test]
fn plain_format_twice_from_one_clock_gives_the_same_bytes() {
    let mut now = DeferredNow::new();
    let first = nocolor_logger_format(&mut now, &warning());
    let second = nocolor_logger_format(&mut now, &warning());
    assert_eq!(first.as_bytes(), second.as_bytes());
}

#[test]
fn colour_format_paints_only_the_level() {
    let mut now = DeferredNow::new();
    let shown = now.now().format("%Y-%m-%dT%H:%M:%S%.3f").to_string();
    let line = color_logger_format(&mut now, &warning());
    let head = format!("{} ", shown);
    let tail = " app > careful";
    assert!(line.starts_with(&head));
    assert!(line.ends_with(tail));
    let token = &line[head.len()..line.len() - tail.len()];
    if token != "WARN" {
        let codes = token
            .strip_prefix("\u{1b}[")
            .and_then(|rest| rest.strip_suffix("mWARN\u{1b}[0m"))
            .expect("the name between a start sequence and the reset sequence");
        assert!(codes.chars().all(|c| c.is_ascii_digit() || c == ';'));
    }
}

#[test]
fn colour_format_paints_as_the_facility_does() {
    for level in [Level::Error, Level::Warn, Level::Info, Level::Debug, Level::Trace] {
        let outside = match level {
            Level::Error => log::Level::Error,
            Level::Warn => log::Level::Warn,
            Level::Info => log::Level::Info,
            Level::Debug => log::Level::Debug,
            Level::Trace => log::Level::Trace,
        };
        let record = LogRecord::new(level, Some("app"), None, None, "m");
        let mut now = DeferredNow::new();
        let shown = now.now().format("%Y-%m-%dT%H:%M:%S%.3f").to_string();
        let token = flexi_logger::style(outside, outside).to_string();
        let line = color_logger_format(&mut now, &record);
        assert_eq!(line, format!("{} {} app > m", shown, token));
        assert!(token.contains(level.as_upper_str()));
    }
}

#[test]
fn default_line_of_a_record() {
    let record = LogRecord::new(Level::Info, Some("my_prog::some_submodule"), None, None, "Task done");
    assert_eq!(render_default(&record), "INFO [my_prog::some_submodule] Task done");
    let nameless = LogRecord::new(Level::Error, None, None, None, "File not found");
    assert_eq!(render_default(&nameless), "ERROR [<unnamed>] File not found");
}

#[test]
fn default_line_is_the_facility_s_default_line() {
    let levels = [
        (Level::Error, log::Level::Error),
        (Level::Warn, log::Level::Warn),
        (Level::Info, log::Level::Info),
        (Level::Debug, log::Level::Debug),
        (Level::Trace, log::Level::Trace),
    ];
    for (level, outside) in levels {
        let theirs = log::Record::builder().level(outside).build();
        let mut out: Vec<u8> = Vec::new();
        let mut now = DeferredNow::new();
        flexi_logger::default_format(&mut out, &mut now, &theirs).expect("writes to memory");
        let ours = LogRecord::new(level, None, None, None, "");
        assert_eq!(render_default(&ours).as_bytes(), &out[..]);
        let mut clock = DeferredNow::new();
        assert_eq!(LogFormat::Default.render(&mut clock, &ours).as_bytes(), &out[..]);
    }
}

#[test]
fn every_format_renders_through_its_own_function() {
    let record = warning();
    let mut now = DeferredNow::new();
    assert_eq!(
        LogFormat::Json.render(&mut now, &record),
        fil_logger::go_log_json_format(&mut now, &record)
    );
    assert_eq!(
        LogFormat::Plain.render(&mut now, &record),
        nocolor_logger_format(&mut now, &record)
    );
    assert_eq!(
        LogFormat::Color.render(&mut now, &record),
        color_logger_format(&mut now, &record)
    );
    assert_eq!(LogFormat::Default.render(&mut now, &record), "WARN [app] careful");
}
