use fil_logger::json::render_json;
use fil_logger::writer::line_end;
use fil_logger::{Level, LevelFilter, LogFormat, LogRecord, SingleFileWriter};
use flexi_logger::DeferredNow;

fn record(number: u32) -> LogRecord {
    let message = format!("record {}", number);
    LogRecord::new(Level::Info, Some("app"), Some("main.x"), Some(number), &message)
}

#[test]
fn new_writer_has_the_default_format() {
    let writer = SingleFileWriter::new();
    assert_eq!(writer.installed(), LogFormat::Default);
    let mut now = DeferredNow::new();
    assert_eq!(writer.write(&mut now, &record(1)), "INFO [app] record 1\n");
}

#[test]
fn installed_format_replaces_the_one_before() {
    let mut writer = SingleFileWriter::new();
    writer.format(LogFormat::Json);
    assert_eq!(writer.installed(), LogFormat::Json);
    writer.format(LogFormat::Plain);
    assert_eq!(writer.installed(), LogFormat::Plain);
}

#[test]
fn entry_is_the_line_and_a_line_break() {
    let mut writer = SingleFileWriter::new();
    writer.format(LogFormat::Json);
    let mut now = DeferredNow::new();
    let shown = now.now().format("%Y-%m-%dT%H:%M:%S%.3f%:z").to_string();
    let entry = writer.write(&mut now, &record(4));
    assert_eq!(entry, format!("{}\n", render_json(&shown, &record(4))));
    assert_eq!(line_end(), "\n");
}

#[test]
fn writes_give_one_line_for_each_record() {
    for format in [LogFormat::Default, LogFormat::Json, LogFormat::Color, LogFormat::Plain] {
        let mut writer = SingleFileWriter::new();
        writer.format(format);
        let mut file = String::new();
        let count: u32 = 25;
        for number in 0..count {
            let mut now = DeferredNow::new();
            file.push_str(&writer.write(&mut now, &record(number)));
        }
        assert!(file.ends_with('\n'));
        let lines: Vec<&str> = file.split_terminator('\n').collect();
        assert_eq!(lines.len(), 25);
        assert_eq!(file.matches('\n').count(), 25);
        for (number, line) in lines.iter().enumerate() {
            assert!(line.contains(&format!("record {}", number)));
            assert!(line.ends_with(&format!("record {}", number)) || line.ends_with("\"}"));
        }
    }
}

#[test]
fn message_with_a_line_break_takes_two_lines() {
    let writer = SingleFileWriter::new();
    let mut now = DeferredNow::new();
    let broken = LogRecord::new(Level::Info, Some("app"), None, None, "a\nb");
    let entry = writer.write(&mut now, &broken);
    assert_eq!(entry, "INFO [app] a\nb\n");
    assert_eq!(entry.matches('\n').count(), 2);
}

#[test]
fn writer_takes_every_level() {
    let writer = SingleFileWriter::new();
    assert_eq!(writer.max_log_level(), LevelFilter::Trace);
    for level in [Level::Error, Level::Warn, Level::Info, Level::Debug, Level::Trace] {
        assert!(writer.max_log_level().allows(level));
    }
}
