use kyberlib::loggers::{CustomError, CustomWrite, Log, LogFormat, LogLevel};

#[test]
fn test_log_info() {
    let log_entry = Log::new(
        "session123",
        "2023-11-20T12:34:56",
        LogLevel::INFO,
        "component_name",
        "This is a log message",
        LogFormat::CLF,
    );
    assert_eq!(log_entry.level, LogLevel::INFO);
    assert_eq!(log_entry.session_id, "session123");
    assert_eq!(log_entry.time, "2023-11-20T12:34:56");
    assert_eq!(log_entry.component, "component_name");
    assert_eq!(log_entry.description, "This is a log message");
    assert_eq!(log_entry.format, LogFormat::CLF);
}

// A sink that keeps what it is given, and can be told to fail.
struct Sink {
    text: String,
    flushed: usize,
    fail_write: bool,
    fail_flush: bool,
}

impl Sink {
    fn new() -> Self {
        Sink { text: String::new(), flushed: 0, fail_write: false, fail_flush: false }
    }
}

impl CustomWrite for Sink {
    fn write_str(&mut self, text: &str) -> Result<(), CustomError> {
        if self.fail_write {
            return Err(CustomError::new("Formatting error"));
        }
        self.text.push_str(text);
        Ok(())
    }

    fn custom_flush(&mut self) -> Result<(), CustomError> {
        if self.fail_flush {
            return Err(CustomError::new("flush failed"));
        }
        self.flushed += 1;
        Ok(())
    }
}

// The line of an entry in the Common Log Format, letter for letter.
#[test]
fn test_log_line_in_common_log_format() {
    let entry = Log::new(
        "session123",
        "2023-11-20T12:34:56",
        LogLevel::INFO,
        "component_name",
        "This is a log message",
        LogFormat::CLF,
    );
    assert_eq!(
        entry.line().unwrap(),
        "SessionID=session123\tTimestamp=2023-11-20T12:34:56\tDescription=This is a log message\tLevel=INFO\tComponent=component_name\tFormat=CLF\n"
    );
}

// Every layout but the Common Log Format is refused.
#[test]
fn test_log_line_refuses_other_formats() {
    for format in [
        LogFormat::JSON,
        LogFormat::CEF,
        LogFormat::ELF,
        LogFormat::W3C,
        LogFormat::GELF,
    ] {
        let entry = Log::new("s", "t", LogLevel::ERROR, "c", "d", format);
        assert_eq!(entry.line().unwrap_err().to_string(), "Unsupported log format");
    }
}

// Logging writes the line once and flushes once.
#[test]
fn test_log_writes_line_and_flushes() {
    let entry = Log::new("1", "now", LogLevel::WARNING, "kem", "done", LogFormat::CLF);
    let mut sink = Sink::new();
    entry.log(&mut sink).unwrap();
    assert_eq!(
        sink.text,
        "SessionID=1\tTimestamp=now\tDescription=done\tLevel=WARNING\tComponent=kem\tFormat=CLF\n"
    );
    assert_eq!(sink.flushed, 1);
}

// An entry in a refused layout reaches the sink with nothing.
#[test]
fn test_log_refused_format_writes_nothing() {
    let entry = Log::new("1", "now", LogLevel::DEBUG, "kem", "done", LogFormat::JSON);
    let mut sink = Sink::new();
    let error = entry.log(&mut sink).unwrap_err();
    assert_eq!(error.message(), "Unsupported log format");
    assert_eq!(sink.text, "");
    assert_eq!(sink.flushed, 0);
}

// The sink's own failures come back as they are.
#[test]
fn test_log_hands_back_the_sinks_errors() {
    let entry = Log::new("1", "now", LogLevel::FATAL, "kem", "done", LogFormat::CLF);
    let mut sink = Sink::new();
    sink.fail_write = true;
    assert_eq!(entry.log(&mut sink).unwrap_err().message(), "Formatting error");
    assert_eq!(sink.flushed, 0);

    let mut sink = Sink::new();
    sink.fail_flush = true;
    assert_eq!(entry.log(&mut sink).unwrap_err().message(), "flush failed");
}

// The default entry is empty, for information, in the Common Log Format.
#[test]
fn test_log_default_entry() {
    let entry = Log::default();
    assert_eq!(entry.session_id, "");
    assert_eq!(entry.time, "");
    assert_eq!(entry.component, "");
    assert_eq!(entry.description, "");
    assert_eq!(entry.level, LogLevel::INFO);
    assert_eq!(entry.format, LogFormat::CLF);
}

// Levels and layouts are written by their names.
#[test]
fn test_level_and_format_names() {
    assert_eq!(LogLevel::ALL.to_string(), "ALL");
    assert_eq!(LogLevel::DEBUG.to_string(), "DEBUG");
    assert_eq!(LogLevel::DISABLED.to_string(), "DISABLED");
    assert_eq!(LogLevel::ERROR.to_string(), "ERROR");
    assert_eq!(LogLevel::FATAL.to_string(), "FATAL");
    assert_eq!(LogLevel::INFO.to_string(), "INFO");
    assert_eq!(LogLevel::NONE.to_string(), "NONE");
    assert_eq!(LogLevel::TRACE.to_string(), "TRACE");
    assert_eq!(LogLevel::VERBOSE.to_string(), "VERBOSE");
    assert_eq!(LogLevel::WARNING.to_string(), "WARNING");
    assert_eq!(LogFormat::CLF.name(), "CLF");
    assert_eq!(LogFormat::JSON.name(), "JSON");
    assert_eq!(LogFormat::CEF.name(), "CEF");
    assert_eq!(LogFormat::ELF.name(), "ELF");
    assert_eq!(LogFormat::W3C.name(), "W3C");
    assert_eq!(LogFormat::GELF.name(), "GELF");
}

// An error made from a text has that text.
#[test]
fn test_custom_error_from_text() {
    let error: CustomError = "Unsupported log format".into();
    assert_eq!(error.message(), "Unsupported log format");
    assert_eq!(CustomError::from("x").to_string(), "x");
    assert_eq!(CustomError::new("y").message(), "y");
}
