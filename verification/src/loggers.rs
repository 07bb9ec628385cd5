//! Log entries and the one line each of them is written as.
//!
//! An entry never holds key material: it is made of the texts its caller
//! hands over, and nothing in this crate logs by itself.

use vstd::prelude::*;
use vstd::string::*;

verus! {

/// Where log lines go. The crate's users implement it for their own sinks.
pub trait CustomWrite {
    /// Appends `text` to the sink.
    fn write_str(&mut self, text: &str) -> Result<(), CustomError>;

    /// Hands on whatever the sink still holds back.
    fn custom_flush(&mut self) -> Result<(), CustomError>;
}

/// Why a log entry could not be written.
#[derive(Debug, Clone, Copy)]
pub struct CustomError {
    message: &'static str,
}

impl CustomError {
    /// The error's text.
    pub closed spec fn text(&self) -> Seq<char> {
        self.message@
    }

    /// An error with the given text.
    pub fn new(message: &'static str) -> (error: Self)
        ensures
            error.text() == message@,
    {
        CustomError { message }
    }

    /// The error's text.
    pub fn message(&self) -> (text: &'static str)
        ensures
            text@ == self.text(),
    {
        self.message
    }

    /// The error's text, as a string.
    pub fn to_string(&self) -> (text: String)
        ensures
            text@ == self.text(),
    {
        self.message.to_owned()
    }
}

impl From<&'static str> for CustomError {
    fn from(message: &'static str) -> (error: Self) {
        CustomError { message }
    }
}

impl vstd::std_specs::convert::FromSpecImpl<&'static str> for CustomError {
    open spec fn obeys_from_spec() -> bool {
        true
    }

    closed spec fn from_spec(message: &'static str) -> Self {
        CustomError { message }
    }
}

/// An error made from a text has that text.
pub proof fn lemma_error_from_text(message: &'static str)
    ensures
        <CustomError as vstd::std_specs::convert::FromSpec<&'static str>>::from_spec(
            message,
        ).text() == message@,
{
}

/// The layouts a log line can be asked for.
#[derive(Debug, PartialEq, Eq, Hash, Clone, Copy, PartialOrd, Structural)]
pub enum LogFormat {
    /// Common Log Format.
    CLF,
    /// JSON.
    JSON,
    /// Common Event Format.
    CEF,
    /// Extended Log Format.
    ELF,
    /// W3C Extended Log File Format.
    W3C,
    /// Graylog Extended Log Format.
    GELF,
}

impl LogFormat {
    /// The name of the layout as it stands in a log line.
    pub open spec fn name_spec(self) -> Seq<char> {
        match self {
            LogFormat::CLF => "CLF"@,
            LogFormat::JSON => "JSON"@,
            LogFormat::CEF => "CEF"@,
            LogFormat::ELF => "ELF"@,
            LogFormat::W3C => "W3C"@,
            LogFormat::GELF => "GELF"@,
        }
    }

    /// The name of the layout as it stands in a log line.
    pub fn name(&self) -> (text: &'static str)
        ensures
            text@ == self.name_spec(),
    {
        match self {
            LogFormat::CLF => "CLF",
            LogFormat::JSON => "JSON",
            LogFormat::CEF => "CEF",
            LogFormat::ELF => "ELF",
            LogFormat::W3C => "W3C",
            LogFormat::GELF => "GELF",
        }
    }

    /// The name of the layout, as a string.
    pub fn to_string(&self) -> (text: String)
        ensures
            text@ == self.name_spec(),
    {
        self.name().to_owned()
    }
}

/// How much an entry matters.
#[derive(Debug, PartialEq, Eq, Hash, Clone, Copy, PartialOrd, Structural)]
pub enum LogLevel {
    /// Everything.
    ALL,
    /// For debugging.
    DEBUG,
    /// Logging is off.
    DISABLED,
    /// An error.
    ERROR,
    /// An error that ends the program.
    FATAL,
    /// For information.
    INFO,
    /// No level.
    NONE,
    /// A trace of what runs.
    TRACE,
    /// More than anyone asked for.
    VERBOSE,
    /// A warning.
    WARNING,
}

impl LogLevel {
    /// The name of the level as it stands in a log line.
    pub open spec fn name_spec(self) -> Seq<char> {
        match self {
            LogLevel::ALL => "ALL"@,
            LogLevel::DEBUG => "DEBUG"@,
            LogLevel::DISABLED => "DISABLED"@,
            LogLevel::ERROR => "ERROR"@,
            LogLevel::FATAL => "FATAL"@,
            LogLevel::INFO => "INFO"@,
            LogLevel::NONE => "NONE"@,
            LogLevel::TRACE => "TRACE"@,
            LogLevel::VERBOSE => "VERBOSE"@,
            LogLevel::WARNING => "WARNING"@,
        }
    }

    /// The name of the level as it stands in a log line.
    pub fn name(&self) -> (text: &'static str)
        ensures
            text@ == self.name_spec(),
    {
        match self {
            LogLevel::ALL => "ALL",
            LogLevel::DEBUG => "DEBUG",
            LogLevel::DISABLED => "DISABLED",
            LogLevel::ERROR => "ERROR",
            LogLevel::FATAL => "FATAL",
            LogLevel::INFO => "INFO",
            LogLevel::NONE => "NONE",
            LogLevel::TRACE => "TRACE",
            LogLevel::VERBOSE => "VERBOSE",
            LogLevel::WARNING => "WARNING",
        }
    }

    /// The name of the level, as a string.
    pub fn to_string(&self) -> (text: String)
        ensures
            text@ == self.name_spec(),
    {
        self.name().to_owned()
    }
}

/// One log entry.
#[derive(Debug, PartialEq, Eq, Hash, Clone)]
pub struct Log<'a> {
    /// The session the entry belongs to.
    pub session_id: &'a str,
    /// When the entry was made.
    pub time: &'a str,
    /// How much the entry matters.
    pub level: LogLevel,
    /// The component that made the entry.
    pub component: &'a str,
    /// What happened.
    pub description: &'a str,
    /// The layout the entry is to be written in.
    pub format: LogFormat,
}

impl<'a> Log<'a> {
    /// The line that is written for the entry in the Common Log Format:
    /// six fields, each a name and a value, with tabs between them and a
    /// line feed at the end.
    pub open spec fn line_spec(&self) -> Seq<char> {
        "SessionID="@ + self.session_id@ + "\tTimestamp="@ + self.time@ + "\tDescription="@
            + self.description@ + "\tLevel="@ + self.level.name_spec() + "\tComponent="@
            + self.component@ + "\tFormat="@ + self.format.name_spec() + "\n"@
    }

    /// An entry made of the six given fields.
    pub fn new(
        session_id: &'a str,
        time: &'a str,
        level: LogLevel,
        component: &'a str,
        description: &'a str,
        format: LogFormat,
    ) -> (entry: Self)
        ensures
            entry == (Log { session_id, time, level, component, description, format }),
    {
        Self { session_id, time, level, component, description, format }
    }

    /// The line for the entry, or the error that its layout is not
    /// supported: only the Common Log Format is.
    pub fn line(&self) -> (res: Result<String, CustomError>)
        ensures
            self.format == LogFormat::CLF ==> (res matches Ok(text) && text@ == self.line_spec()),
            self.format != LogFormat::CLF ==> (res matches Err(e) && e.text()
                == "Unsupported log format"@),
    {
        match self.format {
            LogFormat::CLF => {
                let mut text = "SessionID=".to_owned();
                text.append(self.session_id);
                text.append("\tTimestamp=");
                text.append(self.time);
                text.append("\tDescription=");
                text.append(self.description);
                text.append("\tLevel=");
                text.append(self.level.name());
                text.append("\tComponent=");
                text.append(self.component);
                text.append("\tFormat=");
                text.append(self.format.name());
                text.append("\n");
                Ok(text)
            },
            _ => Err(CustomError::new("Unsupported log format")),
        }
    }

    /// Writes the entry's line to `file` and flushes it. An entry in a
    /// layout that is not supported is refused before anything is written;
    /// apart from that the outcome is the sink's.
    pub fn log<T: CustomWrite>(&self, file: &mut T) -> (res: Result<(), CustomError>)
        ensures
            self.format != LogFormat::CLF ==> (res matches Err(e) && e.text()
                == "Unsupported log format"@),
    {
        let text = match self.line() {
            Ok(text) => text,
            Err(e) => {
                return Err(e);
            },
        };
        match file.write_str(text.as_str()) {
            Ok(_) => file.custom_flush(),
            Err(e) => Err(e),
        }
    }
}

impl<'a> Default for Log<'a> {
    fn default() -> (entry: Self)
        ensures
            entry.level == LogLevel::INFO,
            entry.format == LogFormat::CLF,
            entry.session_id@ == ""@,
            entry.time@ == ""@,
            entry.component@ == ""@,
            entry.description@ == ""@,
    {
        Self {
            session_id: "",
            time: "",
            level: LogLevel::INFO,
            component: "",
            description: "",
            format: LogFormat::CLF,
        }
    }
}

} // verus!
