//! The client side: a logger is a name, and each thing asked of it is a
//! command for the worker.

use vstd::prelude::*;
use vstd::string::*;
use crate::format::MessageFormatter;
use crate::level::{LogLevel, CRITICAL, DEBUG, DEFAULT, INFO, SEVERE, VERBOSE, WARNING, WTF};
use crate::task::LoggerMessage;

verus! {

/// Indicates what kind of output stream a logger will use.
#[derive(Clone, PartialEq, Eq)]
pub enum LoggerOutput {
    /// Log to the file at this path. Loggers on one path share one file.
    /// Paths are compared as text, character by character: two spellings
    /// of one place in the file system are two paths here.
    FileLog(String),
    StdoutLog,
    StderrLog,
    /// Log to various other loggers.
    /// Any messages sent to this logger will be forwarded
    /// on to the loggers with the names given.
    /// Note that messages are filtered both by the level
    /// of this logger and the level of the sub loggers
    /// assigned to it.
    MultiLog(Vec<String>),
}

/// A [`LoggerOutput`] as plain text and lists.
pub enum OutputView {
    FileLog(Seq<char>),
    StdoutLog,
    StderrLog,
    MultiLog(Seq<Seq<char>>),
}

/// The names in `targets`, in order.
pub open spec fn names_of(targets: Seq<String>) -> Seq<Seq<char>> {
    targets.map_values(|t: String| t@)
}

impl View for LoggerOutput {
    type V = OutputView;

    open spec fn view(&self) -> OutputView {
        match self {
            LoggerOutput::FileLog(path) => OutputView::FileLog(path@),
            LoggerOutput::StdoutLog => OutputView::StdoutLog,
            LoggerOutput::StderrLog => OutputView::StderrLog,
            LoggerOutput::MultiLog(targets) => OutputView::MultiLog(names_of(targets@)),
        }
    }
}

/// The name of a kind of output, as diagnostics print it.
pub open spec fn type_name_text(output: OutputView) -> Seq<char> {
    match output {
        OutputView::StdoutLog => "StdoutLogger"@,
        OutputView::StderrLog => "StderrLogger"@,
        OutputView::FileLog(_) => "FileLogger"@,
        OutputView::MultiLog(_) => "MultiLogger"@,
    }
}

impl LoggerOutput {
    /// The name of this kind of output, as diagnostics print it.
    pub fn logger_type_name(&self) -> (name: &'static str)
        ensures
            name@ == type_name_text(self@),
    {
        match self {
            LoggerOutput::StdoutLog => "StdoutLogger",
            LoggerOutput::StderrLog => "StderrLogger",
            LoggerOutput::FileLog(_) => "FileLogger",
            LoggerOutput::MultiLog(_) => "MultiLogger",
        }
    }
}

/// A logger within the library.
/// This struct is somewhat similar to an address: it only stores the name
/// of the logger. What kind of logger it is and at what level it logs is
/// what the worker knows, from the commands that the methods here build.
#[derive(Debug, Clone, Eq, PartialEq)]
pub struct Logger {
    name: String,
}

impl View for Logger {
    type V = Seq<char>;

    closed spec fn view(&self) -> Seq<char> {
        self.name@
    }
}

impl Logger {
    /// The command that sets the formatter of every logger which has none
    /// of its own.
    pub fn set_default_formatter<F: MessageFormatter>(fmtr: F) -> (command: LoggerMessage<F>)
        ensures
            command == LoggerMessage::SetDefaultFormatter(fmtr),
    {
        LoggerMessage::SetDefaultFormatter(fmtr)
    }

    /// Creates a Logger instance, without a command that registers it.
    pub fn access(name: &str) -> (logger: Logger)
        ensures
            logger@ == name@,
    {
        Logger { name: String::from_str(name) }
    }

    /// The logger's name.
    pub fn name(&self) -> (name: &String)
        ensures
            name@ == self@,
    {
        &self.name
    }

    /// Creates a logger which will log to the given output at the default
    /// level, and the command that registers it.
    pub fn new<F: MessageFormatter>(name: &str, ty: LoggerOutput) -> (made: (Logger, LoggerMessage<F>))
        ensures
            made.0@ == name@,
            made.1 matches LoggerMessage::NewLogger(n, l, o) && n@ == name@ && l == DEFAULT && o
                == ty,
    {
        Logger::new_with_level(name, ty, DEFAULT)
    }

    /// Creates a logger for the given output which logs messages at or
    /// above the given level, and the command that registers it.
    pub fn new_with_level<F: MessageFormatter>(name: &str, ty: LoggerOutput, level: LogLevel) -> (made:
        (Logger, LoggerMessage<F>))
        ensures
            made.0@ == name@,
            made.1 matches LoggerMessage::NewLogger(n, l, o) && n@ == name@ && l == level && o
                == ty,
    {
        (Logger::access(name), LoggerMessage::NewLogger(String::from_str(name), level, ty))
    }

    /// The command that redirects this logger to a new output location and
    /// keeps its level.
    pub fn redirect<F: MessageFormatter>(&self, ty: LoggerOutput) -> (command: LoggerMessage<F>)
        ensures
            command matches LoggerMessage::RedirectLogger(n, l, o) && n@ == self@ && l.is_none()
                && o == ty,
    {
        LoggerMessage::RedirectLogger(self.name.clone(), None, ty)
    }

    /// The command that redirects this logger and changes its level.
    pub fn redirect_set_level<F: MessageFormatter>(&self, ty: LoggerOutput, level: LogLevel) -> (command:
        LoggerMessage<F>)
        ensures
            command matches LoggerMessage::RedirectLogger(n, l, o) && n@ == self@ && l == Some(
                level,
            ) && o == ty,
    {
        LoggerMessage::RedirectLogger(self.name.clone(), Some(level), ty)
    }

    /// The command that prevents use of this logger's name and removes any
    /// logger registered under it; the worker reports that it did.
    pub fn disable<F: MessageFormatter>(self) -> (command: LoggerMessage<F>)
        ensures
            command matches LoggerMessage::Disable(n, audit) && n@ == self@ && audit,
    {
        LoggerMessage::Disable(self.name, true)
    }

    /// As [`Logger::disable`], but the worker reports nothing.
    pub fn disable_without_logs<F: MessageFormatter>(self) -> (command: LoggerMessage<F>)
        ensures
            command matches LoggerMessage::Disable(n, audit) && n@ == self@ && !audit,
    {
        LoggerMessage::Disable(self.name, false)
    }

    /// The command that sets this logger's formatter.
    pub fn set_format<F: MessageFormatter>(&self, formatter: F) -> (command: LoggerMessage<F>)
        ensures
            command matches LoggerMessage::SetFormatter(n, f) && n@ == self@ && f == formatter,
    {
        LoggerMessage::SetFormatter(self.name.clone(), formatter)
    }

    /// The command that logs `message` at `level` on this logger.
    pub fn log<F: MessageFormatter>(&self, level: LogLevel, message: &str) -> (command:
        LoggerMessage<F>)
        ensures
            command matches LoggerMessage::LogMessage(n, l, m) && n@ == self@ && l == level && m@
                == message@,
    {
        LoggerMessage::LogMessage(self.name.clone(), level, String::from_str(message))
    }

    pub fn wtf<F: MessageFormatter>(&self, message: &str) -> (command: LoggerMessage<F>)
        ensures
            command matches LoggerMessage::LogMessage(n, l, m) && n@ == self@ && l == WTF && m@
                == message@,
    {
        self.log(WTF, message)
    }

    pub fn critical<F: MessageFormatter>(&self, message: &str) -> (command: LoggerMessage<F>)
        ensures
            command matches LoggerMessage::LogMessage(n, l, m) && n@ == self@ && l == CRITICAL
                && m@ == message@,
    {
        self.log(CRITICAL, message)
    }

    pub fn severe<F: MessageFormatter>(&self, message: &str) -> (command: LoggerMessage<F>)
        ensures
            command matches LoggerMessage::LogMessage(n, l, m) && n@ == self@ && l == SEVERE
                && m@ == message@,
    {
        self.log(SEVERE, message)
    }

    pub fn warning<F: MessageFormatter>(&self, message: &str) -> (command: LoggerMessage<F>)
        ensures
            command matches LoggerMessage::LogMessage(n, l, m) && n@ == self@ && l == WARNING
                && m@ == message@,
    {
        self.log(WARNING, message)
    }

    pub fn debug<F: MessageFormatter>(&self, message: &str) -> (command: LoggerMessage<F>)
        ensures
            command matches LoggerMessage::LogMessage(n, l, m) && n@ == self@ && l == DEBUG && m@
                == message@,
    {
        self.log(DEBUG, message)
    }

    pub fn info<F: MessageFormatter>(&self, message: &str) -> (command: LoggerMessage<F>)
        ensures
            command matches LoggerMessage::LogMessage(n, l, m) && n@ == self@ && l == INFO && m@
                == message@,
    {
        self.log(INFO, message)
    }

    pub fn verbose<F: MessageFormatter>(&self, message: &str) -> (command: LoggerMessage<F>)
        ensures
            command matches LoggerMessage::LogMessage(n, l, m) && n@ == self@ && l == VERBOSE
                && m@ == message@,
    {
        self.log(VERBOSE, message)
    }
}

} // verus!
