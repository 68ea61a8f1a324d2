//! Message formatters: how a line is built from a logger's name, a level's
//! display text and the message, and how a line is marked when it is handed
//! on to another logger.

use vstd::prelude::*;
use vstd::string::*;
use crate::text::{bracket, bracketed};

verus! {

/// `[name] -- LEVEL: message`
pub open spec fn simple_message(name: Seq<char>, level: Seq<char>, message: Seq<char>) -> Seq<
    char,
> {
    bracketed(name) + " -- "@ + level + ": "@ + message
}

/// `[name] (stamp) -- LEVEL: message`
pub open spec fn stamped_message(
    name: Seq<char>,
    stamp: Seq<char>,
    level: Seq<char>,
    message: Seq<char>,
) -> Seq<char> {
    bracketed(name) + " ("@ + stamp + ") -- "@ + level + ": "@ + message
}

/// `[name] from line`: the mark a fan-out logger puts on a line for `name`.
pub open spec fn relayed_line(name: Seq<char>, line: Seq<char>) -> Seq<char> {
    bracketed(name) + " from "@ + line
}

/// `[name] defaulting from line`: the mark on a line that reached `name`
/// because its own logger does not exist.
pub open spec fn defaulted_line(name: Seq<char>, line: Seq<char>) -> Seq<char> {
    bracketed(name) + " defaulting from "@ + line
}

/// Trait for things that can format logging messages.
///
/// Every operation is a function of its arguments: `stamp` is the time of
/// day as text, read once by whoever asks for the line, so that a formatter
/// that prints the time needs no clock of its own.
pub trait MessageFormatter: Send + Sync {
    /// What `format_message` returns.
    spec fn message_text(
        &self,
        logger_name: Seq<char>,
        level_string: Seq<char>,
        message: Seq<char>,
        stamp: Seq<char>,
    ) -> Seq<char>;

    /// What `add_logger_name_to_multi_message` returns.
    spec fn multi_text(&self, logger_name: Seq<char>, formatted: Seq<char>) -> Seq<char>;

    /// What `add_defaulting_name_to_message` returns.
    spec fn defaulting_text(&self, default_logger_name: Seq<char>, formatted: Seq<char>) -> Seq<
        char,
    >;

    /// Format a standard message.
    fn format_message(
        &self,
        logger_name: &str,
        level_string: &str,
        message: &str,
        stamp: &str,
    ) -> (text: String)
        ensures
            text@ == self.message_text(logger_name@, level_string@, message@, stamp@),
    ;

    /// Format for messages being sent onward by a multi-logger.
    /// `logger_name` is the name of the next logger, `formatted_multi_msg`
    /// the line as the multi-logger's `format_message` made it.
    fn add_logger_name_to_multi_message(&self, logger_name: &str, formatted_multi_msg: &str) -> (text:
        String)
        ensures
            text@ == self.multi_text(logger_name@, formatted_multi_msg@),
    ;

    /// Format for messages that go to the default logger because the one
    /// they were meant for does not exist.
    fn add_defaulting_name_to_message(&self, default_logger_name: &str, formatted_msg: &str) -> (text:
        String)
        ensures
            text@ == self.defaulting_text(default_logger_name@, formatted_msg@),
    ;
}

/// Writes `[name] from line`.
pub fn relay_line(logger_name: &str, line: &str) -> (text: String)
    ensures
        text@ == relayed_line(logger_name@, line@),
{
    let mut text = bracket(logger_name);
    text.append(" from ");
    text.append(line);
    text
}

/// Writes `[name] defaulting from line`.
pub fn default_line(logger_name: &str, line: &str) -> (text: String)
    ensures
        text@ == defaulted_line(logger_name@, line@),
{
    let mut text = bracket(logger_name);
    text.append(" defaulting from ");
    text.append(line);
    text
}

/// Formatter that prints no time.
#[derive(Clone, Copy)]
pub struct SimpleMessageFormatter;

impl MessageFormatter for SimpleMessageFormatter {
    open spec fn message_text(
        &self,
        logger_name: Seq<char>,
        level_string: Seq<char>,
        message: Seq<char>,
        stamp: Seq<char>,
    ) -> Seq<char> {
        simple_message(logger_name, level_string, message)
    }

    open spec fn multi_text(&self, logger_name: Seq<char>, formatted: Seq<char>) -> Seq<char> {
        relayed_line(logger_name, formatted)
    }

    open spec fn defaulting_text(&self, default_logger_name: Seq<char>, formatted: Seq<char>) -> Seq<
        char,
    > {
        defaulted_line(default_logger_name, formatted)
    }

    fn format_message(
        &self,
        logger_name: &str,
        level_string: &str,
        message: &str,
        stamp: &str,
    ) -> (text: String) {
        let mut text = bracket(logger_name);
        text.append(" -- ");
        text.append(level_string);
        text.append(": ");
        text.append(message);
        text
    }

    fn add_logger_name_to_multi_message(&self, logger_name: &str, formatted_multi_msg: &str) -> (text:
        String) {
        relay_line(logger_name, formatted_multi_msg)
    }

    fn add_defaulting_name_to_message(&self, default_logger_name: &str, formatted_msg: &str) -> (text:
        String) {
        default_line(default_logger_name, formatted_msg)
    }
}

/// Formatter that prints the time of day after the logger's name, as
/// RFC 822 writes it with a numeric zone.
#[derive(Clone, Copy)]
pub struct ZuluTimeMessageFormatter;

impl MessageFormatter for ZuluTimeMessageFormatter {
    open spec fn message_text(
        &self,
        logger_name: Seq<char>,
        level_string: Seq<char>,
        message: Seq<char>,
        stamp: Seq<char>,
    ) -> Seq<char> {
        stamped_message(logger_name, stamp, level_string, message)
    }

    open spec fn multi_text(&self, logger_name: Seq<char>, formatted: Seq<char>) -> Seq<char> {
        relayed_line(logger_name, formatted)
    }

    open spec fn defaulting_text(&self, default_logger_name: Seq<char>, formatted: Seq<char>) -> Seq<
        char,
    > {
        defaulted_line(default_logger_name, formatted)
    }

    fn format_message(
        &self,
        logger_name: &str,
        level_string: &str,
        message: &str,
        stamp: &str,
    ) -> (text: String) {
        let mut text = bracket(logger_name);
        text.append(" (");
        text.append(stamp);
        text.append(") -- ");
        text.append(level_string);
        text.append(": ");
        text.append(message);
        text
    }

    fn add_logger_name_to_multi_message(&self, logger_name: &str, formatted_multi_msg: &str) -> (text:
        String) {
        relay_line(logger_name, formatted_multi_msg)
    }

    fn add_defaulting_name_to_message(&self, default_logger_name: &str, formatted_msg: &str) -> (text:
        String) {
        default_line(default_logger_name, formatted_msg)
    }
}

/// Formats messages as the formatter inside it does, and hands a line on
/// to another logger without any mark.
pub struct NoForwardingIndicationFormatter<T>(pub T) where T: MessageFormatter;

impl<F> MessageFormatter for NoForwardingIndicationFormatter<F> where F: MessageFormatter {
    open spec fn message_text(
        &self,
        logger_name: Seq<char>,
        level_string: Seq<char>,
        message: Seq<char>,
        stamp: Seq<char>,
    ) -> Seq<char> {
        self.0.message_text(logger_name, level_string, message, stamp)
    }

    open spec fn multi_text(&self, logger_name: Seq<char>, formatted: Seq<char>) -> Seq<char> {
        formatted
    }

    open spec fn defaulting_text(&self, default_logger_name: Seq<char>, formatted: Seq<char>) -> Seq<
        char,
    > {
        formatted
    }

    fn format_message(
        &self,
        logger_name: &str,
        level_string: &str,
        message: &str,
        stamp: &str,
    ) -> (text: String) {
        self.0.format_message(logger_name, level_string, message, stamp)
    }

    fn add_logger_name_to_multi_message(&self, logger_name: &str, formatted_multi_msg: &str) -> (text:
        String) {
        String::from_str(formatted_multi_msg)
    }

    fn add_defaulting_name_to_message(&self, default_logger_name: &str, formatted_msg: &str) -> (text:
        String) {
        String::from_str(formatted_msg)
    }
}

/// Formatter that prints no time, for use where none was chosen.
#[derive(Clone, Copy)]
pub struct DefaultMessageFormatter;

impl MessageFormatter for DefaultMessageFormatter {
    open spec fn message_text(
        &self,
        logger_name: Seq<char>,
        level_string: Seq<char>,
        message: Seq<char>,
        stamp: Seq<char>,
    ) -> Seq<char> {
        simple_message(logger_name, level_string, message)
    }

    open spec fn multi_text(&self, logger_name: Seq<char>, formatted: Seq<char>) -> Seq<char> {
        relayed_line(logger_name, formatted)
    }

    open spec fn defaulting_text(&self, default_logger_name: Seq<char>, formatted: Seq<char>) -> Seq<
        char,
    > {
        defaulted_line(default_logger_name, formatted)
    }

    fn format_message(
        &self,
        logger_name: &str,
        level_string: &str,
        message: &str,
        stamp: &str,
    ) -> (text: String) {
        SimpleMessageFormatter.format_message(logger_name, level_string, message, stamp)
    }

    fn add_logger_name_to_multi_message(&self, logger_name: &str, formatted_multi_msg: &str) -> (text:
        String) {
        relay_line(logger_name, formatted_multi_msg)
    }

    fn add_defaulting_name_to_message(&self, default_logger_name: &str, formatted_msg: &str) -> (text:
        String) {
        default_line(default_logger_name, formatted_msg)
    }
}

/// A formatter that may be missing: `None` formats as
/// [`DefaultMessageFormatter`] does.
impl<MF: MessageFormatter> MessageFormatter for Option<MF> {
    open spec fn message_text(
        &self,
        logger_name: Seq<char>,
        level_string: Seq<char>,
        message: Seq<char>,
        stamp: Seq<char>,
    ) -> Seq<char> {
        match self {
            Some(mf) => mf.message_text(logger_name, level_string, message, stamp),
            None => simple_message(logger_name, level_string, message),
        }
    }

    open spec fn multi_text(&self, logger_name: Seq<char>, formatted: Seq<char>) -> Seq<char> {
        match self {
            Some(mf) => mf.multi_text(logger_name, formatted),
            None => relayed_line(logger_name, formatted),
        }
    }

    open spec fn defaulting_text(&self, default_logger_name: Seq<char>, formatted: Seq<char>) -> Seq<
        char,
    > {
        match self {
            Some(mf) => mf.defaulting_text(default_logger_name, formatted),
            None => defaulted_line(default_logger_name, formatted),
        }
    }

    fn format_message(
        &self,
        logger_name: &str,
        level_string: &str,
        message: &str,
        stamp: &str,
    ) -> (text: String) {
        match self {
            Some(mf) => mf.format_message(logger_name, level_string, message, stamp),
            None => {
                let dmf = DefaultMessageFormatter;
                dmf.format_message(logger_name, level_string, message, stamp)
            },
        }
    }

    fn add_logger_name_to_multi_message(&self, logger_name: &str, formatted_multi_msg: &str) -> (text:
        String) {
        match self {
            Some(mf) => mf.add_logger_name_to_multi_message(logger_name, formatted_multi_msg),
            None => {
                let dmf = DefaultMessageFormatter;
                dmf.add_logger_name_to_multi_message(logger_name, formatted_multi_msg)
            },
        }
    }

    fn add_defaulting_name_to_message(&self, default_logger_name: &str, formatted_msg: &str) -> (text:
        String) {
        match self {
            Some(mf) => mf.add_defaulting_name_to_message(default_logger_name, formatted_msg),
            None => {
                let dmf = DefaultMessageFormatter;
                dmf.add_defaulting_name_to_message(default_logger_name, formatted_msg)
            },
        }
    }
}

/// The formatters of this library as one type, so that the loggers of one
/// registry can each have another of them.
#[derive(Clone, Copy, Debug, PartialEq, Eq)]
pub enum BasicFormatter {
    /// As [`SimpleMessageFormatter`].
    Simple,
    /// As [`ZuluTimeMessageFormatter`].
    ZuluTime,
    /// As [`SimpleMessageFormatter`] inside a
    /// [`NoForwardingIndicationFormatter`].
    SimpleUnmarked,
    /// As [`ZuluTimeMessageFormatter`] inside a
    /// [`NoForwardingIndicationFormatter`].
    ZuluTimeUnmarked,
}

impl BasicFormatter {
    /// Whether messages carry the time of day.
    pub open spec fn stamps(&self) -> bool {
        *self is ZuluTime || *self is ZuluTimeUnmarked
    }

    /// Whether lines that are handed on are marked.
    pub open spec fn marks(&self) -> bool {
        *self is Simple || *self is ZuluTime
    }
}

impl MessageFormatter for BasicFormatter {
    open spec fn message_text(
        &self,
        logger_name: Seq<char>,
        level_string: Seq<char>,
        message: Seq<char>,
        stamp: Seq<char>,
    ) -> Seq<char> {
        if self.stamps() {
            stamped_message(logger_name, stamp, level_string, message)
        } else {
            simple_message(logger_name, level_string, message)
        }
    }

    open spec fn multi_text(&self, logger_name: Seq<char>, formatted: Seq<char>) -> Seq<char> {
        if self.marks() {
            relayed_line(logger_name, formatted)
        } else {
            formatted
        }
    }

    open spec fn defaulting_text(&self, default_logger_name: Seq<char>, formatted: Seq<char>) -> Seq<
        char,
    > {
        if self.marks() {
            defaulted_line(default_logger_name, formatted)
        } else {
            formatted
        }
    }

    fn format_message(
        &self,
        logger_name: &str,
        level_string: &str,
        message: &str,
        stamp: &str,
    ) -> (text: String) {
        match self {
            BasicFormatter::Simple | BasicFormatter::SimpleUnmarked => {
                SimpleMessageFormatter.format_message(logger_name, level_string, message, stamp)
            },
            BasicFormatter::ZuluTime | BasicFormatter::ZuluTimeUnmarked => {
                ZuluTimeMessageFormatter.format_message(logger_name, level_string, message, stamp)
            },
        }
    }

    fn add_logger_name_to_multi_message(&self, logger_name: &str, formatted_multi_msg: &str) -> (text:
        String) {
        match self {
            BasicFormatter::Simple | BasicFormatter::ZuluTime => relay_line(
                logger_name,
                formatted_multi_msg,
            ),
            BasicFormatter::SimpleUnmarked | BasicFormatter::ZuluTimeUnmarked => String::from_str(
                formatted_multi_msg,
            ),
        }
    }

    fn add_defaulting_name_to_message(&self, default_logger_name: &str, formatted_msg: &str) -> (text:
        String) {
        match self {
            BasicFormatter::Simple | BasicFormatter::ZuluTime => default_line(
                default_logger_name,
                formatted_msg,
            ),
            BasicFormatter::SimpleUnmarked | BasicFormatter::ZuluTimeUnmarked => String::from_str(
                formatted_msg,
            ),
        }
    }
}

/// The local date and time as text, in the form
/// `Thu, 22 Mar 2012 07:53:18 -0700`.
///
/// Calls `time::now` and prints the `Tm` it returns through `Tm::rfc822z`.
/// Nothing is claimed of the text: it is whatever the clock says.
#[verifier::external_body]
pub(crate) fn current_stamp() -> (stamp: String) {
    time::now().rfc822z().to_string()
}

/// Formats one message with the time of day in it, whatever the clock says.
pub fn format_message_now(logger_name: &str, level_string: &str, message: &str) -> (text: String)
    ensures
        exists|stamp: Seq<char>|
            text@ == stamped_message(logger_name@, stamp, level_string@, message@),
{
    let stamp = current_stamp();
    let text = ZuluTimeMessageFormatter.format_message(
        logger_name,
        level_string,
        message,
        stamp.as_str(),
    );
    assert(text@ == stamped_message(logger_name@, stamp@, level_string@, message@));
    text
}

/// The formatter a registry is usually started with:
/// `[name] -- LEVEL: message`.
pub fn new_basic_format_instance() -> (formatter: SimpleMessageFormatter)
    ensures
        formatter == SimpleMessageFormatter,
{
    SimpleMessageFormatter
}

} // verus!
