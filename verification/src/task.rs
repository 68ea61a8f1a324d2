//! What travels to the worker and what comes back from it: commands, the
//! lines it wants written, and the one question it asks in between.

use vstd::prelude::*;
use crate::format::MessageFormatter;
use crate::level::LogLevel;
use crate::logger::LoggerOutput;

verus! {

/// What happens to a message for a logger that does not exist.
#[derive(PartialEq, Eq, Debug)]
pub enum DefaultLogTarget {
    /// The worker reports that the logger is missing.
    NoDefault,
    /// The message goes to this logger, marked as defaulting.
    LogToTarget(String),
    /// The message goes to this logger as it is.
    LogToTargetNoIndicator(String),
}

/// A command for the worker.
pub enum LoggerMessage<F: MessageFormatter> {
    /// Stop: the worker takes no further command.
    PoisonPill,
    LogMessage(String, LogLevel, String),
    NewLogger(String, LogLevel, LoggerOutput),
    RedirectLogger(String, Option<LogLevel>, LoggerOutput),
    RegisterLevelString(LogLevel, String),
    Disable(String, bool),
    SetFormatter(String, F),
    SetDefaultFormatter(F),
    SetDefaultLogTarget(DefaultLogTarget),
}

/// One line for one output, without the line break that ends it.
#[derive(Debug, Clone, PartialEq, Eq)]
pub enum Emission {
    Stdout(String),
    Stderr(String),
    /// The file's path, then the line.
    File(String, String),
}

/// An [`Emission`] as plain text.
pub enum EmissionView {
    Stdout(Seq<char>),
    Stderr(Seq<char>),
    File(Seq<char>, Seq<char>),
}

impl View for Emission {
    type V = EmissionView;

    open spec fn view(&self) -> EmissionView {
        match self {
            Emission::Stdout(line) => EmissionView::Stdout(line@),
            Emission::Stderr(line) => EmissionView::Stderr(line@),
            Emission::File(path, line) => EmissionView::File(path@, line@),
        }
    }
}

/// The lines in `emissions`, in order.
pub open spec fn lines(emissions: Seq<Emission>) -> Seq<EmissionView> {
    emissions.map_values(|e: Emission| e@)
}

/// An empty list of lines.
pub fn nothing_written() -> (written: Vec<Emission>)
    ensures
        lines(written@) == Seq::<EmissionView>::empty(),
{
    let written: Vec<Emission> = Vec::new();
    assert(lines(written@) =~= Seq::<EmissionView>::empty());
    written
}

/// A registration that waits for its file: no logger writes to `path` yet,
/// so the file has to be created before `name` can be registered.
#[derive(Debug, Clone, PartialEq, Eq)]
pub struct PendingFile {
    pub name: String,
    pub level: LogLevel,
    pub path: String,
}

/// A [`PendingFile`] as plain text.
pub struct PendingView {
    pub name: Seq<char>,
    pub level: LogLevel,
    pub path: Seq<char>,
}

impl View for PendingFile {
    type V = PendingView;

    open spec fn view(&self) -> PendingView {
        PendingView { name: self.name@, level: self.level, path: self.path@ }
    }
}

/// What the worker's owner does after a command.
pub enum Step {
    /// Write these lines, in order, and take the next command.
    Continue(Vec<Emission>),
    /// Write these lines, in order, create the file, then tell the worker
    /// how that went.
    AwaitFile(Vec<Emission>, PendingFile),
    /// Take no further command.
    Stop,
}

/// Why the worker let go of a list of commands.
pub enum Halt {
    /// Every command was applied.
    Exhausted,
    /// The last command applied waits for this file.
    AwaitFile(PendingFile),
    /// The last command applied was the one to stop.
    Stopped,
}

/// A [`Halt`] as plain text.
pub enum HaltView {
    Exhausted,
    AwaitFile(PendingView),
    Stopped,
}

impl View for Halt {
    type V = HaltView;

    open spec fn view(&self) -> HaltView {
        match self {
            Halt::Exhausted => HaltView::Exhausted,
            Halt::AwaitFile(pending) => HaltView::AwaitFile(pending@),
            Halt::Stopped => HaltView::Stopped,
        }
    }
}

/// What the worker made of a list of commands.
pub struct Drained {
    /// The lines to write, in order.
    pub written: Vec<Emission>,
    /// How many commands were applied, from the first on.
    pub taken: usize,
    /// Why no more were.
    pub halt: Halt,
}

/// A [`Step`] as plain text.
pub enum StepView {
    Continue(Seq<EmissionView>),
    AwaitFile(Seq<EmissionView>, PendingView),
    Stop,
}

impl View for Step {
    type V = StepView;

    open spec fn view(&self) -> StepView {
        match self {
            Step::Continue(written) => StepView::Continue(lines(written@)),
            Step::AwaitFile(written, pending) => StepView::AwaitFile(lines(written@), pending@),
            Step::Stop => StepView::Stop,
        }
    }
}

/// The lines that a step asks to have written.
pub open spec fn step_lines(step: StepView) -> Seq<EmissionView> {
    match step {
        StepView::Continue(written) => written,
        StepView::AwaitFile(written, _) => written,
        StepView::Stop => Seq::empty(),
    }
}

/// The lines of two lists, one behind the other, are the lines of the two
/// lists joined.
pub proof fn lemma_lines_join(first: Seq<Emission>, second: Seq<Emission>)
    ensures
        lines(first + second) == lines(first) + lines(second),
{
    assert(lines(first + second) =~= lines(first) + lines(second));
}

} // verus!
