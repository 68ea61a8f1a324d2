//! The registry as mathematics: what it holds, what becomes of a line that
//! is sent to a logger, and what each command makes of it.

use vstd::prelude::*;
use crate::format::MessageFormatter;
use crate::level::{passes, LogLevel, DEBUG, DEFAULT, INFO, SEVERE, WARNING};
use crate::logger::{type_name_text, OutputView};
use crate::task::{DefaultLogTarget, EmissionView, PendingView, StepView};
use crate::text::decimal_text;

verus! {

/// The name of the logger that the registry reports its own troubles to.
pub const INTERNAL_LOGGER_NAME: &'static str = "Artifact Internal";

/// How many times one line may be handed from logger to logger: by a
/// fan-out, to the default logger, or as a report to the internal logger.
/// Past that the line is dropped, so that loggers that forward to each other
/// in a circle cannot keep the worker busy forever.
pub const MAX_HOPS: usize = 16;

/// [`INTERNAL_LOGGER_NAME`] as text.
pub open spec fn internal_name() -> Seq<char> {
    INTERNAL_LOGGER_NAME@
}

/// The registry as maps.
pub struct RegistryModel<F> {
    /// Each registered logger's level and output.
    pub loggers: Map<Seq<char>, (LogLevel, OutputView)>,
    /// The display text of the levels that were given one.
    pub level_strings: Map<LogLevel, Seq<char>>,
    /// The disabled names, each with whether attempts to use it are reported.
    pub disabled: Map<Seq<char>, bool>,
    /// The formatters of the loggers that were given one.
    pub formatters: Map<Seq<char>, F>,
    /// The formatter of every other logger.
    pub default_formatter: F,
    /// Where messages for missing loggers go.
    pub default_logger: DefaultLogTarget,
}

/// The formatter that `name` uses.
pub open spec fn formatter_for<F>(m: RegistryModel<F>, name: Seq<char>) -> F {
    if m.formatters.contains_key(name) {
        m.formatters[name]
    } else {
        m.default_formatter
    }
}

/// The display text of `level`: the registered one, else the number.
pub open spec fn level_text<F>(m: RegistryModel<F>, level: LogLevel) -> Seq<char> {
    if m.level_strings.contains_key(level) {
        m.level_strings[level]
    } else {
        decimal_text(level as nat)
    }
}

/// The line that logger `name` makes of `message`.
pub open spec fn formatted<F: MessageFormatter>(
    m: RegistryModel<F>,
    name: Seq<char>,
    level: LogLevel,
    message: Seq<char>,
    stamp: Seq<char>,
) -> Seq<char> {
    formatter_for(m, name).message_text(name, level_text(m, level), message, stamp)
}

/// The report that a message was meant for a logger that does not exist.
pub open spec fn missing_logger_text(name: Seq<char>) -> Seq<char> {
    "Can't log to the "@ + name + " logger, it doesn't exist."@
}

/// The report that the default logger itself does not exist.
pub open spec fn missing_default_text(name: Seq<char>) -> Seq<char> {
    "Default logger "@ + name + " doesn't exist."@
}

/// What is written when `line`, at `level`, is sent to logger `name` and
/// may still be handed on `depth` times.
///
/// A disabled name swallows the line. A registered logger takes it if the
/// level is at most its own: a console or file logger writes it, a fan-out
/// logger hands it to its targets in order. A line for a name that is
/// neither disabled nor registered goes the way of [`unrouted`].
pub open spec fn routed<F: MessageFormatter>(
    m: RegistryModel<F>,
    name: Seq<char>,
    level: LogLevel,
    line: Seq<char>,
    stamp: Seq<char>,
    depth: nat,
) -> Seq<EmissionView>
    decreases depth, 0nat, 0nat,
{
    if m.disabled.contains_key(name) {
        Seq::empty()
    } else if m.loggers.contains_key(name) {
        if passes(level, m.loggers[name].0) {
            match m.loggers[name].1 {
                OutputView::StdoutLog => seq![EmissionView::Stdout(line)],
                OutputView::StderrLog => seq![EmissionView::Stderr(line)],
                OutputView::FileLog(path) => seq![EmissionView::File(path, line)],
                OutputView::MultiLog(targets) => if depth == 0 {
                    Seq::empty()
                } else {
                    fanned(m, name, targets, 0, level, line, stamp, (depth - 1) as nat)
                },
            }
        } else {
            Seq::empty()
        }
    } else if depth == 0 {
        Seq::empty()
    } else {
        unrouted(m, name, level, line, stamp, (depth - 1) as nat)
    }
}

/// What is written when the fan-out logger `from` hands `line` to its
/// targets from the one at `next` on: each target gets the line as
/// `from`'s formatter marks it for that target, and deals with it as with
/// any line sent to it.
pub open spec fn fanned<F: MessageFormatter>(
    m: RegistryModel<F>,
    from: Seq<char>,
    targets: Seq<Seq<char>>,
    next: nat,
    level: LogLevel,
    line: Seq<char>,
    stamp: Seq<char>,
    depth: nat,
) -> Seq<EmissionView>
    decreases depth, 1nat, targets.len() - next,
{
    if next >= targets.len() {
        Seq::empty()
    } else {
        routed(
            m,
            targets[next as int],
            level,
            formatter_for(m, from).multi_text(targets[next as int], line),
            stamp,
            depth,
        ) + fanned(m, from, targets, next + 1, level, line, stamp, depth)
    }
}

/// What is written when `line` was sent to `name`, which is neither
/// registered nor disabled.
///
/// Without a default logger the internal logger gets a warning. With one,
/// the line goes there, marked or not; but if `name` is the default logger
/// itself, the internal logger gets a severe report instead.
pub open spec fn unrouted<F: MessageFormatter>(
    m: RegistryModel<F>,
    name: Seq<char>,
    level: LogLevel,
    line: Seq<char>,
    stamp: Seq<char>,
    depth: nat,
) -> Seq<EmissionView>
    decreases depth, 2nat, 0nat,
{
    match m.default_logger {
        DefaultLogTarget::NoDefault => routed(
            m,
            internal_name(),
            WARNING,
            formatted(m, internal_name(), WARNING, missing_logger_text(name), stamp),
            stamp,
            depth,
        ),
        DefaultLogTarget::LogToTarget(target) => if target@ == name {
            routed(
                m,
                internal_name(),
                SEVERE,
                formatted(m, internal_name(), SEVERE, missing_default_text(name), stamp),
                stamp,
                depth,
            )
        } else {
            routed(
                m,
                target@,
                level,
                formatter_for(m, target@).defaulting_text(target@, line),
                stamp,
                depth,
            )
        },
        DefaultLogTarget::LogToTargetNoIndicator(target) => if target@ == name {
            routed(
                m,
                internal_name(),
                SEVERE,
                formatted(m, internal_name(), SEVERE, missing_default_text(name), stamp),
                stamp,
                depth,
            )
        } else {
            routed(m, target@, level, line, stamp, depth)
        },
    }
}

/// What is written when `message` is logged at `level` on logger `name`:
/// the logger's formatter makes the line, which is then sent to the logger.
pub open spec fn submitted<F: MessageFormatter>(
    m: RegistryModel<F>,
    name: Seq<char>,
    level: LogLevel,
    message: Seq<char>,
    stamp: Seq<char>,
    depth: nat,
) -> Seq<EmissionView> {
    routed(m, name, level, formatted(m, name, level, message, stamp), stamp, depth)
}

/// What is written when the registry reports `message` at `level`.
pub open spec fn reported<F: MessageFormatter>(
    m: RegistryModel<F>,
    level: LogLevel,
    message: Seq<char>,
    stamp: Seq<char>,
) -> Seq<EmissionView> {
    submitted(m, internal_name(), level, message, stamp, MAX_HOPS as nat)
}

/// Whether some registered logger writes to the file at `path`.
pub open spec fn shares_file<F>(m: RegistryModel<F>, path: Seq<char>) -> bool {
    exists|name: Seq<char>|
        m.loggers.contains_key(name) && (#[trigger] m.loggers[name]).1 == OutputView::FileLog(path)
}

/// What a command makes of the registry, and what its owner does next.
pub struct Outcome<F> {
    pub model: RegistryModel<F>,
    pub step: StepView,
}

/// The registry with `name` registered at `level` for `output`.
pub open spec fn with_logger<F>(
    m: RegistryModel<F>,
    name: Seq<char>,
    level: LogLevel,
    output: OutputView,
) -> RegistryModel<F> {
    RegistryModel { loggers: m.loggers.insert(name, (level, output)), ..m }
}

/// The registry without a logger under `name`.
pub open spec fn without_logger<F>(m: RegistryModel<F>, name: Seq<char>) -> RegistryModel<F> {
    RegistryModel { loggers: m.loggers.remove(name), ..m }
}

/// The report that a name is registered already.
pub open spec fn reregister_text(name: Seq<char>) -> Seq<char> {
    "Cannot re-register the "@ + name + " logger."@
}

/// The report that a disabled name was to be registered.
pub open spec fn rejected_text(name: Seq<char>) -> Seq<char> {
    "An attempt to register a logger for name "@ + name
        + " was rejected as that name is disabled."@
}

/// The report that a log file could not be created.
pub open spec fn no_file_text(path: Seq<char>) -> Seq<char> {
    "Could not create log file "@ + path
}

/// The report that a logger that does not exist was redirected.
pub open spec fn redirect_missing_text() -> Seq<char> {
    "Attempted to redirect non-existant logger"@
}

/// The report that a logger in use was disabled.
pub open spec fn removed_text(kind: Seq<char>, name: Seq<char>) -> Seq<char> {
    kind + " "@ + name + " has been removed and disabled. Logger was in use."@
}

/// The report that a name without a logger was disabled.
pub open spec fn unused_text(name: Seq<char>) -> Seq<char> {
    "Logger name "@ + name + " has been disabled. Logger was not in use."@
}

/// Registering `name`, which is neither registered nor disabled, on the
/// file at `path`: at once if a registered logger writes there already, so
/// that the two share the file; else the file has to be created first.
pub open spec fn added_on_file<F>(
    m: RegistryModel<F>,
    name: Seq<char>,
    level: LogLevel,
    path: Seq<char>,
) -> Outcome<F> {
    if shares_file(m, path) {
        Outcome {
            model: with_logger(m, name, level, OutputView::FileLog(path)),
            step: StepView::Continue(Seq::empty()),
        }
    } else {
        Outcome {
            model: m,
            step: StepView::AwaitFile(
                Seq::empty(),
                PendingView { name: name, level: level, path: path },
            ),
        }
    }
}

/// Why `name` cannot be registered, as what is written about it: a name
/// that is registered is reported; a disabled one is reported if it was
/// disabled with reports. `None` if the name is free.
pub open spec fn refused<F: MessageFormatter>(
    m: RegistryModel<F>,
    name: Seq<char>,
    stamp: Seq<char>,
) -> Option<Seq<EmissionView>> {
    if m.loggers.contains_key(name) {
        Some(reported(m, INFO, reregister_text(name), stamp))
    } else if m.disabled.contains_key(name) {
        Some(
            if m.disabled[name] {
                reported(m, DEBUG, rejected_text(name), stamp)
            } else {
                Seq::empty()
            },
        )
    } else {
        None
    }
}

/// Registering `name`.
///
/// A name that is registered or disabled stays as it is, as [`refused`]
/// says. Otherwise the logger is registered, unless it is to write to a
/// file that no registered logger writes to: then the file has to be
/// created first, and the registry waits.
pub open spec fn added<F: MessageFormatter>(
    m: RegistryModel<F>,
    name: Seq<char>,
    level: LogLevel,
    output: OutputView,
    stamp: Seq<char>,
) -> Outcome<F> {
    match refused(m, name, stamp) {
        Some(written) => Outcome { model: m, step: StepView::Continue(written) },
        None => match output {
            OutputView::FileLog(path) => added_on_file(m, name, level, path),
            _ => Outcome {
                model: with_logger(m, name, level, output),
                step: StepView::Continue(Seq::empty()),
            },
        },
    }
}

/// Settling a registration that waited for its file. If the file could not
/// be created, that is reported. If it was, the logger is registered on
/// it, unless its name was registered or disabled in the meantime, as
/// [`refused`] says.
pub open spec fn settled<F: MessageFormatter>(
    m: RegistryModel<F>,
    pending: PendingView,
    created: bool,
    stamp: Seq<char>,
) -> Outcome<F> {
    if !created {
        Outcome {
            model: m,
            step: StepView::Continue(reported(m, SEVERE, no_file_text(pending.path), stamp)),
        }
    } else {
        match refused(m, pending.name, stamp) {
            Some(written) => Outcome { model: m, step: StepView::Continue(written) },
            None => Outcome {
                model: with_logger(
                    m,
                    pending.name,
                    pending.level,
                    OutputView::FileLog(pending.path),
                ),
                step: StepView::Continue(Seq::empty()),
            },
        }
    }
}

/// No disabled name has a logger.
pub open spec fn consistent<F>(m: RegistryModel<F>) -> bool {
    forall|name: Seq<char>| m.disabled.contains_key(name) ==> !m.loggers.contains_key(name)
}

/// The level a redirected logger gets: the one asked for, else the one it
/// had, else the default.
pub open spec fn redirect_level<F>(
    m: RegistryModel<F>,
    name: Seq<char>,
    level: Option<LogLevel>,
) -> LogLevel {
    match level {
        Some(l) => l,
        None => if m.loggers.contains_key(name) {
            m.loggers[name].0
        } else {
            DEFAULT
        },
    }
}

/// Redirecting `name` to `output`.
///
/// The logger is taken out. If there was none, that is reported first.
/// Then the name is registered anew, as [`added`] says, at the level
/// [`redirect_level`] gives.
pub open spec fn redirected<F: MessageFormatter>(
    m: RegistryModel<F>,
    name: Seq<char>,
    level: Option<LogLevel>,
    output: OutputView,
    stamp: Seq<char>,
) -> Outcome<F> {
    let bare = without_logger(m, name);
    let again = added(bare, name, redirect_level(m, name, level), output, stamp);
    if m.loggers.contains_key(name) {
        again
    } else {
        let warning = reported(bare, WARNING, redirect_missing_text(), stamp);
        match again.step {
            StepView::Continue(written) => Outcome {
                model: again.model,
                step: StepView::Continue(warning + written),
            },
            StepView::AwaitFile(written, pending) => Outcome {
                model: again.model,
                step: StepView::AwaitFile(warning + written, pending),
            },
            StepView::Stop => again,
        }
    }
}

/// Disabling `name`.
///
/// Its logger, if any, is taken out and the name is put among the disabled
/// ones. With `audit` the registry then reports whether a logger was in
/// use, and of which kind.
pub open spec fn disabled_outcome<F: MessageFormatter>(
    m: RegistryModel<F>,
    name: Seq<char>,
    audit: bool,
    stamp: Seq<char>,
) -> Outcome<F> {
    let after = RegistryModel {
        loggers: m.loggers.remove(name),
        disabled: m.disabled.insert(name, audit),
        ..m
    };
    let written = if !audit {
        Seq::empty()
    } else if m.loggers.contains_key(name) {
        reported(after, DEBUG, removed_text(type_name_text(m.loggers[name].1), name), stamp)
    } else {
        reported(after, DEBUG, unused_text(name), stamp)
    };
    Outcome { model: after, step: StepView::Continue(written) }
}

/// Whether a message at `level` for `name` would be of use: a registered
/// logger wants what passes its level, and a missing one counts if there
/// is a default logger.
pub open spec fn log_enabled<F>(m: RegistryModel<F>, name: Seq<char>, level: LogLevel) -> bool {
    if m.loggers.contains_key(name) {
        passes(level, m.loggers[name].0)
    } else {
        !(m.default_logger is NoDefault)
    }
}

} // verus!
