//! What holds of the registry whatever it contains.

use vstd::prelude::*;
use crate::format::MessageFormatter;
use crate::level::{LogLevel, DEFAULT, SEVERE, WARNING};
use crate::logger::OutputView;
use crate::model::{
    added, consistent, disabled_outcome, fanned, formatted, formatter_for, internal_name,
    log_enabled,
    missing_default_text, missing_logger_text, redirected, routed, settled, shares_file,
    submitted, unrouted, with_logger, RegistryModel, MAX_HOPS,
};
use crate::task::{
    DefaultLogTarget, EmissionView, HaltView, LoggerMessage, PendingView, StepView,
};
use crate::worker::{answer, applied, ran, served, served_all};

verus! {

/// The one line that a console or file output writes for `line`.
pub open spec fn written_to(output: OutputView, line: Seq<char>) -> Seq<EmissionView> {
    match output {
        OutputView::StdoutLog => seq![EmissionView::Stdout(line)],
        OutputView::StderrLog => seq![EmissionView::Stderr(line)],
        OutputView::FileLog(path) => seq![EmissionView::File(path, line)],
        OutputView::MultiLog(_) => Seq::empty(),
    }
}

/// Level filtering: a registered logger that is not disabled lets a line
/// through if and only if the line's level is at most its own. A line
/// above the logger's level writes nothing, whatever the output; a line at
/// or below it is written once by a console or file output.
pub proof fn law_level_filter<F: MessageFormatter>(
    m: RegistryModel<F>,
    name: Seq<char>,
    level: LogLevel,
    line: Seq<char>,
    stamp: Seq<char>,
    depth: nat,
)
    requires
        consistent(m),
        m.loggers.contains_key(name),
    ensures
        level > m.loggers[name].0 ==> routed(m, name, level, line, stamp, depth) == Seq::<
            EmissionView,
        >::empty(),
        level <= m.loggers[name].0 && !(m.loggers[name].1 is MultiLog) ==> routed(
            m,
            name,
            level,
            line,
            stamp,
            depth,
        ) == written_to(m.loggers[name].1, line) && routed(m, name, level, line, stamp, depth).len()
            == 1,
{
}

/// The query agrees with the filter: for a registered logger a message is
/// said to be of use if and only if its level passes the logger's, and a
/// line that is not of use writes nothing.
pub proof fn law_enabled_is_what_passes<F: MessageFormatter>(
    m: RegistryModel<F>,
    name: Seq<char>,
    level: LogLevel,
    line: Seq<char>,
    stamp: Seq<char>,
    depth: nat,
)
    requires
        consistent(m),
        m.loggers.contains_key(name),
    ensures
        log_enabled(m, name, level) <==> level <= m.loggers[name].0,
        !log_enabled(m, name, level) ==> routed(m, name, level, line, stamp, depth) == Seq::<
            EmissionView,
        >::empty(),
        log_enabled(m, name, level) && !(m.loggers[name].1 is MultiLog) ==> routed(
            m,
            name,
            level,
            line,
            stamp,
            depth,
        ).len() == 1,
{
}

/// A disabled name is silent: a line or a message sent to it writes
/// nothing at all, not even a report that the logger is missing.
pub proof fn law_disabled_is_silent<F: MessageFormatter>(
    m: RegistryModel<F>,
    name: Seq<char>,
    level: LogLevel,
    text: Seq<char>,
    stamp: Seq<char>,
    depth: nat,
)
    requires
        m.disabled.contains_key(name),
    ensures
        routed(m, name, level, text, stamp, depth) == Seq::<EmissionView>::empty(),
        submitted(m, name, level, text, stamp, depth) == Seq::<EmissionView>::empty(),
{
}

/// Disabling a name takes its logger away and puts the name among the
/// disabled ones.
pub proof fn law_disable_disables<F: MessageFormatter>(
    m: RegistryModel<F>,
    name: Seq<char>,
    audit: bool,
    stamp: Seq<char>,
)
    ensures
        disabled_outcome(m, name, audit, stamp).model.disabled.contains_key(name),
        !disabled_outcome(m, name, audit, stamp).model.loggers.contains_key(name),
{
}

/// A disabled name cannot be registered: the registry stays as it is and
/// asks for no file.
pub proof fn law_disabled_rejects_registration<F: MessageFormatter>(
    m: RegistryModel<F>,
    name: Seq<char>,
    level: LogLevel,
    output: OutputView,
    stamp: Seq<char>,
)
    requires
        m.disabled.contains_key(name),
    ensures
        added(m, name, level, output, stamp).model == m,
        added(m, name, level, output, stamp).step is Continue,
{
}

/// Disabling is permanent: no command, and no settling of a file, takes a
/// name out of the disabled ones.
pub proof fn law_disabled_stays<F: MessageFormatter>(
    m: RegistryModel<F>,
    name: Seq<char>,
    command: LoggerMessage<F>,
    pending: PendingView,
    created: bool,
    stamp: Seq<char>,
)
    requires
        m.disabled.contains_key(name),
    ensures
        applied(m, command, stamp).model.disabled.contains_key(name),
        settled(m, pending, created, stamp).model.disabled.contains_key(name),
{
}

/// No disabled name gets a logger: if none has one before a command or the
/// settling of a file, none has one after.
pub proof fn law_disabled_never_registered<F: MessageFormatter>(
    m: RegistryModel<F>,
    command: LoggerMessage<F>,
    pending: PendingView,
    created: bool,
    stamp: Seq<char>,
)
    requires
        consistent(m),
    ensures
        consistent(applied(m, command, stamp).model),
        consistent(settled(m, pending, created, stamp).model),
{
}

/// Disabled for good: however many commands follow, and however the files
/// they wait for are settled, a disabled name stays disabled and without a
/// logger.
pub proof fn law_disabled_for_good<F: MessageFormatter>(
    m: RegistryModel<F>,
    name: Seq<char>,
    commands: Seq<LoggerMessage<F>>,
    created: Seq<bool>,
    from: nat,
    stamp: Seq<char>,
)
    requires
        consistent(m),
        m.disabled.contains_key(name),
    ensures
        consistent(ran(m, commands, created, from, stamp).model),
        ran(m, commands, created, from, stamp).model.disabled.contains_key(name),
        !ran(m, commands, created, from, stamp).model.loggers.contains_key(name),
    decreases commands.len() - from,
{
    if from < commands.len() {
        let outcome = applied(m, commands[from as int], stamp);
        let first = served(m, commands[from as int], answer(created, from), stamp);
        assert(consistent(outcome.model));
        assert(outcome.model.disabled.contains_key(name));
        assert(consistent(first.model) && first.model.disabled.contains_key(name)) by {
            match outcome.step {
                StepView::AwaitFile(_, pending) => {
                    law_disabled_never_registered(
                        outcome.model,
                        commands[from as int],
                        pending,
                        answer(created, from),
                        stamp,
                    );
                    law_disabled_stays(
                        outcome.model,
                        name,
                        commands[from as int],
                        pending,
                        answer(created, from),
                        stamp,
                    );
                },
                _ => {},
            }
        }
        law_disabled_for_good(first.model, name, commands, created, from + 1, stamp);
    }
}

/// Fan-out: a fan-out logger hands a line that passes its own level to
/// each target in turn, marked for that target by the fan-out logger's
/// formatter, and each target deals with it as with any line sent to it,
/// its own level filter included. Here for two targets.
pub proof fn law_fan_out_pair<F: MessageFormatter>(
    m: RegistryModel<F>,
    name: Seq<char>,
    first: Seq<char>,
    second: Seq<char>,
    level: LogLevel,
    line: Seq<char>,
    stamp: Seq<char>,
    depth: nat,
)
    requires
        consistent(m),
        m.loggers.contains_key(name),
        m.loggers[name].1 == OutputView::MultiLog(seq![first, second]),
        level <= m.loggers[name].0,
        depth > 0,
    ensures
        routed(m, name, level, line, stamp, depth) == routed(
            m,
            first,
            level,
            formatter_for(m, name).multi_text(first, line),
            stamp,
            (depth - 1) as nat,
        ) + routed(
            m,
            second,
            level,
            formatter_for(m, name).multi_text(second, line),
            stamp,
            (depth - 1) as nat,
        ),
{
    let targets = seq![first, second];
    let d = (depth - 1) as nat;
    assert(targets[0] == first && targets[1] == second);
    assert(fanned(m, name, targets, 2, level, line, stamp, d) == Seq::<EmissionView>::empty());
    assert(fanned(m, name, targets, 1, level, line, stamp, d) =~= routed(
        m,
        second,
        level,
        formatter_for(m, name).multi_text(second, line),
        stamp,
        d,
    )) by {
        reveal_with_fuel(fanned, 2);
    }
    assert(fanned(m, name, targets, 0, level, line, stamp, d) == routed(
        m,
        first,
        level,
        formatter_for(m, name).multi_text(first, line),
        stamp,
        d,
    ) + fanned(m, name, targets, 1, level, line, stamp, d));
}

/// A fan-out logger's targets never see a line above the fan-out logger's
/// own level: nothing is written for it.
pub proof fn law_fan_out_filters_first<F: MessageFormatter>(
    m: RegistryModel<F>,
    name: Seq<char>,
    level: LogLevel,
    line: Seq<char>,
    stamp: Seq<char>,
    depth: nat,
)
    requires
        m.loggers.contains_key(name),
        m.loggers[name].1 is MultiLog,
        level > m.loggers[name].0,
    ensures
        routed(m, name, level, line, stamp, depth) == Seq::<EmissionView>::empty(),
{
}

/// File sharing: a logger that is registered on a path that some
/// registered logger writes to is registered at once, with no new file, and
/// what it lets through is written to the file at that very path.
pub proof fn law_shared_file<F: MessageFormatter>(
    m: RegistryModel<F>,
    name: Seq<char>,
    level: LogLevel,
    path: Seq<char>,
    msg_level: LogLevel,
    line: Seq<char>,
    stamp: Seq<char>,
    depth: nat,
)
    requires
        shares_file(m, path),
        !m.loggers.contains_key(name),
        !m.disabled.contains_key(name),
        msg_level <= level,
    ensures
        added(m, name, level, OutputView::FileLog(path), stamp).step == StepView::Continue(
            Seq::empty(),
        ),
        added(m, name, level, OutputView::FileLog(path), stamp).model == with_logger(
            m,
            name,
            level,
            OutputView::FileLog(path),
        ),
        routed(
            added(m, name, level, OutputView::FileLog(path), stamp).model,
            name,
            msg_level,
            line,
            stamp,
            depth,
        ) == seq![EmissionView::File(path, line)],
{
}

/// Two loggers on one file keep the order of their messages: a message
/// on the first followed by one on the second writes the first's line and
/// then the second's, both to the file at their common path.
pub proof fn law_shared_file_keeps_order<F: MessageFormatter>(
    m: RegistryModel<F>,
    path: Seq<char>,
    commands: Seq<LoggerMessage<F>>,
    created: Seq<bool>,
    stamp: Seq<char>,
)
    requires
        consistent(m),
        commands.len() == 2,
        commands[0] matches LoggerMessage::LogMessage(logger, level, _) && m.loggers.contains_key(
            logger@,
        ) && m.loggers[logger@].1 == OutputView::FileLog(path) && level <= m.loggers[logger@].0,
        commands[1] matches LoggerMessage::LogMessage(logger, level, _) && m.loggers.contains_key(
            logger@,
        ) && m.loggers[logger@].1 == OutputView::FileLog(path) && level <= m.loggers[logger@].0,
    ensures
        commands[0] matches LoggerMessage::LogMessage(first, first_level, first_message)
            && commands[1] matches LoggerMessage::LogMessage(second, second_level, second_message)
            && ran(m, commands, created, 0, stamp).written == seq![
            EmissionView::File(path, formatted(m, first@, first_level, first_message@, stamp)),
            EmissionView::File(path, formatted(m, second@, second_level, second_message@, stamp)),
        ],
{
    reveal_with_fuel(ran, 3);
    match (commands[0], commands[1]) {
        (
            LoggerMessage::LogMessage(first, first_level, first_message),
            LoggerMessage::LogMessage(second, second_level, second_message),
        ) => {
            let one = seq![
                EmissionView::File(path, formatted(m, first@, first_level, first_message@, stamp)),
            ];
            let two = seq![
                EmissionView::File(
                    path,
                    formatted(m, second@, second_level, second_message@, stamp),
                ),
            ];
            assert(applied(m, commands[0], stamp).step == StepView::Continue(one));
            assert(applied(m, commands[1], stamp).step == StepView::Continue(two));
            assert(ran(m, commands, created, 2, stamp).written == Seq::<EmissionView>::empty());
            assert(ran(m, commands, created, 1, stamp).written =~= two);
            assert(ran(m, commands, created, 0, stamp).written =~= one + two);
            assert(one + two =~= seq![one[0], two[0]]);
        },
        _ => {},
    }
}

/// Default logger: a line for a name that is neither registered nor
/// disabled goes to the default logger, marked by that logger's formatter
/// as defaulting, and is dealt with there at its own level.
pub proof fn law_default_with_indicator<F: MessageFormatter>(
    m: RegistryModel<F>,
    name: Seq<char>,
    level: LogLevel,
    line: Seq<char>,
    stamp: Seq<char>,
    depth: nat,
)
    requires
        !m.loggers.contains_key(name),
        !m.disabled.contains_key(name),
        m.default_logger matches DefaultLogTarget::LogToTarget(target) && target@ != name,
        depth > 0,
    ensures
        m.default_logger matches DefaultLogTarget::LogToTarget(target) && routed(
            m,
            name,
            level,
            line,
            stamp,
            depth,
        ) == routed(
            m,
            target@,
            level,
            formatter_for(m, target@).defaulting_text(target@, line),
            stamp,
            (depth - 1) as nat,
        ),
{
}

/// Silent default logger: a line for a name that is neither registered
/// nor disabled goes to the default logger as it is.
pub proof fn law_default_without_indicator<F: MessageFormatter>(
    m: RegistryModel<F>,
    name: Seq<char>,
    level: LogLevel,
    line: Seq<char>,
    stamp: Seq<char>,
    depth: nat,
)
    requires
        !m.loggers.contains_key(name),
        !m.disabled.contains_key(name),
        m.default_logger matches DefaultLogTarget::LogToTargetNoIndicator(target) && target@
            != name,
        depth > 0,
    ensures
        m.default_logger matches DefaultLogTarget::LogToTargetNoIndicator(target) && routed(
            m,
            name,
            level,
            line,
            stamp,
            depth,
        ) == routed(m, target@, level, line, stamp, (depth - 1) as nat),
{
}

/// A default logger that is itself missing is not followed: a line for it
/// writes only what the internal logger makes of a severe report that
/// names it.
pub proof fn law_missing_default_is_reported<F: MessageFormatter>(
    m: RegistryModel<F>,
    name: Seq<char>,
    level: LogLevel,
    line: Seq<char>,
    stamp: Seq<char>,
    depth: nat,
)
    requires
        !m.loggers.contains_key(name),
        !m.disabled.contains_key(name),
        match m.default_logger {
            DefaultLogTarget::NoDefault => false,
            DefaultLogTarget::LogToTarget(target) => target@ == name,
            DefaultLogTarget::LogToTargetNoIndicator(target) => target@ == name,
        },
        depth > 0,
    ensures
        routed(m, name, level, line, stamp, depth) == routed(
            m,
            internal_name(),
            SEVERE,
            formatted(m, internal_name(), SEVERE, missing_default_text(name), stamp),
            stamp,
            (depth - 1) as nat,
        ),
{
}

/// Without a default logger, a line for a name that is neither registered
/// nor disabled writes only what the internal logger makes of a warning
/// that names the missing logger. Where the internal logger is as the
/// registry starts it, on standard output at the default level, that is
/// one line on standard output, and nothing else anywhere.
pub proof fn law_no_default_warns<F: MessageFormatter>(
    m: RegistryModel<F>,
    name: Seq<char>,
    level: LogLevel,
    line: Seq<char>,
    stamp: Seq<char>,
    depth: nat,
)
    requires
        !m.loggers.contains_key(name),
        !m.disabled.contains_key(name),
        m.default_logger is NoDefault,
        depth > 0,
    ensures
        routed(m, name, level, line, stamp, depth) == routed(
            m,
            internal_name(),
            WARNING,
            formatted(m, internal_name(), WARNING, missing_logger_text(name), stamp),
            stamp,
            (depth - 1) as nat,
        ),
        m.loggers.contains_key(internal_name()) && !m.disabled.contains_key(internal_name())
            && m.loggers[internal_name()] == (DEFAULT, OutputView::StdoutLog) ==> routed(
            m,
            name,
            level,
            line,
            stamp,
            depth,
        ) == seq![
            EmissionView::Stdout(
                formatted(m, internal_name(), WARNING, missing_logger_text(name), stamp),
            ),
        ],
{
    let warning = formatted(m, internal_name(), WARNING, missing_logger_text(name), stamp);
    let below = (depth - 1) as nat;
    assert(routed(m, name, level, line, stamp, depth) == unrouted(
        m,
        name,
        level,
        line,
        stamp,
        below,
    ));
    assert(unrouted(m, name, level, line, stamp, below) == routed(
        m,
        internal_name(),
        WARNING,
        warning,
        stamp,
        below,
    ));
    if m.loggers.contains_key(internal_name()) && !m.disabled.contains_key(internal_name())
        && m.loggers[internal_name()] == (DEFAULT, OutputView::StdoutLog) {
        assert(WARNING <= DEFAULT);
        assert(routed(m, internal_name(), WARNING, warning, stamp, below) == seq![
            EmissionView::Stdout(warning),
        ]);
    }
}

/// Redirecting a logger to the output it has keeps its level: the
/// registry is as before, at once or, where the file has to be created
/// anew, once it was.
pub proof fn law_redirect_to_same_output<F: MessageFormatter>(
    m: RegistryModel<F>,
    name: Seq<char>,
    stamp: Seq<char>,
)
    requires
        consistent(m),
        m.loggers.contains_key(name),
    ensures
        match redirected(m, name, None, m.loggers[name].1, stamp).step {
            StepView::Continue(written) => written == Seq::<EmissionView>::empty() && redirected(
                m,
                name,
                None,
                m.loggers[name].1,
                stamp,
            ).model == m,
            StepView::AwaitFile(written, pending) => written == Seq::<EmissionView>::empty()
                && settled(
                redirected(m, name, None, m.loggers[name].1, stamp).model,
                pending,
                true,
                stamp,
            ).model == m,
            StepView::Stop => false,
        },
{
    let entry = m.loggers[name];
    assert(m.loggers.remove(name).insert(name, entry) =~= m.loggers);
}

/// Redirecting a logger keeps its level unless one is given, and takes
/// the given one otherwise, whatever the new output.
pub proof fn law_redirect_level<F: MessageFormatter>(
    m: RegistryModel<F>,
    name: Seq<char>,
    level: Option<LogLevel>,
    output: OutputView,
    stamp: Seq<char>,
)
    requires
        consistent(m),
        m.loggers.contains_key(name),
    ensures
        match redirected(m, name, level, output, stamp).step {
            StepView::Continue(_) => redirected(m, name, level, output, stamp).model.loggers[name]
                == (
                match level {
                    Some(l) => l,
                    None => m.loggers[name].0,
                },
                output,
            ),
            StepView::AwaitFile(_, pending) => pending.level == match level {
                Some(l) => l,
                None => m.loggers[name].0,
            } && pending.name == name && OutputView::FileLog(pending.path) == output,
            StepView::Stop => false,
        },
{
}

/// What the messages among `commands`, from the one at `from` up to the one
/// before `upto`, write when each is logged on the registry `m`.
pub open spec fn logged<F: MessageFormatter>(
    m: RegistryModel<F>,
    commands: Seq<LoggerMessage<F>>,
    from: nat,
    upto: nat,
    stamp: Seq<char>,
) -> Seq<EmissionView>
    decreases upto - from,
{
    if from >= upto {
        Seq::empty()
    } else {
        (match commands[from as int] {
            LoggerMessage::LogMessage(logger, level, message) => submitted(
                m,
                logger@,
                level,
                message@,
                stamp,
                MAX_HOPS as nat,
            ),
            _ => Seq::empty(),
        }) + logged(m, commands, from + 1, upto, stamp)
    }
}

proof fn lemma_messages_then_stop<F: MessageFormatter>(
    m: RegistryModel<F>,
    commands: Seq<LoggerMessage<F>>,
    created: Seq<bool>,
    from: nat,
    count: nat,
    stamp: Seq<char>,
)
    requires
        from <= count < commands.len(),
        forall|i: int| 0 <= i < count ==> (#[trigger] commands[i]) is LogMessage,
        commands[count as int] is PoisonPill,
    ensures
        ran(m, commands, created, from, stamp).taken == count + 1 - from,
        ran(m, commands, created, from, stamp).halt == HaltView::Stopped,
        ran(m, commands, created, from, stamp).model == m,
        ran(m, commands, created, from, stamp).written == logged(m, commands, from, count, stamp),
    decreases count - from,
{
    if from < count {
        assert(commands[from as int] is LogMessage);
        lemma_messages_then_stop(m, commands, created, from + 1, count, stamp);
    } else {
        assert(ran(m, commands, created, from, stamp).written =~= logged(m, commands, from, count, stamp));
    }
}

/// Stopping drains the messages that came before: when `count` messages
/// are followed by the command to stop, a run over them applies every one
/// of the messages, in order, writes what each of them writes, leaves the
/// registry as it was, and only then stops.
pub proof fn law_shutdown_drains<F: MessageFormatter>(
    m: RegistryModel<F>,
    commands: Seq<LoggerMessage<F>>,
    created: Seq<bool>,
    count: nat,
    stamp: Seq<char>,
)
    requires
        count < commands.len(),
        forall|i: int| 0 <= i < count ==> (#[trigger] commands[i]) is LogMessage,
        commands[count as int] is PoisonPill,
    ensures
        ran(m, commands, created, 0, stamp).taken == count + 1,
        ran(m, commands, created, 0, stamp).halt == HaltView::Stopped,
        ran(m, commands, created, 0, stamp).model == m,
        ran(m, commands, created, 0, stamp).written == logged(m, commands, 0, count, stamp),
{
    lemma_messages_then_stop(m, commands, created, 0, count, stamp);
}

proof fn lemma_commands_then_stop<F: MessageFormatter>(
    m: RegistryModel<F>,
    commands: Seq<LoggerMessage<F>>,
    created: Seq<bool>,
    from: nat,
    count: nat,
    stamp: Seq<char>,
)
    requires
        from <= count < commands.len(),
        count <= created.len(),
        forall|i: int| 0 <= i < count ==> !((#[trigger] commands[i]) is PoisonPill),
        commands[count as int] is PoisonPill,
    ensures
        ran(m, commands, created, from, stamp).taken == count + 1 - from,
        ran(m, commands, created, from, stamp).halt == HaltView::Stopped,
        ran(m, commands, created, from, stamp).model == served_all(
            m,
            commands,
            created,
            from,
            count,
            stamp,
        ).model,
        ran(m, commands, created, from, stamp).written == served_all(
            m,
            commands,
            created,
            from,
            count,
            stamp,
        ).written,
    decreases count - from,
{
    if from < count {
        assert(!(commands[from as int] is PoisonPill));
        let first = served(m, commands[from as int], answer(created, from), stamp);
        lemma_commands_then_stop(first.model, commands, created, from + 1, count, stamp);
    } else {
        assert(ran(m, commands, created, from, stamp).written =~= served_all(
            m,
            commands,
            created,
            from,
            count,
            stamp,
        ).written);
    }
}

/// Stopping drains every command that came before: when `count` commands,
/// none of them the command to stop, are followed by the command to stop,
/// and it is known how each file went that one of them waits for, a run
/// takes exactly these commands and the one to stop. It leaves what the
/// `count` commands come to when each is served in turn on what the one
/// before left, it writes their lines in that order, and it takes no
/// command that stands behind the command to stop.
pub proof fn law_shutdown_drains_every_command<F: MessageFormatter>(
    m: RegistryModel<F>,
    commands: Seq<LoggerMessage<F>>,
    created: Seq<bool>,
    count: nat,
    stamp: Seq<char>,
)
    requires
        count < commands.len(),
        count <= created.len(),
        forall|i: int| 0 <= i < count ==> !((#[trigger] commands[i]) is PoisonPill),
        commands[count as int] is PoisonPill,
    ensures
        ran(m, commands, created, 0, stamp).taken == count + 1,
        ran(m, commands, created, 0, stamp).halt == HaltView::Stopped,
        ran(m, commands, created, 0, stamp).model == served_all(
            m,
            commands,
            created,
            0,
            count,
            stamp,
        ).model,
        ran(m, commands, created, 0, stamp).written == served_all(
            m,
            commands,
            created,
            0,
            count,
            stamp,
        ).written,
{
    lemma_commands_then_stop(m, commands, created, 0, count, stamp);
}

/// A run lets go early only for a file: if it ends before the commands are
/// used up, its last command was the one to stop, or one that waits for a
/// file of which nothing is known yet.
pub proof fn law_run_ends<F: MessageFormatter>(
    m: RegistryModel<F>,
    commands: Seq<LoggerMessage<F>>,
    created: Seq<bool>,
    from: nat,
    stamp: Seq<char>,
)
    requires
        from <= commands.len(),
    ensures
        from + ran(m, commands, created, from, stamp).taken <= commands.len(),
        ran(m, commands, created, from, stamp).halt is Exhausted ==> from + ran(
            m,
            commands,
            created,
            from,
            stamp,
        ).taken == commands.len(),
        ran(m, commands, created, from, stamp).halt is Stopped ==> commands[from + ran(
            m,
            commands,
            created,
            from,
            stamp,
        ).taken - 1] is PoisonPill,
        ran(m, commands, created, from, stamp).halt is AwaitFile ==> from + ran(
            m,
            commands,
            created,
            from,
            stamp,
        ).taken > created.len(),
    decreases commands.len() - from,
{
    if from < commands.len() {
        let first = served(m, commands[from as int], answer(created, from), stamp);
        law_run_ends(first.model, commands, created, from + 1, stamp);
    }
}

/// Only the command to stop stops the worker: every other command is
/// applied and the worker goes on, so commands that arrive before the
/// command to stop are all applied before it.
pub proof fn law_only_poison_stops<F: MessageFormatter>(
    m: RegistryModel<F>,
    command: LoggerMessage<F>,
    stamp: Seq<char>,
)
    ensures
        applied(m, command, stamp).step is Stop <==> command is PoisonPill,
        command is PoisonPill ==> applied(m, command, stamp).model == m,
{
}

} // verus!
