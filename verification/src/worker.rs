//! The worker's step: one command in, the registry changed, and what the
//! worker's owner is to do next. The owner takes the commands from the
//! queue in the order in which they arrive, does what each step says, and
//! stops at the first step that says so.

use vstd::prelude::*;
use vstd::string::*;
use crate::format::{current_stamp, MessageFormatter};
use crate::level::{LogLevel, CRITICAL, DEBUG, INFO, SEVERE, VERBOSE, WARNING, WTF};
use crate::model::{
    added, consistent, disabled_outcome, redirected, settled, submitted, Outcome, RegistryModel,
    MAX_HOPS,
};
use crate::registry::Registry;
use crate::task::{
    lemma_lines_join, lines, nothing_written, step_lines, Drained, Emission, EmissionView, Halt, HaltView,
    LoggerMessage, PendingFile, Step, StepView,
};

verus! {

/// What `command` makes of the registry when the clock shows `stamp`.
pub open spec fn applied<F: MessageFormatter>(
    m: RegistryModel<F>,
    command: LoggerMessage<F>,
    stamp: Seq<char>,
) -> Outcome<F> {
    match command {
        LoggerMessage::PoisonPill => Outcome { model: m, step: StepView::Stop },
        LoggerMessage::LogMessage(logger, level, message) => Outcome {
            model: m,
            step: StepView::Continue(submitted(m, logger@, level, message@, stamp, MAX_HOPS as nat)),
        },
        LoggerMessage::NewLogger(logger, level, output) => added(m, logger@, level, output@, stamp),
        LoggerMessage::RedirectLogger(logger, level, output) => redirected(
            m,
            logger@,
            level,
            output@,
            stamp,
        ),
        LoggerMessage::RegisterLevelString(level, text) => Outcome {
            model: RegistryModel { level_strings: m.level_strings.insert(level, text@), ..m },
            step: StepView::Continue(Seq::empty()),
        },
        LoggerMessage::Disable(logger, audit) => disabled_outcome(m, logger@, audit, stamp),
        LoggerMessage::SetFormatter(logger, formatter) => Outcome {
            model: RegistryModel { formatters: m.formatters.insert(logger@, formatter), ..m },
            step: StepView::Continue(Seq::empty()),
        },
        LoggerMessage::SetDefaultFormatter(formatter) => Outcome {
            model: RegistryModel { default_formatter: formatter, ..m },
            step: StepView::Continue(Seq::empty()),
        },
        LoggerMessage::SetDefaultLogTarget(target) => Outcome {
            model: RegistryModel { default_logger: target, ..m },
            step: StepView::Continue(Seq::empty()),
        },
    }
}

/// The display texts that the seven named levels get when the worker
/// starts, most severe first.
pub open spec fn standard_levels() -> Seq<(LogLevel, Seq<char>)> {
    seq![
        (WTF, "TERRIBLE FAILURE"@),
        (CRITICAL, "CRITICAL"@),
        (SEVERE, "SEVERE"@),
        (WARNING, "WARNING"@),
        (DEBUG, "DEBUG"@),
        (INFO, "INFO"@),
        (VERBOSE, "VERBOSE"@),
    ]
}

/// The command that gives `level` the display text `name`.
pub fn register_level<F: MessageFormatter>(name: &str, level: LogLevel) -> (command: LoggerMessage<F>)
    ensures
        command matches LoggerMessage::RegisterLevelString(l, text) && l == level && text@
            == name@,
{
    LoggerMessage::RegisterLevelString(level, String::from_str(name))
}

/// The commands that a worker is sent first when it is started: they name
/// the seven standard levels.
pub fn init_global_task<F: MessageFormatter>() -> (commands: Vec<LoggerMessage<F>>)
    ensures
        commands.len() == standard_levels().len(),
        forall|i: int|
            0 <= i < commands.len() ==> (#[trigger] commands[i] matches LoggerMessage::RegisterLevelString(
                level,
                text,
            ) && (level, text@) == standard_levels()[i]),
{
    let mut commands: Vec<LoggerMessage<F>> = Vec::new();
    commands.push(register_level("TERRIBLE FAILURE", WTF));
    commands.push(register_level("CRITICAL", CRITICAL));
    commands.push(register_level("SEVERE", SEVERE));
    commands.push(register_level("WARNING", WARNING));
    commands.push(register_level("DEBUG", DEBUG));
    commands.push(register_level("INFO", INFO));
    commands.push(register_level("VERBOSE", VERBOSE));
    commands
}

/// What the registry is after some commands, and what was written.
pub struct Served<F> {
    pub model: RegistryModel<F>,
    pub written: Seq<EmissionView>,
}

/// What one command comes to when the file it may wait for is settled
/// right after it: the command is applied; if it waits for a file, its
/// lines are written and the registration is settled with `created`.
pub open spec fn served<F: MessageFormatter>(
    m: RegistryModel<F>,
    command: LoggerMessage<F>,
    created: bool,
    stamp: Seq<char>,
) -> Served<F> {
    let outcome = applied(m, command, stamp);
    match outcome.step {
        StepView::Continue(written) => Served { model: outcome.model, written },
        StepView::AwaitFile(written, pending) => {
            let settling = settled(outcome.model, pending, created, stamp);
            Served { model: settling.model, written: written + step_lines(settling.step) }
        },
        StepView::Stop => Served { model: outcome.model, written: Seq::empty() },
    }
}

/// How the creation of the file went that the command at `index` waits
/// for, as far as `created` says it; a missing answer counts as failure.
pub open spec fn answer(created: Seq<bool>, index: nat) -> bool {
    index < created.len() && created[index as int]
}

/// What the commands from the one at `from` up to the one before `upto`
/// come to, one after the other, each served on what the one before left.
pub open spec fn served_all<F: MessageFormatter>(
    m: RegistryModel<F>,
    commands: Seq<LoggerMessage<F>>,
    created: Seq<bool>,
    from: nat,
    upto: nat,
    stamp: Seq<char>,
) -> Served<F>
    decreases upto - from,
{
    if from >= upto {
        Served { model: m, written: Seq::empty() }
    } else {
        let first = served(m, commands[from as int], answer(created, from), stamp);
        let rest = served_all(first.model, commands, created, from + 1, upto, stamp);
        Served { model: rest.model, written: first.written + rest.written }
    }
}

/// What a run over a list of commands leaves behind.
pub struct Ran<F> {
    pub model: RegistryModel<F>,
    pub written: Seq<EmissionView>,
    pub taken: nat,
    pub halt: HaltView,
}

/// Running over `commands` from the one at `from` on: each is served on
/// what the one before left, in order. The run ends with the command that
/// stops the worker, with a command that waits for a file of which
/// `created` holds no answer, or when no command is left.
pub open spec fn ran<F: MessageFormatter>(
    m: RegistryModel<F>,
    commands: Seq<LoggerMessage<F>>,
    created: Seq<bool>,
    from: nat,
    stamp: Seq<char>,
) -> Ran<F>
    decreases commands.len() - from,
{
    if from >= commands.len() {
        Ran { model: m, written: Seq::empty(), taken: 0, halt: HaltView::Exhausted }
    } else {
        let outcome = applied(m, commands[from as int], stamp);
        let first = served(m, commands[from as int], answer(created, from), stamp);
        let rest = ran(first.model, commands, created, from + 1, stamp);
        let onward = Ran {
            model: rest.model,
            written: first.written + rest.written,
            taken: rest.taken + 1,
            halt: rest.halt,
        };
        match outcome.step {
            StepView::Continue(_) => onward,
            StepView::AwaitFile(written, pending) => if from < created.len() {
                onward
            } else {
                Ran { model: outcome.model, written, taken: 1, halt: HaltView::AwaitFile(pending) }
            },
            StepView::Stop => Ran {
                model: outcome.model,
                written: Seq::empty(),
                taken: 1,
                halt: HaltView::Stopped,
            },
        }
    }
}

/// The command that a worker is sent last: after it the worker takes no
/// other.
pub fn stop_global_task<F: MessageFormatter>() -> (command: LoggerMessage<F>)
    ensures
        command is PoisonPill,
{
    LoggerMessage::PoisonPill
}

impl<F: MessageFormatter> Registry<F> {
    /// Applies one command, with `stamp` as the time of day.
    pub fn apply_at(&mut self, command: LoggerMessage<F>, stamp: &str) -> (step: Step)
        requires
            old(self).wf(),
        ensures
            final(self).wf(),
            final(self)@ == applied(old(self)@, command, stamp@).model,
            step@ == applied(old(self)@, command, stamp@).step,
            step is Stop <==> command is PoisonPill,
            consistent(final(self)@),
    {
        let step = match command {
            LoggerMessage::LogMessage(logger, level, message) => {
                Step::Continue(self.write_message(&logger, level, message.as_str(), stamp))
            },
            LoggerMessage::NewLogger(logger, level, output) => {
                self.add_logger(logger, level, output, stamp)
            },
            LoggerMessage::PoisonPill => Step::Stop,
            LoggerMessage::RegisterLevelString(level, string) => {
                self.register_level_string(level, string);
                Step::Continue(nothing_written())
            },
            LoggerMessage::Disable(name, log) => {
                Step::Continue(self.disable_logger(name, log, stamp))
            },
            LoggerMessage::RedirectLogger(logger, level_opt, output) => {
                self.redirect_logger(logger, level_opt, output, stamp)
            },
            LoggerMessage::SetFormatter(logger, formatter) => {
                self.set_formatter(logger, formatter);
                Step::Continue(nothing_written())
            },
            LoggerMessage::SetDefaultFormatter(formatter) => {
                self.set_default_formatter(formatter);
                Step::Continue(nothing_written())
            },
            LoggerMessage::SetDefaultLogTarget(target) => {
                self.set_default_log_target(target);
                Step::Continue(nothing_written())
            },
        };
        proof {
            self.lemma_consistent();
        }
        step
    }

    /// Applies the commands in order, with `stamp` as the time of day.
    /// Where command `i` waits for a file, `created[i]` says whether the
    /// file could be created, and the registration is settled with that.
    /// The run ends with the command that stops the worker, with a command
    /// that waits for a file of which `created` holds no answer, or when no
    /// command is left.
    pub fn drain_at(
        &mut self,
        commands: Vec<LoggerMessage<F>>,
        created: &Vec<bool>,
        stamp: &str,
    ) -> (drained: Drained)
        requires
            old(self).wf(),
        ensures
            final(self).wf(),
            final(self)@ == ran(old(self)@, commands@, created@, 0, stamp@).model,
            lines(drained.written@) == ran(old(self)@, commands@, created@, 0, stamp@).written,
            drained.taken == ran(old(self)@, commands@, created@, 0, stamp@).taken,
            drained.halt@ == ran(old(self)@, commands@, created@, 0, stamp@).halt,
    {
        let ghost all = commands@;
        let ghost start = self@;
        let ghost whole = ran(start, all, created@, 0, stamp@);
        let count = commands.len();
        assert(all.len() == count);
        let mut written = nothing_written();
        let mut taken: usize = 0;
        assert(lines(written@) + whole.written =~= whole.written);
        let mut unread = commands;
        let mut stack: Vec<LoggerMessage<F>> = Vec::new();
        while unread.len() > 0
            invariant
                all.len() <= usize::MAX,
                unread.len() + stack.len() == all.len(),
                forall|j: int| 0 <= j < unread.len() ==> unread[j] == all[j],
                forall|j: int| 0 <= j < stack.len() ==> stack[j] == all[all.len() - 1 - j],
            decreases unread.len(),
        {
            match unread.pop() {
                Some(command) => stack.push(command),
                None => {},
            }
        }
        while stack.len() > 0
            invariant
                self.wf(),
                start == old(self)@,
                all == commands@,
                whole == ran(start, all, created@, 0, stamp@),
                all.len() <= usize::MAX,
                taken + stack.len() == all.len(),
                forall|j: int| 0 <= j < stack.len() ==> stack[j] == all[all.len() - 1 - j],
                whole.model == ran(self@, all, created@, taken as nat, stamp@).model,
                whole.written == lines(written@) + ran(
                    self@,
                    all,
                    created@,
                    taken as nat,
                    stamp@,
                ).written,
                whole.taken == taken + ran(self@, all, created@, taken as nat, stamp@).taken,
                whole.halt == ran(self@, all, created@, taken as nat, stamp@).halt,
            decreases stack.len(),
        {
            match stack.pop() {
                Some(command) => {
                    assert(command == all[taken as int]);
                    let ghost sofar = lines(written@);
                    let ghost here = ran(self@, all, created@, taken as nat, stamp@);
                    match self.apply_at(command, stamp) {
                        Step::Continue(mut more) => {
                            proof {
                                lemma_lines_join(written@, more@);
                                let rest = ran(self@, all, created@, (taken + 1) as nat, stamp@);
                                assert(here.written == lines(more@) + rest.written);
                                assert(sofar + (lines(more@) + rest.written) =~= (sofar + lines(more@))
                                    + rest.written);
                            }
                            written.append(&mut more);
                            taken = taken + 1;
                        },
                        Step::AwaitFile(mut more, pending) => {
                            let ghost asked = lines(more@);
                            proof {
                                lemma_lines_join(written@, more@);
                            }
                            written.append(&mut more);
                            if taken < created.len() {
                                let mut settling = self.settle_file_at(pending, created[taken], stamp);
                                proof {
                                    lemma_lines_join(written@, settling@);
                                    let rest = ran(
                                        self@,
                                        all,
                                        created@,
                                        (taken + 1) as nat,
                                        stamp@,
                                    );
                                    assert(here.written == (asked + lines(settling@))
                                        + rest.written);
                                    assert(sofar + ((asked + lines(settling@)) + rest.written) =~= ((
                                    sofar + asked) + lines(settling@)) + rest.written);
                                }
                                written.append(&mut settling);
                                taken = taken + 1;
                            } else {
                                return Drained {
                                    written,
                                    taken: taken + 1,
                                    halt: Halt::AwaitFile(pending),
                                };
                            }
                        },
                        Step::Stop => {
                            assert(sofar + Seq::<EmissionView>::empty() =~= sofar);
                            return Drained { written, taken: taken + 1, halt: Halt::Stopped };
                        },
                    }
                },
                None => {},
            }
        }
        assert(lines(written@) + Seq::<EmissionView>::empty() =~= lines(written@));
        Drained { written, taken, halt: Halt::Exhausted }
    }

    /// Applies one command at the time the clock shows.
    pub fn apply(&mut self, command: LoggerMessage<F>) -> (step: Step)
        requires
            old(self).wf(),
        ensures
            final(self).wf(),
            exists|stamp: Seq<char>|
                final(self)@ == applied(old(self)@, command, stamp).model && step@ == (
                #[trigger] applied(old(self)@, command, stamp)).step,
            step is Stop <==> command is PoisonPill,
    {
        let stamp = current_stamp();
        let step = self.apply_at(command, stamp.as_str());
        assert(step@ == applied(old(self)@, command, stamp@).step);
        step
    }

    /// Settles a registration that waited for its file, at the time the
    /// clock shows: `created` says whether the file could be created.
    pub fn settle_file(&mut self, pending: PendingFile, created: bool) -> (written: Vec<Emission>)
        requires
            old(self).wf(),
        ensures
            final(self).wf(),
            exists|stamp: Seq<char>|
                final(self)@ == settled(old(self)@, pending@, created, stamp).model
                    && StepView::Continue(lines(written@)) == (#[trigger] settled(
                    old(self)@,
                    pending@,
                    created,
                    stamp,
                )).step,
    {
        let stamp = current_stamp();
        let written = self.settle_file_at(pending, created, stamp.as_str());
        assert(StepView::Continue(lines(written@)) == settled(
            old(self)@,
            pending@,
            created,
            stamp@,
        ).step);
        written
    }
}

} // verus!
