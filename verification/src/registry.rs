//! The worker's registry: which loggers exist, at what level, where they
//! write, and what becomes of a line that is sent to one of them.

use vstd::prelude::*;
use vstd::string::*;
use std::collections::HashMap;
use crate::format::MessageFormatter;
use crate::level::{level_passes, LogLevel, DEBUG, DEFAULT, INFO, SEVERE, WARNING};
use crate::logger::{names_of, LoggerOutput, OutputView};
use crate::model::{
    added, added_on_file, consistent, disabled_outcome, fanned, formatter_for, internal_name,
    level_text, log_enabled, no_file_text, redirected, refused, reported, routed, settled,
    shares_file, submitted, unrouted, with_logger, without_logger, RegistryModel,
    INTERNAL_LOGGER_NAME, MAX_HOPS,
};
use crate::table::NameTable;
use crate::task::{
    lemma_lines_join, lines, nothing_written, DefaultLogTarget, Emission, EmissionView,
    PendingFile, Step, StepView,
};
use crate::text::{decimal_string, enclose};

verus! {

broadcast use vstd::std_specs::hash::group_hash_axioms;

/// A registered logger.
struct LoggerEntry {
    level: LogLevel,
    sink: LoggerOutput,
}

/// The worker's state.
pub struct Registry<F: MessageFormatter> {
    loggers: NameTable<LoggerEntry>,
    level_strings: HashMap<LogLevel, String>,
    disabled: NameTable<bool>,
    formatters: NameTable<F>,
    default_formatter: F,
    default_logger: DefaultLogTarget,
}

impl<F: MessageFormatter> Registry<F> {
    /// No name stands twice in any of the tables, and no disabled name has
    /// a logger.
    pub closed spec fn wf(&self) -> bool {
        &&& self.loggers.wf()
        &&& self.disabled.wf()
        &&& self.formatters.wf()
        &&& forall|name: Seq<char>|
            self.disabled@.contains_key(name) ==> !self.loggers@.contains_key(name)
    }

    /// In a well-formed registry no disabled name has a logger.
    pub proof fn lemma_consistent(&self)
        requires
            self.wf(),
        ensures
            consistent(self@),
    {
    }

    /// The registry as maps.
    pub closed spec fn view(&self) -> RegistryModel<F> {
        RegistryModel {
            loggers: Map::new(
                |name: Seq<char>| self.loggers@.contains_key(name),
                |name: Seq<char>| (self.loggers@[name].level, self.loggers@[name].sink@),
            ),
            level_strings: Map::new(
                |level: LogLevel| self.level_strings@.contains_key(level),
                |level: LogLevel| self.level_strings@[level]@,
            ),
            disabled: self.disabled@,
            formatters: self.formatters@,
            default_formatter: self.default_formatter,
            default_logger: self.default_logger,
        }
    }

    /// How the view follows the tables: where a table is unchanged, so is
    /// its part of the view; where a logger or a level's text is put in or
    /// a logger taken out, the view changes by the same entry.
    proof fn lemma_view_follows(before: Self, after: Self)
        ensures
            after.loggers@ == before.loggers@ ==> after@.loggers == before@.loggers,
            after.level_strings@ == before.level_strings@ ==> after@.level_strings
                == before@.level_strings,
            forall|name: Seq<char>, entry: LoggerEntry|
                after.loggers@ == #[trigger] before.loggers@.insert(name, entry)
                    ==> after@.loggers == before@.loggers.insert(name, (entry.level, entry.sink@)),
            forall|name: Seq<char>|
                after.loggers@ == #[trigger] before.loggers@.remove(name) ==> after@.loggers
                    == before@.loggers.remove(name),
            forall|level: LogLevel, text: String|
                after.level_strings@ == #[trigger] before.level_strings@.insert(level, text)
                    ==> after@.level_strings == before@.level_strings.insert(level, text@),
    {
        if after.loggers@ == before.loggers@ {
            assert(after@.loggers =~= before@.loggers);
        }
        if after.level_strings@ == before.level_strings@ {
            assert(after@.level_strings =~= before@.level_strings);
        }
        assert forall|name: Seq<char>, entry: LoggerEntry|
            after.loggers@ == #[trigger] before.loggers@.insert(name, entry) implies after@.loggers
            == before@.loggers.insert(name, (entry.level, entry.sink@)) by {
            assert(after@.loggers =~= before@.loggers.insert(name, (entry.level, entry.sink@)));
        }
        assert forall|name: Seq<char>|
            after.loggers@ == #[trigger] before.loggers@.remove(name) implies after@.loggers
            == before@.loggers.remove(name) by {
            assert(after@.loggers =~= before@.loggers.remove(name));
        }
        assert forall|level: LogLevel, text: String|
            after.level_strings@ == #[trigger] before.level_strings@.insert(
                level,
                text,
            ) implies after@.level_strings == before@.level_strings.insert(level, text@) by {
            assert(after@.level_strings =~= before@.level_strings.insert(level, text@));
        }
    }

    /// A registry that holds the internal logger, on standard output at
    /// the default level, and nothing else.
    pub fn new(default_formatter: F) -> (registry: Self)
        ensures
            registry.wf(),
            registry@ == (RegistryModel {
                loggers: Map::<Seq<char>, (LogLevel, OutputView)>::empty().insert(
                    internal_name(),
                    (DEFAULT, OutputView::StdoutLog),
                ),
                level_strings: Map::<LogLevel, Seq<char>>::empty(),
                disabled: Map::<Seq<char>, bool>::empty(),
                formatters: Map::<Seq<char>, F>::empty(),
                default_formatter,
                default_logger: DefaultLogTarget::NoDefault,
            }),
            consistent(registry@),
    {
        let mut loggers: NameTable<LoggerEntry> = NameTable::new();
        loggers.insert(
            String::from_str(INTERNAL_LOGGER_NAME),
            LoggerEntry { level: DEFAULT, sink: LoggerOutput::StdoutLog },
        );
        let task = Registry {
            loggers,
            level_strings: HashMap::new(),
            disabled: NameTable::new(),
            formatters: NameTable::new(),
            default_formatter,
            default_logger: DefaultLogTarget::NoDefault,
        };
        proof {
            assert(task@.loggers =~= Map::<Seq<char>, (LogLevel, OutputView)>::empty().insert(
                internal_name(),
                (DEFAULT, OutputView::StdoutLog),
            ));
            assert(task@.level_strings =~= Map::<LogLevel, Seq<char>>::empty());
        }
        task
    }

    fn register(&mut self, logger: String, level: LogLevel, sink: LoggerOutput)
        requires
            old(self).wf(),
            !old(self)@.disabled.contains_key(logger@),
        ensures
            final(self).wf(),
            final(self)@ == with_logger(old(self)@, logger@, level, sink@),
    {
        let ghost before = *self;
        self.loggers.insert(logger, LoggerEntry { level, sink });
        proof {
            Self::lemma_view_follows(before, *self);
        }
    }

    fn unregister(&mut self, logger: &String) -> (removed: Option<LoggerEntry>)
        requires
            old(self).wf(),
        ensures
            final(self).wf(),
            final(self)@ == without_logger(old(self)@, logger@),
            removed.is_some() == old(self)@.loggers.contains_key(logger@),
            removed matches Some(entry) ==> (entry.level, entry.sink@) == old(self)@.loggers[logger@],
    {
        let ghost before = *self;
        let removed = self.loggers.remove(logger);
        proof {
            Self::lemma_view_follows(before, *self);
        }
        removed
    }

    fn add_multi_logger(&mut self, logger: String, level: LogLevel, direct_to: Vec<String>)
        requires
            old(self).wf(),
            !old(self)@.disabled.contains_key(logger@),
        ensures
            final(self).wf(),
            final(self)@ == with_logger(
                old(self)@,
                logger@,
                level,
                OutputView::MultiLog(names_of(direct_to@)),
            ),
    {
        self.register(logger, level, LoggerOutput::MultiLog(direct_to));
    }

    fn add_file_logger(&mut self, logger: String, level: LogLevel, path: String) -> (step: Step)
        requires
            old(self).wf(),
            !old(self)@.disabled.contains_key(logger@),
        ensures
            final(self).wf(),
            final(self)@ == added_on_file(old(self)@, logger@, level, path@).model,
            step@ == added_on_file(old(self)@, logger@, level, path@).step,
    {
        if self.get_logger_for_path(&path) {
            self.register(logger, level, LoggerOutput::FileLog(path));
            Step::Continue(nothing_written())
        } else {
            Step::AwaitFile(nothing_written(), PendingFile { name: logger, level, path })
        }
    }

    /// Settles a registration that waited for its file: `created` says
    /// whether the file could be created.
    pub fn settle_file_at(&mut self, pending: PendingFile, created: bool, stamp: &str) -> (written: Vec<
        Emission,
    >)
        requires
            old(self).wf(),
        ensures
            final(self).wf(),
            final(self)@ == settled(old(self)@, pending@, created, stamp@).model,
            StepView::Continue(lines(written@)) == settled(
                old(self)@,
                pending@,
                created,
                stamp@,
            ).step,
    {
        if !created {
            let text = enclose("Could not create log file ", pending.path.as_str(), "");
            proof {
                reveal_strlit("");
                assert(text@ =~= no_file_text(pending.path@));
            }
            self.log_internal(text.as_str(), SEVERE, stamp)
        } else {
            match self.refuse(&pending.name, stamp) {
                Some(written) => written,
                None => {
                    self.register(pending.name, pending.level, LoggerOutput::FileLog(pending.path));
                    nothing_written()
                },
            }
        }
    }

    fn refuse(&self, logger: &String, stamp: &str) -> (written: Option<Vec<Emission>>)
        requires
            self.wf(),
        ensures
            written.is_some() == refused(self@, logger@, stamp@).is_some(),
            written matches Some(w) ==> Some(lines(w@)) == refused(self@, logger@, stamp@),
    {
        let disabled_status: Option<bool> = match self.disabled.get(logger) {
            Some(b) => Some(*b),
            None => None,
        };
        if self.loggers.contains(logger) {
            let text = enclose("Cannot re-register the ", logger.as_str(), " logger.");
            Some(self.log_internal(text.as_str(), INFO, stamp))
        } else if let Some(log_attempt) = disabled_status {
            if log_attempt {
                let text = enclose(
                    "An attempt to register a logger for name ",
                    logger.as_str(),
                    " was rejected as that name is disabled.",
                );
                Some(self.log_internal(text.as_str(), DEBUG, stamp))
            } else {
                Some(nothing_written())
            }
        } else {
            None
        }
    }

    /// Registers `logger` at `level` for `log_ty`, unless the name is
    /// registered or disabled.
    pub fn add_logger(&mut self, logger: String, level: LogLevel, log_ty: LoggerOutput, stamp: &str) -> (step:
        Step)
        requires
            old(self).wf(),
        ensures
            final(self).wf(),
            final(self)@ == added(old(self)@, logger@, level, log_ty@, stamp@).model,
            step@ == added(old(self)@, logger@, level, log_ty@, stamp@).step,
    {
        match self.refuse(&logger, stamp) {
            Some(written) => Step::Continue(written),
            None => match log_ty {
                LoggerOutput::FileLog(path) => self.add_file_logger(logger, level, path),
                LoggerOutput::StdoutLog => {
                    self.register(logger, level, LoggerOutput::StdoutLog);
                    Step::Continue(nothing_written())
                },
                LoggerOutput::StderrLog => {
                    self.register(logger, level, LoggerOutput::StderrLog);
                    Step::Continue(nothing_written())
                },
                LoggerOutput::MultiLog(others) => {
                    self.add_multi_logger(logger, level, others);
                    Step::Continue(nothing_written())
                },
            },
        }
    }

    /// Redirects `logger_name` to `log_ty`, at `level` if one is given.
    pub fn redirect_logger(
        &mut self,
        logger_name: String,
        level: Option<LogLevel>,
        log_ty: LoggerOutput,
        stamp: &str,
    ) -> (step: Step)
        requires
            old(self).wf(),
        ensures
            final(self).wf(),
            final(self)@ == redirected(old(self)@, logger_name@, level, log_ty@, stamp@).model,
            step@ == redirected(old(self)@, logger_name@, level, log_ty@, stamp@).step,
    {
        let logger = self.unregister(&logger_name);
        match logger {
            None => {
                let new_level = match level {
                    Some(l) => l,
                    None => DEFAULT,
                };
                let mut warning = self.log_internal(
                    "Attempted to redirect non-existant logger",
                    WARNING,
                    stamp,
                );
                match self.add_logger(logger_name, new_level, log_ty, stamp) {
                    Step::Continue(mut written) => {
                        proof {
                            lemma_lines_join(warning@, written@);
                        }
                        warning.append(&mut written);
                        Step::Continue(warning)
                    },
                    Step::AwaitFile(mut written, pending) => {
                        proof {
                            lemma_lines_join(warning@, written@);
                        }
                        warning.append(&mut written);
                        Step::AwaitFile(warning, pending)
                    },
                    Step::Stop => Step::Stop,
                }
            },
            Some(entry) => {
                let new_level = match level {
                    Some(l) => l,
                    None => entry.level,
                };
                self.add_logger(logger_name, new_level, log_ty, stamp)
            },
        }
    }

    /// Disables `logger` for good, and reports it if `log` says so.
    pub fn disable_logger(&mut self, logger: String, log: bool, stamp: &str) -> (written: Vec<Emission>)
        requires
            old(self).wf(),
        ensures
            final(self).wf(),
            final(self)@ == disabled_outcome(old(self)@, logger@, log, stamp@).model,
            StepView::Continue(lines(written@)) == disabled_outcome(
                old(self)@,
                logger@,
                log,
                stamp@,
            ).step,
    {
        let ghost before = self@;
        let ghost name = logger@;
        let removed = self.unregister(&logger);
        let note: Option<String> = if !log {
            None
        } else if let Some(entry) = removed {
            let mut text = enclose(entry.sink.logger_type_name(), " ", logger.as_str());
            text.append(" has been removed and disabled. Logger was in use.");
            Some(text)
        } else {
            Some(
                enclose(
                    "Logger name ",
                    logger.as_str(),
                    " has been disabled. Logger was not in use.",
                ),
            )
        };
        let ghost bare = *self;
        assert(!self.loggers@.contains_key(name)) by {
            assert(!bare@.loggers.contains_key(name));
        }
        self.disabled.insert(logger, log);
        proof {
            Self::lemma_view_follows(bare, *self);
            assert(self@ == disabled_outcome(before, name, log, stamp@).model);
        }
        match note {
            Some(text) => self.log_internal(text.as_str(), DEBUG, stamp),
            None => {
                nothing_written()
            },
        }
    }

    /// Gives `level` the display text `text`.
    pub fn register_level_string(&mut self, level: LogLevel, text: String)
        requires
            old(self).wf(),
        ensures
            final(self).wf(),
            final(self)@ == (RegistryModel {
                level_strings: old(self)@.level_strings.insert(level, text@),
                ..old(self)@
            }),
    {
        let ghost before = *self;
        self.level_strings.insert(level, text);
        proof {
            Self::lemma_view_follows(before, *self);
        }
    }

    /// Gives logger `logger` the formatter `formatter`.
    pub fn set_formatter(&mut self, logger: String, formatter: F)
        requires
            old(self).wf(),
        ensures
            final(self).wf(),
            final(self)@ == (RegistryModel {
                formatters: old(self)@.formatters.insert(logger@, formatter),
                ..old(self)@
            }),
    {
        let ghost before = *self;
        self.formatters.insert(logger, formatter);
        proof {
            Self::lemma_view_follows(before, *self);
        }
    }

    /// Sets the formatter of the loggers that have none of their own.
    pub fn set_default_formatter(&mut self, formatter: F)
        requires
            old(self).wf(),
        ensures
            final(self).wf(),
            final(self)@ == (RegistryModel { default_formatter: formatter, ..old(self)@ }),
    {
        let ghost before = *self;
        self.default_formatter = formatter;
        proof {
            Self::lemma_view_follows(before, *self);
        }
    }

    /// Sets where messages for missing loggers go.
    pub fn set_default_log_target(&mut self, target: DefaultLogTarget)
        requires
            old(self).wf(),
        ensures
            final(self).wf(),
            final(self)@ == (RegistryModel { default_logger: target, ..old(self)@ }),
    {
        let ghost before = *self;
        self.default_logger = target;
        proof {
            Self::lemma_view_follows(before, *self);
        }
    }

    /// Whether a message at `level` for `logger` would be of use.
    pub fn is_log_enabled(&self, logger: &String, level: LogLevel) -> (enabled: bool)
        requires
            self.wf(),
        ensures
            enabled == log_enabled(self@, logger@, level),
    {
        match self.loggers.get(logger) {
            Some(entry) => level_passes(level, entry.level),
            None => match &self.default_logger {
                DefaultLogTarget::NoDefault => false,
                _ => true,
            },
        }
    }

    /// The formatter that `logger_name` uses.
    pub fn get_formatter(&self, logger_name: &String) -> (formatter: &F)
        requires
            self.wf(),
        ensures
            *formatter == formatter_for(self@, logger_name@),
    {
        match self.formatters.get(logger_name) {
            Some(formatter) => formatter,
            None => &self.default_formatter,
        }
    }

    /// The display text of `level`.
    pub fn level_string(&self, level: LogLevel) -> (text: String)
        ensures
            text@ == level_text(self@, level),
    {
        match self.level_strings.get(&level) {
            Some(strval) => strval.clone(),
            None => decimal_string(level),
        }
    }

    /// Whether some registered logger writes to the file at `path`.
    pub fn get_logger_for_path(&self, path: &String) -> (shared: bool)
        requires
            self.wf(),
        ensures
            shared == shares_file(self@, path@),
    {
        let mut i: usize = 0;
        while i < self.loggers.len()
            invariant
                self.wf(),
                i <= self.loggers.spec_len(),
                forall|j: int|
                    0 <= j < i ==> self.loggers.spec_value(j).sink@ != OutputView::FileLog(path@),
            decreases self.loggers.spec_len() - i,
        {
            if let LoggerOutput::FileLog(prev_path) = &self.loggers.value_at(i).sink {
                if *prev_path == *path {
                    proof {
                        self.loggers.lemma_row(i as int);
                        let name = self.loggers.spec_name(i as int);
                        assert(self@.loggers.contains_key(name));
                        assert(self@.loggers[name].1 == OutputView::FileLog(path@));
                    }
                    return true;
                }
            }
            i += 1;
        }
        proof {
            if shares_file(self@, path@) {
                let name = choose|name: Seq<char>|
                    self@.loggers.contains_key(name) && (#[trigger] self@.loggers[name]).1
                        == OutputView::FileLog(path@);
                self.loggers.lemma_key(name);
                let j = choose|j: int|
                    0 <= j < self.loggers.spec_len() && self.loggers.spec_name(j) == name;
                self.loggers.lemma_row(j);
            }
        }
        false
    }

    /// Sends `msg`, already formatted, to logger `logger_name` and returns
    /// what is to be written.
    pub fn write_formatted_message(
        &self,
        logger_name: &String,
        msg_level: LogLevel,
        msg: &str,
        stamp: &str,
    ) -> (written: Vec<Emission>)
        requires
            self.wf(),
        ensures
            lines(written@) == routed(
                self@,
                logger_name@,
                msg_level,
                msg@,
                stamp@,
                MAX_HOPS as nat,
            ),
    {
        let mut written = nothing_written();
        self.route(logger_name, msg_level, msg, stamp, MAX_HOPS, &mut written);
        assert(lines(written@) =~= routed(
            self@,
            logger_name@,
            msg_level,
            msg@,
            stamp@,
            MAX_HOPS as nat,
        ));
        written
    }

    /// Logs `msg` at `msg_level` on logger `logger_name` and returns what is
    /// to be written.
    pub fn write_message(&self, logger_name: &String, msg_level: LogLevel, msg: &str, stamp: &str) -> (written:
        Vec<Emission>)
        requires
            self.wf(),
        ensures
            lines(written@) == submitted(
                self@,
                logger_name@,
                msg_level,
                msg@,
                stamp@,
                MAX_HOPS as nat,
            ),
    {
        let formatter = self.get_formatter(logger_name);
        let level_string = self.level_string(msg_level);
        let message = formatter.format_message(
            logger_name.as_str(),
            level_string.as_str(),
            msg,
            stamp,
        );
        self.write_formatted_message(logger_name, msg_level, message.as_str(), stamp)
    }

    /// Reports `message` at `level` on the internal logger and returns what
    /// is to be written.
    pub fn log_internal(&self, message: &str, level: LogLevel, stamp: &str) -> (written: Vec<Emission>)
        requires
            self.wf(),
        ensures
            lines(written@) == reported(self@, level, message@, stamp@),
    {
        let name = String::from_str(INTERNAL_LOGGER_NAME);
        self.write_message(&name, level, message, stamp)
    }

    fn route(
        &self,
        logger_name: &String,
        msg_level: LogLevel,
        msg: &str,
        stamp: &str,
        depth: usize,
        out: &mut Vec<Emission>,
    )
        requires
            self.wf(),
        ensures
            lines(final(out)@) == lines(old(out)@) + routed(
                self@,
                logger_name@,
                msg_level,
                msg@,
                stamp@,
                depth as nat,
            ),
        decreases depth, 0nat, 0nat,
    {
        let ghost before = lines(out@);
        let ghost expected = routed(self@, logger_name@, msg_level, msg@, stamp@, depth as nat);
        if self.disabled.contains(logger_name) {
            assert(before =~= before + expected);
            return ;
        }
        match self.loggers.get(logger_name) {
            Some(entry) => {
                if level_passes(msg_level, entry.level) {
                    match &entry.sink {
                        LoggerOutput::StdoutLog => {
                            out.push(Emission::Stdout(String::from_str(msg)));
                            assert(lines(out@) =~= before + expected);
                        },
                        LoggerOutput::StderrLog => {
                            out.push(Emission::Stderr(String::from_str(msg)));
                            assert(lines(out@) =~= before + expected);
                        },
                        LoggerOutput::FileLog(path) => {
                            out.push(Emission::File(path.clone(), String::from_str(msg)));
                            assert(lines(out@) =~= before + expected);
                        },
                        LoggerOutput::MultiLog(targets) => {
                            if depth > 0 {
                                self.write_multi(
                                    logger_name,
                                    targets,
                                    msg_level,
                                    msg,
                                    stamp,
                                    depth - 1,
                                    out,
                                );
                            } else {
                                assert(before =~= before + expected);
                            }
                        },
                    }
                } else {
                    assert(before =~= before + expected);
                }
            },
            None => {
                if depth > 0 {
                    self.handle_nonexistant_logger(
                        logger_name,
                        msg_level,
                        msg,
                        stamp,
                        depth - 1,
                        out,
                    );
                } else {
                    assert(before =~= before + expected);
                }
            },
        }
    }

    fn write_multi(
        &self,
        self_name: &String,
        other_loggers: &Vec<String>,
        level: LogLevel,
        message: &str,
        stamp: &str,
        depth: usize,
        out: &mut Vec<Emission>,
    )
        requires
            self.wf(),
        ensures
            lines(final(out)@) == lines(old(out)@) + fanned(
                self@,
                self_name@,
                names_of(other_loggers@),
                0,
                level,
                message@,
                stamp@,
                depth as nat,
            ),
        decreases depth, 1nat, other_loggers.len(),
    {
        let ghost before = lines(out@);
        let ghost targets = names_of(other_loggers@);
        let formatter = self.get_formatter(self_name);
        let mut i: usize = 0;
        assert(before + fanned(self@, self_name@, targets, 0, level, message@, stamp@, depth as nat)
            =~= lines(out@) + fanned(
            self@,
            self_name@,
            targets,
            0,
            level,
            message@,
            stamp@,
            depth as nat,
        ));
        while i < other_loggers.len()
            invariant
                self.wf(),
                i <= other_loggers.len(),
                targets == names_of(other_loggers@),
                *formatter == formatter_for(self@, self_name@),
                before + fanned(
                    self@,
                    self_name@,
                    targets,
                    0,
                    level,
                    message@,
                    stamp@,
                    depth as nat,
                ) == lines(out@) + fanned(
                    self@,
                    self_name@,
                    targets,
                    i as nat,
                    level,
                    message@,
                    stamp@,
                    depth as nat,
                ),
            decreases other_loggers.len() - i,
        {
            let ghost sofar = lines(out@);
            let logger = &other_loggers[i];
            let formatted_msg = formatter.add_logger_name_to_multi_message(
                logger.as_str(),
                message,
            );
            self.route(logger, level, formatted_msg.as_str(), stamp, depth, out);
            proof {
                let here = routed(
                    self@,
                    targets[i as int],
                    level,
                    formatted_msg@,
                    stamp@,
                    depth as nat,
                );
                let rest = fanned(
                    self@,
                    self_name@,
                    targets,
                    (i + 1) as nat,
                    level,
                    message@,
                    stamp@,
                    depth as nat,
                );
                assert(lines(out@) == sofar + here);
                assert((sofar + here) + rest =~= sofar + (here + rest));
            }
            i += 1;
        }
        assert(lines(out@) + Seq::<EmissionView>::empty() =~= lines(out@));
    }

    fn handle_nonexistant_logger(
        &self,
        logger: &String,
        msg_level: LogLevel,
        msg: &str,
        stamp: &str,
        depth: usize,
        out: &mut Vec<Emission>,
    )
        requires
            self.wf(),
        ensures
            lines(final(out)@) == lines(old(out)@) + unrouted(
                self@,
                logger@,
                msg_level,
                msg@,
                stamp@,
                depth as nat,
            ),
        decreases depth, 2nat, 0nat,
    {
        match &self.default_logger {
            DefaultLogTarget::NoDefault => {
                let report = enclose(
                    "Can't log to the ",
                    logger.as_str(),
                    " logger, it doesn't exist.",
                );
                self.report(report.as_str(), WARNING, stamp, depth, out);
            },
            DefaultLogTarget::LogToTarget(loggername) => {
                if *loggername == *logger {
                    let report = enclose("Default logger ", loggername.as_str(), " doesn't exist.");
                    self.report(report.as_str(), SEVERE, stamp, depth, out);
                } else {
                    let full_message = self.get_formatter(loggername).add_defaulting_name_to_message(
                        loggername.as_str(),
                        msg,
                    );
                    self.route(loggername, msg_level, full_message.as_str(), stamp, depth, out);
                }
            },
            DefaultLogTarget::LogToTargetNoIndicator(loggername) => {
                if *loggername == *logger {
                    let report = enclose("Default logger ", loggername.as_str(), " doesn't exist.");
                    self.report(report.as_str(), SEVERE, stamp, depth, out);
                } else {
                    self.route(loggername, msg_level, msg, stamp, depth, out);
                }
            },
        }
    }

    fn report(&self, message: &str, level: LogLevel, stamp: &str, depth: usize, out: &mut Vec<Emission>)
        requires
            self.wf(),
        ensures
            lines(final(out)@) == lines(old(out)@) + submitted(
                self@,
                internal_name(),
                level,
                message@,
                stamp@,
                depth as nat,
            ),
        decreases depth, 1nat, 0nat,
    {
        let name = String::from_str(INTERNAL_LOGGER_NAME);
        let formatter = self.get_formatter(&name);
        let level_string = self.level_string(level);
        let line = formatter.format_message(name.as_str(), level_string.as_str(), message, stamp);
        self.route(&name, level, line.as_str(), stamp, depth, out);
    }
}

} // verus!
