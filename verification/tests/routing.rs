use artifact::format::{BasicFormatter, SimpleMessageFormatter};
use artifact::level::{CRITICAL, DEBUG, DEFAULT, INFO, SEVERE, VERBOSE, WARNING, WTF};
use artifact::logger::{Logger, LoggerOutput};
use artifact::model::{INTERNAL_LOGGER_NAME, MAX_HOPS};
use artifact::registry::Registry;
use artifact::task::{DefaultLogTarget, Emission, Halt, LoggerMessage, PendingFile, Step};
use artifact::worker::{init_global_task, register_level, stop_global_task};

fn s(text: &str) -> String {
    text.to_string()
}

fn out(line: &str) -> Emission {
    Emission::Stdout(s(line))
}

fn err(line: &str) -> Emission {
    Emission::Stderr(s(line))
}

fn file(path: &str, line: &str) -> Emission {
    Emission::File(s(path), s(line))
}

fn written(step: Step) -> Vec<Emission> {
    match step {
        Step::Continue(lines) => lines,
        Step::AwaitFile(_, p) => panic!("waits for {}", p.path),
        Step::Stop => panic!("stopped"),
    }
}

fn registry() -> Registry<BasicFormatter> {
    let mut r = Registry::new(BasicFormatter::Simple);
    let names = [
        ("TERRIBLE FAILURE", WTF),
        ("CRITICAL", CRITICAL),
        ("SEVERE", SEVERE),
        ("WARNING", WARNING),
        ("DEBUG", DEBUG),
        ("INFO", INFO),
        ("VERBOSE", VERBOSE),
    ];
    for (name, level) in names {
        let step = r.apply_at(LoggerMessage::RegisterLevelString(level, s(name)), "");
        assert!(written(step).is_empty());
    }
    r
}

fn add(r: &mut Registry<BasicFormatter>, name: &str, level: u32, ty: LoggerOutput) -> Vec<Emission> {
    written(r.apply_at(LoggerMessage::NewLogger(s(name), level, ty), ""))
}

fn add_step(r: &mut Registry<BasicFormatter>, name: &str, ty: LoggerOutput) -> Step {
    r.apply_at(LoggerMessage::NewLogger(s(name), DEBUG, ty), "")
}

fn log(r: &mut Registry<BasicFormatter>, name: &str, level: u32, text: &str) -> Vec<Emission> {
    written(r.apply_at(LoggerMessage::LogMessage(s(name), level, s(text)), ""))
}

#[test]
fn a_message_is_emitted_iff_its_level_is_at_most_the_loggers() {
    let all = [WTF, CRITICAL, SEVERE, WARNING, DEBUG, INFO, VERBOSE];
    for logger_level in all {
        let mut r = registry();
        assert!(add(&mut r, "Foo", logger_level, LoggerOutput::StderrLog).is_empty());
        for msg_level in all {
            let got = log(&mut r, "Foo", msg_level, "m");
            assert_eq!(got.len() == 1, msg_level <= logger_level);
        }
        assert_eq!(log(&mut r, "Foo", logger_level + 1, "m"), vec![]);
        assert_eq!(log(&mut r, "Foo", logger_level - 1, "m").len(), 1);
    }
}

#[test]
fn a_console_logger_writes_the_formatted_line() {
    let mut r = registry();
    add(&mut r, "Foo", DEBUG, LoggerOutput::StdoutLog);
    add(&mut r, "Bar", DEBUG, LoggerOutput::StderrLog);
    assert_eq!(log(&mut r, "Foo", WARNING, "careful"), vec![out("[Foo] -- WARNING: careful")]);
    assert_eq!(log(&mut r, "Bar", WTF, "oh no"), vec![err("[Bar] -- TERRIBLE FAILURE: oh no")]);
    assert_eq!(log(&mut r, "Foo", INFO, "dropped"), vec![]);
}

#[test]
fn a_level_without_a_name_is_shown_as_its_number() {
    let mut r: Registry<SimpleMessageFormatter> = Registry::new(SimpleMessageFormatter);
    written(r.apply_at(LoggerMessage::NewLogger(s("Foo"), VERBOSE, LoggerOutput::StdoutLog), ""));
    let got = written(r.apply_at(LoggerMessage::LogMessage(s("Foo"), 450, s("m")), ""));
    assert_eq!(got, vec![out("[Foo] -- 450: m")]);
    written(r.apply_at(LoggerMessage::RegisterLevelString(450, s("NOTICE")), ""));
    let got = written(r.apply_at(LoggerMessage::LogMessage(s("Foo"), 450, s("m")), ""));
    assert_eq!(got, vec![out("[Foo] -- NOTICE: m")]);
    assert_eq!(r.level_string(450), "NOTICE");
    assert_eq!(r.level_string(451), "451");
}

#[test]
fn a_disabled_name_is_silent_for_good() {
    let mut r = registry();
    add(&mut r, "Foo", VERBOSE, LoggerOutput::StdoutLog);
    assert_eq!(log(&mut r, "Foo", DEBUG, "before"), vec![out("[Foo] -- DEBUG: before")]);
    let foo = Logger::access("Foo");
    assert_eq!(written(r.apply_at(foo.disable_without_logs(), "")), vec![]);
    assert_eq!(log(&mut r, "Foo", WTF, "after"), vec![]);
    assert_eq!(add(&mut r, "Foo", VERBOSE, LoggerOutput::StdoutLog), vec![]);
    assert_eq!(log(&mut r, "Foo", WTF, "after"), vec![]);
    let step = r.apply_at(
        LoggerMessage::RedirectLogger(s("Foo"), Some(VERBOSE), LoggerOutput::StderrLog),
        "",
    );
    assert_eq!(
        written(step),
        vec![out("[Artifact Internal] -- WARNING: Attempted to redirect non-existant logger")]
    );
    assert_eq!(log(&mut r, "Foo", WTF, "after"), vec![]);
    let step = r.apply_at(LoggerMessage::SetDefaultLogTarget(DefaultLogTarget::LogToTarget(s("X"))), "");
    assert_eq!(written(step), vec![]);
    assert_eq!(log(&mut r, "Foo", WTF, "after"), vec![]);
}

#[test]
fn disabling_a_name_that_was_never_registered_blocks_it_too() {
    let mut r = registry();
    assert_eq!(
        written(r.apply_at(Logger::access("Foo").disable(), "")),
        vec![out(
            "[Artifact Internal] -- DEBUG: Logger name Foo has been disabled. Logger was not in use."
        )]
    );
    assert_eq!(
        add(&mut r, "Foo", DEBUG, LoggerOutput::StdoutLog),
        vec![out(
            "[Artifact Internal] -- DEBUG: An attempt to register a logger for name Foo was rejected as that name is disabled."
        )]
    );
    assert_eq!(log(&mut r, "Foo", WTF, "x"), vec![]);
}

#[test]
fn disabling_with_reports_names_the_kind_of_logger() {
    let kinds = [
        (LoggerOutput::StdoutLog, "StdoutLogger"),
        (LoggerOutput::StderrLog, "StderrLogger"),
        (LoggerOutput::MultiLog(vec![s("A")]), "MultiLogger"),
    ];
    for (ty, kind) in kinds {
        let mut r = registry();
        add(&mut r, "Foo", DEBUG, ty);
        let line = format!(
            "[Artifact Internal] -- DEBUG: {} Foo has been removed and disabled. Logger was in use.",
            kind
        );
        assert_eq!(
            written(r.apply_at(LoggerMessage::Disable(s("Foo"), true), "")),
            vec![Emission::Stdout(line)]
        );
    }
    assert_eq!(LoggerOutput::FileLog(s("p")).logger_type_name(), "FileLogger");
}

#[test]
fn the_report_of_a_disabling_is_made_once_the_name_is_disabled() {
    let mut r = registry();
    // the internal logger is disabled when its own disabling is reported
    let step = r.apply_at(LoggerMessage::Disable(s(INTERNAL_LOGGER_NAME), true), "");
    assert_eq!(written(step), vec![]);
    // from now on nothing is reported at all
    assert_eq!(log(&mut r, "Ghost", DEBUG, "boo"), vec![]);
    // a logger that the internal logger hands its lines to does not see its own disabling
    let mut r = registry();
    add(&mut r, "Audit", VERBOSE, LoggerOutput::StderrLog);
    let internal = Logger::access(INTERNAL_LOGGER_NAME);
    written(r.apply_at(internal.redirect(LoggerOutput::MultiLog(vec![s("Audit")])), ""));
    assert_eq!(
        written(r.apply_at(LoggerMessage::Disable(s("Foo"), true), "")),
        vec![err(
            "[Audit] from [Artifact Internal] -- DEBUG: Logger name Foo has been disabled. Logger was not in use."
        )]
    );
    assert_eq!(written(r.apply_at(LoggerMessage::Disable(s("Audit"), true), "")), vec![]);
}

#[test]
fn two_loggers_on_one_path_share_the_file() {
    let mut r = registry();
    let step = r.apply_at(
        LoggerMessage::NewLogger(s("Foo"), DEBUG, LoggerOutput::FileLog(s("log/a.log"))),
        "",
    );
    let pending = match step {
        Step::AwaitFile(lines, p) => {
            assert_eq!(lines, vec![]);
            p
        }
        _ => panic!("the first logger on a path has to wait for the file"),
    };
    assert_eq!(
        pending,
        PendingFile { name: s("Foo"), level: DEBUG, path: s("log/a.log") }
    );
    assert!(!r.get_logger_for_path(&s("log/a.log")));
    assert_eq!(log(&mut r, "Foo", DEBUG, "early").len(), 1);
    assert_eq!(r.settle_file_at(pending, true, ""), vec![]);
    assert!(r.get_logger_for_path(&s("log/a.log")));
    assert!(!r.get_logger_for_path(&s("log/b.log")));
    assert_eq!(add(&mut r, "Bar", DEBUG, LoggerOutput::FileLog(s("log/a.log"))), vec![]);
    let mut all = log(&mut r, "Foo", DEBUG, "one");
    all.extend(log(&mut r, "Bar", DEBUG, "two"));
    assert_eq!(
        all,
        vec![file("log/a.log", "[Foo] -- DEBUG: one"), file("log/a.log", "[Bar] -- DEBUG: two")]
    );
}

#[test]
fn a_file_that_cannot_be_created_is_reported_and_nothing_is_registered() {
    let mut r = registry();
    let step = r.apply_at(
        LoggerMessage::NewLogger(s("Foo"), DEBUG, LoggerOutput::FileLog(s("/no/such/dir/a.log"))),
        "",
    );
    let pending = match step {
        Step::AwaitFile(lines, p) => {
            assert_eq!(lines, vec![]);
            p
        }
        _ => panic!("expected to wait"),
    };
    assert_eq!(
        r.settle_file_at(pending, false, ""),
        vec![out("[Artifact Internal] -- SEVERE: Could not create log file /no/such/dir/a.log")]
    );
    assert_eq!(
        log(&mut r, "Foo", DEBUG, "m"),
        vec![out("[Artifact Internal] -- WARNING: Can't log to the Foo logger, it doesn't exist.")]
    );
}

#[test]
fn fan_out_lets_each_target_filter_for_itself() {
    let mut r = registry();
    add(&mut r, "Foo", SEVERE, LoggerOutput::StdoutLog);
    add(&mut r, "Bar", WTF, LoggerOutput::StderrLog);
    add(&mut r, "Multi", WARNING, LoggerOutput::MultiLog(vec![s("Foo"), s("Bar")]));
    assert_eq!(
        log(&mut r, "Multi", CRITICAL, "m"),
        vec![out("[Foo] from [Multi] -- CRITICAL: m")]
    );
    assert_eq!(
        log(&mut r, "Multi", WTF, "m"),
        vec![
            out("[Foo] from [Multi] -- TERRIBLE FAILURE: m"),
            err("[Bar] from [Multi] -- TERRIBLE FAILURE: m")
        ]
    );
    // WARNING passes Multi but neither target; DEBUG does not even pass Multi
    assert_eq!(log(&mut r, "Multi", WARNING, "m"), vec![]);
    assert_eq!(log(&mut r, "Multi", DEBUG, "m"), vec![]);
}

#[test]
fn fan_out_below_the_multi_loggers_level_reaches_no_target() {
    let mut r = registry();
    add(&mut r, "Foo", VERBOSE, LoggerOutput::StdoutLog);
    add(&mut r, "Bar", VERBOSE, LoggerOutput::StdoutLog);
    add(&mut r, "Multi", WARNING, LoggerOutput::MultiLog(vec![s("Foo"), s("Bar")]));
    assert_eq!(log(&mut r, "Multi", DEBUG, "m"), vec![]);
    assert_eq!(log(&mut r, "Multi", WARNING, "m").len(), 2);
}

#[test]
fn fan_out_targets_are_looked_up_when_the_message_arrives() {
    let mut r = registry();
    add(&mut r, "Multi", DEBUG, LoggerOutput::MultiLog(vec![s("Late"), s("Foo")]));
    add(&mut r, "Foo", DEBUG, LoggerOutput::StdoutLog);
    assert_eq!(
        log(&mut r, "Multi", DEBUG, "m"),
        vec![
            out("[Artifact Internal] -- WARNING: Can't log to the Late logger, it doesn't exist."),
            out("[Foo] from [Multi] -- DEBUG: m")
        ]
    );
    add(&mut r, "Late", DEBUG, LoggerOutput::StderrLog);
    assert_eq!(
        log(&mut r, "Multi", DEBUG, "m"),
        vec![err("[Late] from [Multi] -- DEBUG: m"), out("[Foo] from [Multi] -- DEBUG: m")]
    );
}

#[test]
fn fan_out_through_a_second_fan_out_marks_twice() {
    let mut r = registry();
    add(&mut r, "Leaf", DEBUG, LoggerOutput::StdoutLog);
    add(&mut r, "Inner", DEBUG, LoggerOutput::MultiLog(vec![s("Leaf")]));
    add(&mut r, "Outer", DEBUG, LoggerOutput::MultiLog(vec![s("Inner")]));
    assert_eq!(
        log(&mut r, "Outer", DEBUG, "m"),
        vec![out("[Leaf] from [Inner] from [Outer] -- DEBUG: m")]
    );
}

#[test]
fn an_unmarking_formatter_on_the_fan_out_logger_hides_the_relay() {
    let mut r = registry();
    add(&mut r, "Foo", DEBUG, LoggerOutput::StdoutLog);
    add(&mut r, "Multi", DEBUG, LoggerOutput::MultiLog(vec![s("Foo")]));
    let multi = Logger::access("Multi");
    assert_eq!(written(r.apply_at(multi.set_format(BasicFormatter::SimpleUnmarked), "")), vec![]);
    assert_eq!(log(&mut r, "Multi", DEBUG, "m"), vec![out("[Multi] -- DEBUG: m")]);
}

#[test]
fn loggers_that_forward_in_a_circle_come_to_an_end() {
    let mut r = registry();
    add(&mut r, "A", DEBUG, LoggerOutput::MultiLog(vec![s("B")]));
    add(&mut r, "B", DEBUG, LoggerOutput::MultiLog(vec![s("A")]));
    assert_eq!(log(&mut r, "A", DEBUG, "m"), vec![]);
    add(&mut r, "C", DEBUG, LoggerOutput::MultiLog(vec![s("Out"), s("C")]));
    add(&mut r, "Out", DEBUG, LoggerOutput::StdoutLog);
    let got = log(&mut r, "C", DEBUG, "m");
    assert_eq!(got.len(), MAX_HOPS);
    assert_eq!(got[0], out("[Out] from [C] -- DEBUG: m"));
    assert_eq!(got[1], out("[Out] from [C] from [C] -- DEBUG: m"));
}

#[test]
fn a_missing_logger_defaults_with_an_indicator() {
    let mut r = registry();
    add(&mut r, "Foo", DEBUG, LoggerOutput::StderrLog);
    written(r.apply_at(LoggerMessage::SetDefaultLogTarget(DefaultLogTarget::LogToTarget(s("Foo"))), ""));
    assert_eq!(
        log(&mut r, "Ghost", DEBUG, "boo"),
        vec![err("[Foo] defaulting from [Ghost] -- DEBUG: boo")]
    );
    // the default logger filters by its own level
    assert_eq!(log(&mut r, "Ghost", INFO, "boo"), vec![]);
}

#[test]
fn a_missing_logger_without_a_default_gives_only_a_warning() {
    let mut r = registry();
    add(&mut r, "Foo", DEBUG, LoggerOutput::StderrLog);
    assert_eq!(
        log(&mut r, "Ghost", DEBUG, "boo"),
        vec![out("[Artifact Internal] -- WARNING: Can't log to the Ghost logger, it doesn't exist.")]
    );
}

#[test]
fn a_missing_logger_defaults_silently() {
    let mut r = registry();
    add(&mut r, "Foo", DEBUG, LoggerOutput::StdoutLog);
    written(r.apply_at(
        LoggerMessage::SetDefaultLogTarget(DefaultLogTarget::LogToTargetNoIndicator(s("Foo"))),
        "",
    ));
    assert_eq!(log(&mut r, "Ghost", DEBUG, "boo"), vec![out("[Ghost] -- DEBUG: boo")]);
}

#[test]
fn a_missing_default_logger_is_reported_and_not_followed() {
    for target in [
        DefaultLogTarget::LogToTarget(s("Ghost")),
        DefaultLogTarget::LogToTargetNoIndicator(s("Ghost")),
    ] {
        let mut r = registry();
        written(r.apply_at(LoggerMessage::SetDefaultLogTarget(target), ""));
        assert_eq!(
            log(&mut r, "Ghost", DEBUG, "boo"),
            vec![out("[Artifact Internal] -- SEVERE: Default logger Ghost doesn't exist.")]
        );
        // another missing name is sent to the missing default, which is then reported
        assert_eq!(
            log(&mut r, "Other", DEBUG, "boo"),
            vec![out("[Artifact Internal] -- SEVERE: Default logger Ghost doesn't exist.")]
        );
    }
}

#[test]
fn redirecting_to_the_same_output_keeps_the_level() {
    let mut r = registry();
    add(&mut r, "Foo", SEVERE, LoggerOutput::StdoutLog);
    let foo = Logger::access("Foo");
    assert_eq!(written(r.apply_at(foo.redirect(LoggerOutput::StdoutLog), "")), vec![]);
    assert_eq!(log(&mut r, "Foo", SEVERE, "m"), vec![out("[Foo] -- SEVERE: m")]);
    assert_eq!(log(&mut r, "Foo", WARNING, "m"), vec![]);
}

#[test]
fn redirecting_keeps_the_level_unless_one_is_given() {
    let mut r = registry();
    add(&mut r, "Foo", SEVERE, LoggerOutput::StdoutLog);
    let foo = Logger::access("Foo");
    assert_eq!(written(r.apply_at(foo.redirect(LoggerOutput::StderrLog), "")), vec![]);
    assert_eq!(log(&mut r, "Foo", SEVERE, "m"), vec![err("[Foo] -- SEVERE: m")]);
    assert_eq!(log(&mut r, "Foo", WARNING, "m"), vec![]);
    assert_eq!(
        written(r.apply_at(foo.redirect_set_level(LoggerOutput::StdoutLog, INFO), "")),
        vec![]
    );
    assert_eq!(log(&mut r, "Foo", INFO, "m"), vec![out("[Foo] -- INFO: m")]);
    assert_eq!(log(&mut r, "Foo", VERBOSE, "m"), vec![]);
}

#[test]
fn redirecting_a_missing_logger_registers_it_and_warns() {
    let mut r = registry();
    let foo = Logger::access("Foo");
    assert_eq!(
        written(r.apply_at(foo.redirect(LoggerOutput::StderrLog), "")),
        vec![out("[Artifact Internal] -- WARNING: Attempted to redirect non-existant logger")]
    );
    assert_eq!(log(&mut r, "Foo", DEFAULT, "m"), vec![err("[Foo] -- DEBUG: m")]);
    assert_eq!(log(&mut r, "Foo", DEFAULT + 1, "m"), vec![]);
}

#[test]
fn redirecting_a_missing_logger_to_a_new_file_warns_before_it_asks_for_the_file() {
    let mut r = registry();
    let step = r.apply_at(
        LoggerMessage::RedirectLogger(s("Foo"), Some(INFO), LoggerOutput::FileLog(s("f.log"))),
        "",
    );
    let pending = match step {
        Step::AwaitFile(lines, p) => {
            assert_eq!(
                lines,
                vec![out("[Artifact Internal] -- WARNING: Attempted to redirect non-existant logger")]
            );
            p
        }
        _ => panic!("expected to wait"),
    };
    assert_eq!(pending, PendingFile { name: s("Foo"), level: INFO, path: s("f.log") });
    assert_eq!(
        r.settle_file_at(pending.clone(), false, ""),
        vec![out("[Artifact Internal] -- SEVERE: Could not create log file f.log")]
    );
    assert_eq!(r.settle_file_at(pending, true, ""), vec![]);
    assert_eq!(log(&mut r, "Foo", INFO, "m"), vec![file("f.log", "[Foo] -- INFO: m")]);
}

#[test]
fn redirecting_a_missing_name_that_is_disabled_warns_and_then_rejects() {
    let mut r = registry();
    written(r.apply_at(LoggerMessage::Disable(s("Foo"), true), ""));
    let step = r.apply_at(
        LoggerMessage::RedirectLogger(s("Foo"), None, LoggerOutput::StdoutLog),
        "",
    );
    assert_eq!(
        written(step),
        vec![
            out("[Artifact Internal] -- WARNING: Attempted to redirect non-existant logger"),
            out(
                "[Artifact Internal] -- DEBUG: An attempt to register a logger for name Foo was rejected as that name is disabled."
            )
        ]
    );
}

#[test]
fn redirecting_the_only_logger_of_a_file_to_that_file_asks_for_the_file_again() {
    let mut r = registry();
    let pending = match r.apply_at(
        LoggerMessage::NewLogger(s("Foo"), SEVERE, LoggerOutput::FileLog(s("f.log"))),
        "",
    ) {
        Step::AwaitFile(lines, p) => {
            assert_eq!(lines, vec![]);
            p
        }
        _ => panic!("expected to wait"),
    };
    r.settle_file_at(pending, true, "");
    let step = r.apply_at(Logger::access("Foo").redirect(LoggerOutput::FileLog(s("f.log"))), "");
    let pending = match step {
        Step::AwaitFile(lines, p) => {
            assert_eq!(lines, vec![]);
            p
        }
        _ => panic!("expected to wait"),
    };
    assert_eq!(
        pending,
        PendingFile { name: s("Foo"), level: SEVERE, path: s("f.log") }
    );
    assert_eq!(r.settle_file_at(pending, true, ""), vec![]);
    assert_eq!(log(&mut r, "Foo", SEVERE, "m"), vec![file("f.log", "[Foo] -- SEVERE: m")]);
    assert_eq!(log(&mut r, "Foo", WARNING, "m"), vec![]);
}

#[test]
fn registering_a_name_twice_changes_nothing() {
    let mut r = registry();
    add(&mut r, "Foo", SEVERE, LoggerOutput::StdoutLog);
    // the report is at INFO, which the internal logger does not show at its default level
    assert_eq!(add(&mut r, "Foo", VERBOSE, LoggerOutput::StderrLog), vec![]);
    assert_eq!(log(&mut r, "Foo", SEVERE, "m"), vec![out("[Foo] -- SEVERE: m")]);
    assert_eq!(log(&mut r, "Foo", WARNING, "m"), vec![]);
    let internal = Logger::access(INTERNAL_LOGGER_NAME);
    written(r.apply_at(internal.redirect_set_level(LoggerOutput::StderrLog, VERBOSE), ""));
    assert_eq!(
        add(&mut r, "Foo", VERBOSE, LoggerOutput::StderrLog),
        vec![err("[Artifact Internal] -- INFO: Cannot re-register the Foo logger.")]
    );
}

#[test]
fn formatters_are_looked_up_by_name_and_fall_back_to_the_default() {
    let mut r = registry();
    add(&mut r, "Foo", DEBUG, LoggerOutput::StdoutLog);
    add(&mut r, "Bar", DEBUG, LoggerOutput::StdoutLog);
    written(r.apply_at(Logger::access("Foo").set_format(BasicFormatter::ZuluTime), "noon"));
    assert_eq!(
        written(r.apply_at(Logger::access("Foo").debug("m"), "noon")),
        vec![out("[Foo] (noon) -- DEBUG: m")]
    );
    assert_eq!(
        written(r.apply_at(Logger::access("Bar").debug("m"), "noon")),
        vec![out("[Bar] -- DEBUG: m")]
    );
    written(r.apply_at(Logger::set_default_formatter(BasicFormatter::ZuluTime), "noon"));
    assert_eq!(
        written(r.apply_at(Logger::access("Bar").debug("m"), "later")),
        vec![out("[Bar] (later) -- DEBUG: m")]
    );
    assert_eq!(*r.get_formatter(&s("Foo")), BasicFormatter::ZuluTime);
    assert_eq!(*r.get_formatter(&s("Nobody")), BasicFormatter::ZuluTime);
    // the formatter outlives a redirect
    written(r.apply_at(Logger::set_default_formatter(BasicFormatter::Simple), ""));
    written(r.apply_at(Logger::access("Foo").redirect(LoggerOutput::StderrLog), ""));
    assert_eq!(
        written(r.apply_at(Logger::access("Foo").debug("m"), "noon")),
        vec![err("[Foo] (noon) -- DEBUG: m")]
    );
}

#[test]
fn only_the_poison_pill_stops_the_worker() {
    let mut r = registry();
    add(&mut r, "Foo", DEBUG, LoggerOutput::StdoutLog);
    let mut seen = Vec::new();
    let commands = vec![
        Logger::access("Foo").debug("one"),
        Logger::access("Foo").warning("two"),
        Logger::access("Foo").wtf("three"),
        LoggerMessage::PoisonPill,
        Logger::access("Foo").debug("never"),
    ];
    for command in commands {
        match r.apply_at(command, "") {
            Step::Continue(lines) => seen.extend(lines),
            Step::AwaitFile(_, _) => panic!("no file was asked for"),
            Step::Stop => break,
        }
    }
    assert_eq!(
        seen,
        vec![
            out("[Foo] -- DEBUG: one"),
            out("[Foo] -- WARNING: two"),
            out("[Foo] -- TERRIBLE FAILURE: three")
        ]
    );
    assert!(matches!(r.apply_at(LoggerMessage::PoisonPill, ""), Step::Stop));
    assert!(matches!(r.apply_at(stop_global_task(), ""), Step::Stop));
}

#[test]
fn applying_at_the_clocks_time_stamps_the_line() {
    let mut r = Registry::new(BasicFormatter::ZuluTime);
    written(r.apply(LoggerMessage::NewLogger(s("Foo"), DEBUG, LoggerOutput::StdoutLog)));
    let got = written(r.apply(LoggerMessage::LogMessage(s("Foo"), DEBUG, s("m"))));
    assert_eq!(got.len(), 1);
    match &got[0] {
        Emission::Stdout(line) => {
            assert!(line.starts_with("[Foo] ("));
            assert!(line.ends_with(") -- 500: m"));
            assert!(line.len() > "[Foo] () -- 500: m".len());
        }
        _ => panic!("expected standard output"),
    }
    let pending = match r.apply(LoggerMessage::NewLogger(s("F"), DEBUG, LoggerOutput::FileLog(s("x")))) {
        Step::AwaitFile(lines, p) => {
            assert_eq!(lines, vec![]);
            p
        }
        _ => panic!("expected to wait"),
    };
    let got = r.settle_file(pending, false);
    assert_eq!(got.len(), 1);
    match &got[0] {
        Emission::Stdout(line) => {
            assert!(line.starts_with("[Artifact Internal] ("));
            assert!(line.ends_with(") -- 300: Could not create log file x"));
        }
        _ => panic!("expected standard output"),
    }
}

#[test]
fn a_query_tells_whether_a_message_would_be_of_use() {
    let mut r = registry();
    add(&mut r, "Foo", WARNING, LoggerOutput::StdoutLog);
    assert!(r.is_log_enabled(&s("Foo"), SEVERE));
    assert!(r.is_log_enabled(&s("Foo"), WARNING));
    assert!(r.is_log_enabled(&s("Foo"), 400));
    assert!(!r.is_log_enabled(&s("Foo"), 401));
    assert!(!r.is_log_enabled(&s("Foo"), DEBUG));
    // the answer is the one that logging gives
    for level in [WTF, CRITICAL, SEVERE, WARNING, DEBUG, INFO, VERBOSE] {
        let emitted = !log(&mut r, "Foo", level, "m").is_empty();
        assert_eq!(r.is_log_enabled(&s("Foo"), level), emitted);
    }
    assert!(!r.is_log_enabled(&s("Ghost"), WTF));
    r.set_default_log_target(DefaultLogTarget::LogToTarget(s("Foo")));
    assert!(r.is_log_enabled(&s("Ghost"), VERBOSE));
}

#[test]
fn the_registry_can_be_driven_method_by_method() {
    let mut r: Registry<SimpleMessageFormatter> = Registry::new(SimpleMessageFormatter);
    assert!(matches!(
        r.add_logger(s("Multi"), DEBUG, LoggerOutput::MultiLog(vec![s("Foo")]), ""),
        Step::Continue(_)
    ));
    assert!(matches!(r.add_logger(s("Foo"), DEBUG, LoggerOutput::StdoutLog, ""), Step::Continue(_)));
    assert_eq!(r.write_message(&s("Multi"), DEBUG, "m", ""), vec![out("[Foo] from [Multi] -- 500: m")]);
    assert_eq!(r.write_formatted_message(&s("Foo"), DEBUG, "raw", ""), vec![out("raw")]);
    assert_eq!(r.write_formatted_message(&s("Foo"), INFO, "raw", ""), vec![]);
    assert_eq!(r.log_internal("note", DEBUG, ""), vec![out("[Artifact Internal] -- 500: note")]);
    assert_eq!(r.log_internal("note", INFO, ""), vec![]);
    r.register_level_string(DEBUG, s("DEBUG"));
    r.set_formatter(s("Foo"), SimpleMessageFormatter);
    r.set_default_formatter(SimpleMessageFormatter);
    assert_eq!(r.disable_logger(s("Foo"), false, ""), vec![]);
    assert_eq!(r.write_message(&s("Multi"), DEBUG, "m", ""), vec![]);
    assert!(matches!(
        r.add_logger(s("File"), DEBUG, LoggerOutput::FileLog(s("p")), ""),
        Step::AwaitFile(_, _)
    ));
    assert!(matches!(
        r.redirect_logger(s("Multi"), None, LoggerOutput::StderrLog, ""),
        Step::Continue(_)
    ));
    assert_eq!(r.write_message(&s("Multi"), DEBUG, "m", ""), vec![err("[Multi] -- DEBUG: m")]);
}

#[test]
fn a_name_disabled_while_its_file_was_awaited_is_not_registered() {
    let mut r = registry();
    let pending = match add_step(&mut r, "Foo", LoggerOutput::FileLog(s("f.log"))) {
        Step::AwaitFile(_, p) => p,
        _ => panic!("expected to wait"),
    };
    assert_eq!(r.disable_logger(s("Foo"), true, "").len(), 1);
    assert_eq!(
        r.settle_file_at(pending, true, ""),
        vec![out(
            "[Artifact Internal] -- DEBUG: An attempt to register a logger for name Foo was rejected as that name is disabled."
        )]
    );
    assert_eq!(log(&mut r, "Foo", WTF, "m"), vec![]);
    assert!(!r.get_logger_for_path(&s("f.log")));
}

#[test]
fn a_name_registered_while_its_file_was_awaited_keeps_its_logger() {
    let mut r = registry();
    let pending = match add_step(&mut r, "Foo", LoggerOutput::FileLog(s("f.log"))) {
        Step::AwaitFile(_, p) => p,
        _ => panic!("expected to wait"),
    };
    add(&mut r, "Foo", VERBOSE, LoggerOutput::StderrLog);
    // the report is at INFO, which the internal logger does not show
    assert_eq!(r.settle_file_at(pending, true, ""), vec![]);
    assert_eq!(log(&mut r, "Foo", DEBUG, "m"), vec![err("[Foo] -- DEBUG: m")]);
}

#[test]
fn the_first_commands_name_the_seven_levels() {
    let commands = init_global_task::<BasicFormatter>();
    let mut got = Vec::new();
    for command in commands {
        match command {
            LoggerMessage::RegisterLevelString(level, text) => got.push((level, text)),
            _ => panic!("expected a level name"),
        }
    }
    assert_eq!(
        got,
        vec![
            (WTF, s("TERRIBLE FAILURE")),
            (CRITICAL, s("CRITICAL")),
            (SEVERE, s("SEVERE")),
            (WARNING, s("WARNING")),
            (DEBUG, s("DEBUG")),
            (INFO, s("INFO")),
            (VERBOSE, s("VERBOSE"))
        ]
    );
    assert!(matches!(
        register_level::<BasicFormatter>("NOTICE", 450),
        LoggerMessage::RegisterLevelString(450, ref t) if t == "NOTICE"
    ));
}

#[test]
fn stopping_drains_what_came_before() {
    let mut r = Registry::new(BasicFormatter::Simple);
    let mut commands = init_global_task();
    commands.push(LoggerMessage::NewLogger(s("Foo"), DEBUG, LoggerOutput::StdoutLog));
    let n = 25;
    for i in 0..n {
        commands.push(Logger::access("Foo").debug(&format!("message {}", i)));
    }
    commands.push(LoggerMessage::PoisonPill);
    commands.push(Logger::access("Foo").debug("too late"));
    let drained = r.drain_at(commands, &vec![], "");
    assert_eq!(drained.taken, 7 + 1 + n + 1);
    assert!(matches!(drained.halt, Halt::Stopped));
    assert_eq!(drained.written.len(), n);
    for i in 0..n {
        assert_eq!(drained.written[i], out(&format!("[Foo] -- DEBUG: message {}", i)));
    }
}

#[test]
fn a_run_lets_go_when_a_file_is_needed_and_when_nothing_is_left() {
    let mut r = registry();
    let commands = vec![
        LoggerMessage::NewLogger(s("Foo"), DEBUG, LoggerOutput::StderrLog),
        Logger::access("Foo").debug("one"),
        LoggerMessage::RedirectLogger(s("Bar"), None, LoggerOutput::FileLog(s("b.log"))),
        Logger::access("Foo").debug("two"),
    ];
    let drained = r.drain_at(commands, &vec![], "");
    assert_eq!(drained.taken, 3);
    assert_eq!(
        drained.written,
        vec![
            err("[Foo] -- DEBUG: one"),
            out("[Artifact Internal] -- WARNING: Attempted to redirect non-existant logger")
        ]
    );
    match drained.halt {
        Halt::AwaitFile(pending) => {
            assert_eq!(pending, PendingFile { name: s("Bar"), level: DEFAULT, path: s("b.log") })
        }
        _ => panic!("expected to wait"),
    }
    let drained = r.drain_at(vec![Logger::access("Foo").debug("two")], &vec![], "");
    assert_eq!(drained.taken, 1);
    assert_eq!(drained.written, vec![err("[Foo] -- DEBUG: two")]);
    assert!(matches!(drained.halt, Halt::Exhausted));
    let drained = r.drain_at(vec![], &vec![true], "");
    assert_eq!(drained.taken, 0);
    assert_eq!(drained.written, vec![]);
    assert!(matches!(drained.halt, Halt::Exhausted));
}

#[test]
fn stopping_drains_every_command_that_came_before() {
    let mut r = registry();
    let commands = vec![
        LoggerMessage::NewLogger(s("Foo"), DEBUG, LoggerOutput::FileLog(s("a.log"))),
        Logger::access("Foo").debug("one"),
        LoggerMessage::NewLogger(s("Bar"), DEBUG, LoggerOutput::FileLog(s("/no/b.log"))),
        Logger::access("Bar").debug("two"),
        LoggerMessage::RedirectLogger(s("Foo"), Some(INFO), LoggerOutput::StderrLog),
        Logger::access("Foo").info("three"),
        LoggerMessage::Disable(s("Foo"), true),
        Logger::access("Foo").wtf("four"),
        LoggerMessage::PoisonPill,
        Logger::access("Bar").debug("too late"),
        LoggerMessage::NewLogger(s("Late"), DEBUG, LoggerOutput::StdoutLog),
    ];
    // the first file is created, the second is not
    let created = vec![true, false, false, false, false, false, false, false];
    let drained = r.drain_at(commands, &created, "");
    assert_eq!(drained.taken, 9);
    assert!(matches!(drained.halt, Halt::Stopped));
    assert_eq!(
        drained.written,
        vec![
            file("a.log", "[Foo] -- DEBUG: one"),
            out("[Artifact Internal] -- SEVERE: Could not create log file /no/b.log"),
            out("[Artifact Internal] -- WARNING: Can't log to the Bar logger, it doesn't exist."),
            err("[Foo] -- INFO: three"),
            out(
                "[Artifact Internal] -- DEBUG: StderrLogger Foo has been removed and disabled. Logger was in use."
            ),
        ]
    );
    // nothing behind the stop was applied
    assert_eq!(
        log(&mut r, "Late", DEBUG, "m"),
        vec![out("[Artifact Internal] -- WARNING: Can't log to the Late logger, it doesn't exist.")]
    );
    // the same commands one by one, each file settled as above, give the same
    let mut one_by_one = registry();
    let mut seen = Vec::new();
    let steps = vec![
        (LoggerMessage::NewLogger(s("Foo"), DEBUG, LoggerOutput::FileLog(s("a.log"))), true),
        (Logger::access("Foo").debug("one"), false),
        (LoggerMessage::NewLogger(s("Bar"), DEBUG, LoggerOutput::FileLog(s("/no/b.log"))), false),
        (Logger::access("Bar").debug("two"), false),
        (LoggerMessage::RedirectLogger(s("Foo"), Some(INFO), LoggerOutput::StderrLog), false),
        (Logger::access("Foo").info("three"), false),
        (LoggerMessage::Disable(s("Foo"), true), false),
        (Logger::access("Foo").wtf("four"), false),
    ];
    for (command, answer) in steps {
        match one_by_one.apply_at(command, "") {
            Step::Continue(lines) => seen.extend(lines),
            Step::AwaitFile(lines, pending) => {
                seen.extend(lines);
                seen.extend(one_by_one.settle_file_at(pending, answer, ""));
            }
            Step::Stop => panic!("no command stops here"),
        }
    }
    assert_eq!(seen, drained.written);
}

#[test]
fn a_run_without_an_answer_for_a_file_lets_go_there() {
    let mut r = registry();
    let commands = vec![
        LoggerMessage::NewLogger(s("Foo"), DEBUG, LoggerOutput::FileLog(s("a.log"))),
        LoggerMessage::NewLogger(s("Bar"), DEBUG, LoggerOutput::FileLog(s("b.log"))),
        LoggerMessage::PoisonPill,
    ];
    let drained = r.drain_at(commands, &vec![true], "");
    assert_eq!(drained.taken, 2);
    assert_eq!(drained.written, vec![]);
    match drained.halt {
        Halt::AwaitFile(pending) => {
            assert_eq!(pending, PendingFile { name: s("Bar"), level: DEBUG, path: s("b.log") })
        }
        _ => panic!("expected to wait"),
    }
    assert!(r.get_logger_for_path(&s("a.log")));
    assert!(!r.get_logger_for_path(&s("b.log")));
}
