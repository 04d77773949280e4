use roma::{
    is_c_file_name, is_c_source, join_path, select_sources, Action, ActionError, CCompiler, Effect, Event,
    Language, RunOutcome, Session, Stage, Toolchain,
};

type Ev = Event<String, Vec<String>>;
type Eff = Effect<String, Vec<String>>;

fn s(x: &str) -> String {
    x.to_string()
}

fn strings(xs: &[&str]) -> Vec<String> {
    xs.iter().map(|x| x.to_string()).collect()
}

fn config() -> CCompiler {
    CCompiler::new("proj", true, None, None, String::new())
}

fn drive(toolchain: Toolchain, action: Action, events: Vec<Ev>) -> Vec<Eff> {
    let mut session = Session::new(toolchain, action);
    let mut effects = Vec::new();
    for ev in events {
        assert!(session.accepts(&ev));
        effects.push(session.step(ev));
    }
    effects
}

fn exited(code: i32, stderr: &str) -> Ev {
    Event::Ran { outcome: RunOutcome::Exited { code: Some(code), stderr: s(stderr) } }
}

fn ok() -> Ev {
    Event::Finished { result: Ok(()) }
}

fn good_build_events(present: bool) -> Vec<Ev> {
    vec![
        Event::Start,
        Event::Listed { paths: strings(&["proj/src", "proj/src/main.c", "proj/src/util.h", "proj/src/lib/util.c"]) },
        Event::Exists { present },
        ok(),
        exited(0, ""),
        Event::Ack,
    ]
}

fn compile_args(present: bool) -> Vec<String> {
    let mut args = strings(&["-Wall", "-Wextra", "-Werror", "-Wpedantic", "-g"]);
    if present {
        args.push(s("-Iproj/include"));
    }
    args.extend(strings(&["-o", "proj/bin/proj", "proj/src/main.c", "proj/src/lib/util.c", "-lm", "-lpthread"]));
    args
}

#[test]
fn join_adds_one_separator() {
    assert_eq!(join_path("proj", "src"), "proj/src");
    assert_eq!(join_path("proj/", "bin"), "proj/bin");
    assert_eq!(join_path("", "log"), "log");
    assert_eq!(join_path("proj", "/tmp/out"), "/tmp/out");
}

#[test]
fn c_sources_are_recognised_by_extension() {
    assert!(is_c_source("proj/src/main.c"));
    assert!(is_c_source("main.c"));
    assert!(is_c_source("proj/src/a.b.c"));
    assert!(!is_c_source("proj/src/.c"));
    assert!(!is_c_source("proj/src/main.h"));
    assert!(!is_c_source("proj/src/main.cc"));
    assert!(!is_c_source("proj/src/c"));
    assert!(!is_c_source("proj/x.c/.."));
    assert!(is_c_file_name("x.c"));
    assert!(!is_c_file_name(".c"));
    assert!(!is_c_file_name("xc"));
}

#[test]
fn selection_keeps_walk_order() {
    let walked = strings(&["p/src", "p/src/b.c", "p/src/a.h", "p/src/a.c", "p/src/sub/z.c"]);
    assert_eq!(select_sources(&walked), strings(&["p/src/b.c", "p/src/a.c", "p/src/sub/z.c"]));
    assert!(select_sources(&Vec::new()).is_empty());
}

#[test]
fn configuration_defaults() {
    let c = config();
    assert_eq!(c.src_dir, "proj/src");
    assert_eq!(c.include_dir, "proj/include");
    assert_eq!(c.binary_dir, "proj/bin");
    assert_eq!(c.log_dir, "proj/log");
    assert_eq!(c.compiler, "gcc");
    assert_eq!(c.target, "proj");
    assert_eq!(c.target_path(), "proj/bin/proj");
    assert_eq!(c.log_file(), "proj/log/valgrind.txt");
}

#[test]
fn configuration_overrides_and_fallbacks() {
    let c = CCompiler::new("/home/u/demo/", false, Some(s("clang")), Some(s("app")), s("-n 3"));
    assert_eq!(c.src_dir, "/home/u/demo/");
    assert_eq!(c.binary_dir, "/home/u/demo/bin");
    assert_eq!(c.compiler, "clang");
    assert_eq!(c.target, "app");
    let d = CCompiler::new("/home/u/demo/", false, None, None, String::new());
    assert_eq!(d.target, "demo");
    let e = CCompiler::new("..", true, None, None, String::new());
    assert_eq!(e.target, "a.out");
    assert_eq!(e.src_dir, "../src");
}

#[test]
fn header_flag_follows_include_directory() {
    let c = config();
    let sources = strings(&["proj/src/main.c", "proj/src/lib/util.c"]);
    assert_eq!(c.compile_args(sources.clone(), true), compile_args(true));
    assert_eq!(c.compile_args(sources, false), compile_args(false));
    assert!(!compile_args(false).iter().any(|a| a.starts_with("-I")));
}

#[test]
fn analysis_arguments_split_target_options() {
    let c = CCompiler::new("proj", true, None, None, s("  --size 10\t-v "));
    assert_eq!(
        c.analysis_args(),
        strings(&[
            "--leak-check=full",
            "--show-leak-kinds=all",
            "--log-file=proj/log/valgrind.txt",
            "proj/bin/proj",
            "--size",
            "10",
            "-v",
        ])
    );
    let d = config();
    assert_eq!(d.analysis_args().len(), 4);
}

#[test]
fn build_with_working_compiler_succeeds() {
    let effects = drive(Toolchain::C { config: config() }, Action::Build, good_build_events(true));
    assert_eq!(
        effects,
        vec![
            Effect::ListSources { dir: s("proj/src") },
            Effect::CheckDir { dir: s("proj/include") },
            Effect::MakeDir { dir: s("proj/bin") },
            Effect::Compile { program: s("gcc"), args: compile_args(true) },
            Effect::Say { text: s("Build completed. Run with ./proj/bin/proj") },
            Effect::Finish { result: Ok(()) },
        ]
    );
}

#[test]
fn build_without_include_directory_passes_no_flag() {
    let effects = drive(Toolchain::C { config: config() }, Action::Build, good_build_events(false));
    assert_eq!(effects[3], Effect::Compile { program: s("gcc"), args: compile_args(false) });
}

#[test]
fn build_without_sources_fails_before_making_bin() {
    let events = vec![Event::Start, Event::Listed { paths: strings(&["proj/src", "proj/src/notes.txt", "proj/src/.c"]) }];
    let effects = drive(Toolchain::C { config: config() }, Action::Build, events);
    assert_eq!(
        effects,
        vec![
            Effect::ListSources { dir: s("proj/src") },
            Effect::Finish { result: Err(ActionError::NoSourceFiles) },
        ]
    );
    let mut session = Session::new(Toolchain::C { config: config() }, Action::Valgrind);
    session.step(Event::Start);
    assert_eq!(session.step(Event::Listed { paths: Vec::new() }), Effect::Finish { result: Err(ActionError::NoSourceFiles) });
    assert!(session.is_done());
    assert!(!session.accepts(&Event::Ack));
}

#[test]
fn failed_build_ends_analysis_with_same_error() {
    let events = |_: ()| {
        vec![
            Event::Start,
            Event::Listed { paths: strings(&["proj/src/main.c"]) },
            Event::Exists { present: false },
            ok(),
            exited(1, "main.c:3: error: expected ';'"),
        ]
    };
    let built = drive(Toolchain::C { config: config() }, Action::Build, events(()));
    let analysed = drive(Toolchain::C { config: config() }, Action::Valgrind, events(()));
    assert_eq!(built, analysed);
    assert_eq!(
        analysed.last(),
        Some(&Effect::Finish { result: Err(ActionError::BuildFailed { stderr: s("main.c:3: error: expected ';'") }) })
    );
    assert!(!analysed.iter().any(|e| matches!(e, Effect::Analyse { .. })));
}

#[test]
fn analysis_after_successful_build_logs_and_succeeds() {
    let mut events = good_build_events(true);
    events.extend(vec![ok(), exited(0, ""), Event::Ack]);
    let effects = drive(Toolchain::C { config: config() }, Action::Valgrind, events);
    assert_eq!(effects.len(), 9);
    assert_eq!(effects[4], Effect::Say { text: s("Build completed. Run with ./proj/bin/proj") });
    assert_eq!(effects[5], Effect::MakeDir { dir: s("proj/log") });
    assert_eq!(
        effects[6],
        Effect::Analyse {
            program: s("valgrind"),
            args: strings(&["--leak-check=full", "--show-leak-kinds=all", "--log-file=proj/log/valgrind.txt", "proj/bin/proj"]),
        }
    );
    assert_eq!(effects[7], Effect::Say { text: s("Valgrind completed. Check ./proj/log/valgrind.txt") });
    assert_eq!(effects[8], Effect::Finish { result: Ok(()) });
}

#[test]
fn clean_removes_present_directories() {
    let events = vec![Event::Start, Event::Exists { present: true }, ok(), Event::Exists { present: true }, ok(), Event::Ack];
    let effects = drive(Toolchain::C { config: config() }, Action::Clean, events);
    assert_eq!(
        effects,
        vec![
            Effect::CheckDir { dir: s("proj/bin") },
            Effect::RemoveDir { dir: s("proj/bin") },
            Effect::CheckDir { dir: s("proj/log") },
            Effect::RemoveDir { dir: s("proj/log") },
            Effect::Say { text: s("Clean completed.") },
            Effect::Finish { result: Ok(()) },
        ]
    );
    let events = vec![Event::Start, Event::Exists { present: false }, Event::Exists { present: true }, ok(), Event::Ack];
    let effects = drive(Toolchain::C { config: config() }, Action::Clean, events);
    assert_eq!(effects[2], Effect::RemoveDir { dir: s("proj/log") });
    assert_eq!(effects[3], Effect::Say { text: s("Clean completed.") });
}

#[test]
fn clean_twice_has_nothing_to_clean() {
    let nothing = vec![Event::Start, Event::Exists { present: false }, Event::Exists { present: false }, Event::Ack];
    let effects = drive(Toolchain::C { config: config() }, Action::Clean, nothing);
    assert_eq!(
        effects,
        vec![
            Effect::CheckDir { dir: s("proj/bin") },
            Effect::CheckDir { dir: s("proj/log") },
            Effect::Say { text: s("Nothing to clean.") },
            Effect::Finish { result: Ok(()) },
        ]
    );
    let again = vec![Event::Start, Event::Exists { present: false }, Event::Exists { present: false }, Event::Ack];
    assert_eq!(drive(Toolchain::C { config: config() }, Action::Clean, again), effects);
}

#[test]
fn unsupported_toolchains_refuse_every_action() {
    for language in [Language::Asm, Language::Cpp] {
        for action in [Action::Build, Action::Valgrind, Action::Clean] {
            let toolchain = Toolchain::for_language(language, config());
            assert_eq!(toolchain.language(), language);
            let mut session = Session::new(toolchain, action);
            assert_eq!(
                session.step(Event::Start),
                Effect::Finish { result: Err(ActionError::NotImplemented { toolchain: language }) }
            );
            assert!(session.is_done());
            assert!(!session.accepts(&Event::Ack));
            assert!(!session.accepts(&Event::Start));
        }
    }
}

#[test]
fn language_labels() {
    assert_eq!(Language::C.label(), "C");
    assert_eq!(Language::Asm.label(), "Assembly");
    assert_eq!(Language::Cpp.label(), "C++");
    assert_eq!(Toolchain::for_language(Language::C, config()).language(), Language::C);
}

#[test]
fn compiler_that_cannot_start() {
    let events = vec![
        Event::Start,
        Event::Listed { paths: strings(&["proj/src/main.c"]) },
        Event::Exists { present: false },
        ok(),
        Event::Ran { outcome: RunOutcome::NotStarted { reason: s("No such file or directory") } },
    ];
    let effects = drive(Toolchain::C { config: config() }, Action::Build, events);
    assert_eq!(
        effects.last(),
        Some(&Effect::Finish { result: Err(ActionError::CompilerInvocationError { reason: s("No such file or directory") }) })
    );
}

#[test]
fn compiler_killed_by_signal_is_a_failed_build() {
    let events = vec![
        Event::Start,
        Event::Listed { paths: strings(&["proj/src/main.c"]) },
        Event::Exists { present: false },
        ok(),
        Event::Ran { outcome: RunOutcome::Exited { code: None, stderr: s("killed") } },
    ];
    let effects = drive(Toolchain::C { config: config() }, Action::Build, events);
    assert_eq!(effects.last(), Some(&Effect::Finish { result: Err(ActionError::BuildFailed { stderr: s("killed") }) }));
}

#[test]
fn bin_directory_that_cannot_be_made() {
    let events = vec![
        Event::Start,
        Event::Listed { paths: strings(&["proj/src/main.c"]) },
        Event::Exists { present: true },
        Event::Finished { result: Err(s("permission denied")) },
    ];
    let effects = drive(Toolchain::C { config: config() }, Action::Build, events);
    assert_eq!(
        effects.last(),
        Some(&Effect::Finish {
            result: Err(ActionError::DirectoryFailed { dir: s("proj/bin"), reason: s("permission denied") })
        })
    );
}

fn analysis_after_build(last: Vec<Ev>) -> Vec<Eff> {
    let mut events = good_build_events(false);
    events.extend(last);
    drive(Toolchain::C { config: config() }, Action::Valgrind, events)
}

#[test]
fn analysis_errors() {
    let e = analysis_after_build(vec![Event::Finished { result: Err(s("read-only")) }]);
    assert_eq!(
        e.last(),
        Some(&Effect::Finish { result: Err(ActionError::DirectoryFailed { dir: s("proj/log"), reason: s("read-only") }) })
    );
    let e = analysis_after_build(vec![ok(), Event::Ran { outcome: RunOutcome::NotStarted { reason: s("not found") } }]);
    assert_eq!(
        e.last(),
        Some(&Effect::Finish { result: Err(ActionError::AnalysisToolLaunchError { reason: s("not found") }) })
    );
    let e = analysis_after_build(vec![ok(), exited(3, "")]);
    assert_eq!(e.last(), Some(&Effect::Finish { result: Err(ActionError::TargetExitedNonZero { code: 3 }) }));
    let e = analysis_after_build(vec![ok(), Event::Ran { outcome: RunOutcome::Exited { code: None, stderr: s("") } }]);
    assert_eq!(e.last(), Some(&Effect::Finish { result: Err(ActionError::TargetExitedNonZero { code: -1 }) }));
}

#[test]
fn clean_errors() {
    let events = vec![Event::Start, Event::Exists { present: true }, Event::Finished { result: Err(s("busy")) }];
    let effects = drive(Toolchain::C { config: config() }, Action::Clean, events);
    assert_eq!(
        effects.last(),
        Some(&Effect::Finish { result: Err(ActionError::CleanFailed { dir: s("proj/bin"), reason: s("busy") }) })
    );
    let events = vec![
        Event::Start,
        Event::Exists { present: false },
        Event::Exists { present: true },
        Event::Finished { result: Err(s("busy")) },
    ];
    let effects = drive(Toolchain::C { config: config() }, Action::Clean, events);
    assert_eq!(
        effects.last(),
        Some(&Effect::Finish { result: Err(ActionError::CleanFailed { dir: s("proj/log"), reason: s("busy") }) })
    );
}

#[test]
fn events_out_of_turn_are_refused() {
    let session = Session::new(Toolchain::C { config: config() }, Action::Build);
    assert!(session.accepts(&Event::Start));
    assert!(!session.accepts(&Event::Ack));
    assert!(!session.accepts(&Event::Exists { present: true }));
    assert!(matches!(session.stage, Stage::Begin));
}
