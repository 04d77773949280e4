use vstd::prelude::*;
use crate::paths::{c_sources, joined};
use crate::session::{
    admits, reply, run, ActionError, Effect, EffectView, Event, EventView, RunOutcome, Stage,
    StageView, Toolchain,
};
use crate::toolchain::{clibs, cflags, Action, CCompiler};

verus! {

/// The end of an action that failed with `e`.
pub open spec fn finish_err(e: ActionError<Seq<char>>) -> EffectView {
    Effect::Finish { result: Err(e) }
}

/// The end of an action that succeeded.
pub open spec fn finish_ok() -> EffectView {
    Effect::Finish { result: Ok(()) }
}

/// Whether the effects end with a failed result.
pub open spec fn ends_in_failure(effs: Seq<EffectView>) -> bool {
    effs.len() > 0 && match effs.last() {
        Effect::Finish { result: Err(_) } => true,
        _ => false,
    }
}

/// The stages a build passes through before its compiler succeeds, and the
/// end.
pub open spec fn building(s: StageView) -> bool {
    s is Begin || s is Sources || s is Headers || s is BinDir || s is Compiling || s is Done
}

/// A toolchain other than C fails at once, whatever the action, with
/// `NotImplemented`, and asks for nothing else: no directory is read, made
/// or removed, and no program is run.
pub proof fn lemma_unsupported_toolchain_refuses(tc: Toolchain, action: Action, evs: Seq<EventView>)
    requires
        !(tc is C),
    ensures
        run(tc, action, Stage::Begin, evs) == (if evs.len() > 0 && evs[0] is Start {
            seq![finish_err(ActionError::NotImplemented { toolchain: tc.language_spec() })]
        } else {
            seq![]
        }),
{
    reveal_with_fuel(run, 2);
    if evs.len() > 0 && evs[0] is Start {
        assert(run(tc, action, Stage::Done, evs.drop_first()) == Seq::<EffectView>::empty());
        assert(run(tc, action, Stage::Begin, evs) =~= seq![
            finish_err(ActionError::NotImplemented { toolchain: tc.language_spec() }),
        ]);
    }
}

/// A build that has got past its compiler never fails, nor runs the analysis
/// tool.
proof fn lemma_build_closes(tc: Toolchain, evs: Seq<EventView>)
    requires
        tc is C,
    ensures
        run(tc, Action::Build, Stage::Closing, evs) == Seq::<EffectView>::empty()
            || run(tc, Action::Build, Stage::Closing, evs) == seq![finish_ok()],
{
    reveal_with_fuel(run, 2);
    if evs.len() > 0 && admits(tc, Stage::Closing, evs[0]) {
        assert(run(tc, Action::Build, Stage::Done, evs.drop_first()) == Seq::<EffectView>::empty());
        assert(run(tc, Action::Build, Stage::Closing, evs) =~= seq![finish_ok()]);
    }
}

/// From any stage of the build, the analysis action does what the build does
/// for as long as the build ends in failure.
proof fn lemma_build_prefix(tc: Toolchain, s: StageView, evs: Seq<EventView>)
    requires
        building(s),
    ensures
        ends_in_failure(run(tc, Action::Build, s, evs))
            ==> run(tc, Action::Valgrind, s, evs) == run(tc, Action::Build, s, evs),
    decreases evs.len(),
{
    if evs.len() > 0 && admits(tc, s, evs[0]) {
        let ev = evs[0];
        let rest = evs.drop_first();
        let (nb, eb) = reply(tc, Action::Build, s, ev);
        let b = run(tc, Action::Build, s, evs);
        let v = run(tc, Action::Valgrind, s, evs);
        assert(b == seq![eb] + run(tc, Action::Build, nb, rest));
        let compiled = tc is C && s is Compiling && match ev {
            Event::Ran { outcome: RunOutcome::Exited { code, .. } } => code == Some(0i32),
            _ => false,
        };
        if compiled {
            lemma_build_closes(tc, rest);
            assert(!ends_in_failure(b));
        } else {
            assert(reply(tc, Action::Valgrind, s, ev) == reply(tc, Action::Build, s, ev));
            assert(v == seq![eb] + run(tc, Action::Valgrind, nb, rest));
            lemma_build_prefix(tc, nb, rest);
            if ends_in_failure(b) {
                if run(tc, Action::Build, nb, rest).len() == 0 {
                    assert(nb is Done);
                    assert(run(tc, Action::Valgrind, nb, rest) == Seq::<EffectView>::empty());
                } else {
                    assert(b.last() == run(tc, Action::Build, nb, rest).last());
                }
                assert(v =~= b);
            }
        }
    }
}

/// A build never runs the analysis tool.
proof fn lemma_build_never_analyses(tc: Toolchain, s: StageView, evs: Seq<EventView>)
    requires
        building(s) || s is Closing,
    ensures
        forall|i: int| 0 <= i < run(tc, Action::Build, s, evs).len()
            ==> !(#[trigger] run(tc, Action::Build, s, evs)[i] is Analyse),
    decreases evs.len(),
{
    if evs.len() > 0 && admits(tc, s, evs[0]) {
        let (nb, eb) = reply(tc, Action::Build, s, evs[0]);
        lemma_build_never_analyses(tc, nb, evs.drop_first());
        assert(run(tc, Action::Build, s, evs) == seq![eb] + run(tc, Action::Build, nb, evs.drop_first()));
    }
}

/// An analysis whose build fails ends with the build's own failure, having
/// done exactly what the build did: the analysis tool is never run.
pub proof fn lemma_failed_build_stops_analysis(tc: Toolchain, evs: Seq<EventView>)
    ensures
        ends_in_failure(run(tc, Action::Build, Stage::Begin, evs))
            ==> run(tc, Action::Valgrind, Stage::Begin, evs) == run(tc, Action::Build, Stage::Begin, evs)
            && forall|i: int| 0 <= i < run(tc, Action::Valgrind, Stage::Begin, evs).len()
                ==> !(#[trigger] run(tc, Action::Valgrind, Stage::Begin, evs)[i] is Analyse),
{
    lemma_build_prefix(tc, Stage::Begin, evs);
    lemma_build_never_analyses(tc, Stage::Begin, evs);
}

/// Without a C source the build and the analysis fail with
/// `NoSourceFiles` once the sources are listed, having made no directory and
/// run nothing.
pub proof fn lemma_no_sources(cfg: CCompiler, action: Action, paths: Seq<Seq<char>>, rest: Seq<EventView>)
    requires
        action != Action::Clean,
        c_sources(paths).len() == 0,
    ensures
        run(Toolchain::C { config: cfg }, action, Stage::Begin, seq![Event::Start, Event::Listed { paths }] + rest)
            == seq![Effect::ListSources { dir: cfg.src_dir@ }, finish_err(ActionError::NoSourceFiles)],
{
    let tc = Toolchain::C { config: cfg };
    let evs = seq![Event::Start, Event::Listed { paths }] + rest;
    reveal_with_fuel(run, 3);
    assert(evs.drop_first().drop_first() =~= rest);
    assert(evs.drop_first()[0] == Event::<Seq<char>, Seq<Seq<char>>>::Listed { paths });
    assert(run(tc, action, Stage::Begin, evs) =~= seq![
        Effect::ListSources { dir: cfg.src_dir@ },
        finish_err(ActionError::NoSourceFiles),
    ]);
}

/// The compiler is given `-I<project>/include` right after the fixed flags
/// exactly where the include directory exists, and no such flag otherwise.
pub proof fn lemma_header_flag(cfg: CCompiler, action: Action, paths: Seq<Seq<char>>, present: bool)
    requires
        action != Action::Clean,
        c_sources(paths).len() > 0,
    ensures
        run(
            Toolchain::C { config: cfg },
            action,
            Stage::Begin,
            seq![Event::Start, Event::Listed { paths }, Event::Exists { present }, Event::Finished { result: Ok(()) }],
        ) == seq![
            Effect::ListSources { dir: cfg.src_dir@ },
            Effect::CheckDir { dir: cfg.include_dir@ },
            Effect::MakeDir { dir: cfg.binary_dir@ },
            Effect::Compile {
                program: cfg.compiler@,
                args: cflags() + (if present { seq!["-I"@ + cfg.include_dir@] } else { seq![] })
                    + seq!["-o"@, cfg.target_path_spec()] + c_sources(paths) + clibs(),
            },
        ],
{
    let tc = Toolchain::C { config: cfg };
    let evs: Seq<EventView> = seq![Event::Start, Event::Listed { paths }, Event::Exists { present }, Event::Finished { result: Ok(()) }];
    reveal_with_fuel(run, 5);
    assert(evs.drop_first() =~= seq![Event::Listed { paths }, Event::Exists { present }, Event::Finished { result: Ok(()) }]);
    assert(evs.drop_first().drop_first() =~= seq![Event::Exists { present }, Event::Finished { result: Ok(()) }]);
    assert(evs.drop_first().drop_first().drop_first() =~= seq![Event::Finished { result: Ok(()) }]);
    assert(evs.drop_first().drop_first().drop_first().drop_first() =~= Seq::<EventView>::empty());
    assert(run(tc, action, Stage::Begin, evs) =~= seq![
        Effect::ListSources { dir: cfg.src_dir@ },
        Effect::CheckDir { dir: cfg.include_dir@ },
        Effect::MakeDir { dir: cfg.binary_dir@ },
        Effect::Compile {
            program: cfg.compiler@,
            args: cflags() + (if present { seq!["-I"@ + cfg.include_dir@] } else { seq![] })
                + seq!["-o"@, cfg.target_path_spec()] + c_sources(paths) + clibs(),
        },
    ]);
}

/// What a caller observes of a build that goes well: the sources, whether
/// the include directory exists, the binary directory made, the compiler
/// exiting with 0, and the report shown.
pub open spec fn good_build(paths: Seq<Seq<char>>, present: bool, stderr: Seq<char>) -> Seq<EventView> {
    seq![
        Event::Start,
        Event::Listed { paths },
        Event::Exists { present },
        Event::Finished { result: Ok(()) },
        Event::Ran { outcome: RunOutcome::Exited { code: Some(0i32), stderr } },
        Event::Ack,
    ]
}

/// The effects of a build up to its report.
pub open spec fn build_effects(cfg: CCompiler, paths: Seq<Seq<char>>, present: bool) -> Seq<EffectView> {
    seq![
        Effect::ListSources { dir: cfg.src_dir@ },
        Effect::CheckDir { dir: cfg.include_dir@ },
        Effect::MakeDir { dir: cfg.binary_dir@ },
        Effect::Compile { program: cfg.compiler@, args: cfg.compile_args_spec(c_sources(paths), present) },
        Effect::Say { text: cfg.build_report_spec() },
    ]
}

/// The compiler is told to write the binary to `<project>/bin/<target>`.
pub proof fn lemma_output_path(cfg: CCompiler, sources: Seq<Seq<char>>, present: bool)
    ensures
        ({
            let args = cfg.compile_args_spec(sources, present);
            let k: int = if present { 6 } else { 5 };
            &&& args[k] == "-o"@
            &&& args[k + 1] == cfg.target_path_spec()
            &&& cfg.target_path_spec() == joined(cfg.binary_dir@, cfg.target@)
        }),
{
}

/// With at least one C source and a compiler that succeeds, the build
/// compiles every source into `<project>/bin/<target>` and succeeds.
pub proof fn lemma_build_succeeds(cfg: CCompiler, paths: Seq<Seq<char>>, present: bool, stderr: Seq<char>)
    requires
        c_sources(paths).len() > 0,
    ensures
        run(Toolchain::C { config: cfg }, Action::Build, Stage::Begin, good_build(paths, present, stderr))
            == build_effects(cfg, paths, present).push(finish_ok()),
{
    let tc = Toolchain::C { config: cfg };
    let evs = good_build(paths, present, stderr);
    reveal_with_fuel(run, 7);
    assert(evs.drop_first() =~= evs.subrange(1, 6));
    assert(evs.drop_first().drop_first() =~= evs.subrange(2, 6));
    assert(evs.subrange(2, 6).drop_first() =~= evs.subrange(3, 6));
    assert(evs.subrange(3, 6).drop_first() =~= evs.subrange(4, 6));
    assert(evs.subrange(4, 6).drop_first() =~= evs.subrange(5, 6));
    assert(evs.subrange(5, 6).drop_first() =~= Seq::<EventView>::empty());
    assert(run(tc, Action::Build, Stage::Begin, evs) =~= build_effects(cfg, paths, present).push(finish_ok()));
}

/// With at least one C source, a compiler that succeeds and a program that
/// exits with 0 under valgrind, the analysis makes `<project>/log`, has
/// valgrind log to `<project>/log/valgrind.txt`, and succeeds.
pub proof fn lemma_analysis_succeeds(
    cfg: CCompiler,
    paths: Seq<Seq<char>>,
    present: bool,
    stderr: Seq<char>,
    output: Seq<char>,
)
    requires
        c_sources(paths).len() > 0,
    ensures
        run(
            Toolchain::C { config: cfg },
            Action::Valgrind,
            Stage::Begin,
            good_build(paths, present, stderr) + seq![
                Event::Finished { result: Ok(()) },
                Event::Ran { outcome: RunOutcome::Exited { code: Some(0i32), stderr: output } },
                Event::Ack,
            ],
        ) == build_effects(cfg, paths, present) + seq![
            Effect::MakeDir { dir: cfg.log_dir@ },
            Effect::Analyse { program: "valgrind"@, args: cfg.analysis_args_spec() },
            Effect::Say { text: cfg.analysis_report_spec() },
            finish_ok(),
        ],
        cfg.analysis_args_spec()[2] == "--log-file="@ + joined(cfg.log_dir@, "valgrind.txt"@),
{
    let tc = Toolchain::C { config: cfg };
    let evs = good_build(paths, present, stderr) + seq![
        Event::Finished { result: Ok(()) },
        Event::Ran { outcome: RunOutcome::Exited { code: Some(0i32), stderr: output } },
        Event::Ack,
    ];
    reveal_with_fuel(run, 10);
    assert(evs.drop_first() =~= evs.subrange(1, 9));
    assert(evs.drop_first().drop_first() =~= evs.subrange(2, 9));
    assert(evs.subrange(2, 9).drop_first() =~= evs.subrange(3, 9));
    assert(evs.subrange(3, 9).drop_first() =~= evs.subrange(4, 9));
    assert(evs.subrange(4, 9).drop_first() =~= evs.subrange(5, 9));
    assert(evs.subrange(5, 9).drop_first() =~= evs.subrange(6, 9));
    assert(evs.subrange(6, 9).drop_first() =~= evs.subrange(7, 9));
    assert(evs.subrange(7, 9).drop_first() =~= evs.subrange(8, 9));
    assert(evs.subrange(8, 9).drop_first() =~= Seq::<EventView>::empty());
    assert(run(tc, Action::Valgrind, Stage::Begin, evs) =~= build_effects(cfg, paths, present) + seq![
        Effect::MakeDir { dir: cfg.log_dir@ },
        Effect::Analyse { program: "valgrind"@, args: cfg.analysis_args_spec() },
        Effect::Say { text: cfg.analysis_report_spec() },
        finish_ok(),
    ]);
}

/// What a caller observes of a clean: whether `bin/` exists and its
/// removal where it does, the same for `log/`, and the report shown.
pub open spec fn clean_events(bin: bool, log: bool) -> Seq<EventView> {
    seq![Event::Start, Event::Exists { present: bin }]
        + (if bin { seq![Event::Finished { result: Ok(()) }] } else { seq![] })
        + seq![Event::Exists { present: log }]
        + (if log { seq![Event::Finished { result: Ok(()) }] } else { seq![] })
        + seq![Event::Ack]
}

/// The report of a clean.
pub open spec fn clean_report(removed: bool) -> Seq<char> {
    if removed {
        "Clean completed."@
    } else {
        "Nothing to clean."@
    }
}

/// A clean removes `bin/` and `log/` where each exists, and reports
/// "Nothing to clean." exactly where neither does. So once the directories
/// are gone, a clean removes nothing and says so, as often as it runs.
pub proof fn lemma_clean(cfg: CCompiler, bin: bool, log: bool)
    ensures
        run(Toolchain::C { config: cfg }, Action::Clean, Stage::Begin, clean_events(bin, log)) == seq![
            Effect::CheckDir { dir: cfg.binary_dir@ },
        ] + (if bin { seq![Effect::RemoveDir { dir: cfg.binary_dir@ }] } else { seq![] }) + seq![
            Effect::CheckDir { dir: cfg.log_dir@ },
        ] + (if log { seq![Effect::RemoveDir { dir: cfg.log_dir@ }] } else { seq![] }) + seq![
            Effect::Say { text: clean_report(bin || log) },
            finish_ok(),
        ],
{
    let tc = Toolchain::C { config: cfg };
    let evs = clean_events(bin, log);
    let n = evs.len() as int;
    reveal_with_fuel(run, 7);
    assert(evs.drop_first() =~= evs.subrange(1, n));
    assert(evs.drop_first().drop_first() =~= evs.subrange(2, n));
    assert(evs.subrange(2, n).drop_first() =~= evs.subrange(3, n));
    assert(evs.subrange(3, n).drop_first() =~= evs.subrange(4, n));
    if n > 4 {
        assert(evs.subrange(4, n).drop_first() =~= evs.subrange(5, n));
    }
    if n > 5 {
        assert(evs.subrange(5, n).drop_first() =~= evs.subrange(6, n));
    }
    assert(evs.subrange(n - 1, n).drop_first() =~= Seq::<EventView>::empty());
    assert(run(tc, Action::Clean, Stage::Begin, evs) =~= seq![
        Effect::CheckDir { dir: cfg.binary_dir@ },
    ] + (if bin { seq![Effect::RemoveDir { dir: cfg.binary_dir@ }] } else { seq![] }) + seq![
        Effect::CheckDir { dir: cfg.log_dir@ },
    ] + (if log { seq![Effect::RemoveDir { dir: cfg.log_dir@ }] } else { seq![] }) + seq![
        Effect::Say { text: clean_report(bin || log) },
        finish_ok(),
    ]);
}

} // verus!
