use vstd::prelude::*;
use vstd::string::*;
use crate::paths::{c_sources, select_sources, texts};
use crate::toolchain::{Action, CCompiler, Language};

verus! {

/// The build strategy for a project's language. Only C builds; the others
/// refuse every action.
pub enum Toolchain {
    C { config: CCompiler },
    Asm,
    Cpp,
}

impl Toolchain {
    pub open spec fn language_spec(self) -> Language {
        match self {
            Toolchain::C { .. } => Language::C,
            Toolchain::Asm => Language::Asm,
            Toolchain::Cpp => Language::Cpp,
        }
    }

    /// The toolchain of a language; `config` serves the C toolchain.
    pub fn for_language(language: Language, config: CCompiler) -> (r: Toolchain)
        ensures
            r.language_spec() == language,
            language == Language::C ==> r == (Toolchain::C { config }),
    {
        match language {
            Language::C => Toolchain::C { config },
            Language::Asm => Toolchain::Asm,
            Language::Cpp => Toolchain::Cpp,
        }
    }

    /// The language this toolchain builds.
    pub fn language(&self) -> (r: Language)
        ensures
            r == self.language_spec(),
    {
        match self {
            Toolchain::C { .. } => Language::C,
            Toolchain::Asm => Language::Asm,
            Toolchain::Cpp => Language::Cpp,
        }
    }
}

/// Why an action failed. `S` is the text type: `String`, or `Seq<char>` in
/// contracts.
#[derive(Debug, Clone, PartialEq, Eq)]
pub enum ActionError<S> {
    /// The source directory holds no C source.
    NoSourceFiles,
    /// The compiler could not be started.
    CompilerInvocationError { reason: S },
    /// The compiler exited unsuccessfully; what it wrote to standard error.
    BuildFailed { stderr: S },
    /// valgrind could not be started or waited for.
    AnalysisToolLaunchError { reason: S },
    /// The analysed program exited unsuccessfully; its exit code, or -1
    /// where it had none.
    TargetExitedNonZero { code: i32 },
    /// A directory the action needs could not be created.
    DirectoryFailed { dir: S, reason: S },
    /// A directory could not be removed.
    CleanFailed { dir: S, reason: S },
    /// The language has no toolchain.
    NotImplemented { toolchain: Language },
}

/// How a child process went.
#[derive(Debug, Clone, PartialEq, Eq)]
pub enum RunOutcome<S> {
    /// It could not be started, or not waited for.
    NotStarted { reason: S },
    /// It ran and exited: its exit code (none where a signal ended it) and
    /// its captured standard error (empty where it was not captured).
    Exited { code: Option<i32>, stderr: S },
}

/// What the caller observed, in answer to the last [`Effect`].
#[derive(Debug, PartialEq, Eq)]
pub enum Event<S, L> {
    /// Begins the action.
    Start,
    /// The paths that a recursive walk of the directory gave.
    Listed { paths: L },
    /// Whether the directory exists.
    Exists { present: bool },
    /// How creating or removing the directory went.
    Finished { result: Result<(), S> },
    /// How the program ran.
    Ran { outcome: RunOutcome<S> },
    /// The text was shown.
    Ack,
}

/// What the caller is to do next.
#[derive(Debug, PartialEq, Eq)]
pub enum Effect<S, L> {
    /// Walk the directory recursively and answer `Listed`.
    ListSources { dir: S },
    /// Answer `Exists`: whether the directory exists.
    CheckDir { dir: S },
    /// Create the directory and its parents; answer `Finished`.
    MakeDir { dir: S },
    /// Run the compiler, capturing its output; answer `Ran`.
    Compile { program: S, args: L },
    /// Run the analysis tool with inherited output; answer `Ran`.
    Analyse { program: S, args: L },
    /// Remove the directory recursively; answer `Finished`.
    RemoveDir { dir: S },
    /// Show the text on standard output; answer `Ack`.
    Say { text: S },
    /// The action is over, with this result.
    Finish { result: Result<(), ActionError<S>> },
}

/// Where an action stands.
#[derive(Debug, Clone, PartialEq, Eq)]
pub enum Stage<L> {
    Begin,
    Sources,
    Headers { sources: L },
    BinDir { args: L },
    Compiling,
    Built,
    LogDir,
    Analysing,
    CheckBin,
    RemoveBin,
    CheckLog { cleaned: bool },
    RemoveLog,
    Closing,
    Done,
}

pub type ErrorView = ActionError<Seq<char>>;
pub type OutcomeView = RunOutcome<Seq<char>>;
pub type EventView = Event<Seq<char>, Seq<Seq<char>>>;
pub type EffectView = Effect<Seq<char>, Seq<Seq<char>>>;
pub type StageView = Stage<Seq<Seq<char>>>;

impl View for ActionError<String> {
    type V = ErrorView;

    open spec fn view(&self) -> ErrorView {
        match self {
            ActionError::NoSourceFiles => ActionError::NoSourceFiles,
            ActionError::CompilerInvocationError { reason } => ActionError::CompilerInvocationError { reason: reason@ },
            ActionError::BuildFailed { stderr } => ActionError::BuildFailed { stderr: stderr@ },
            ActionError::AnalysisToolLaunchError { reason } => ActionError::AnalysisToolLaunchError { reason: reason@ },
            ActionError::TargetExitedNonZero { code } => ActionError::TargetExitedNonZero { code: *code },
            ActionError::DirectoryFailed { dir, reason } => ActionError::DirectoryFailed { dir: dir@, reason: reason@ },
            ActionError::CleanFailed { dir, reason } => ActionError::CleanFailed { dir: dir@, reason: reason@ },
            ActionError::NotImplemented { toolchain } => ActionError::NotImplemented { toolchain: *toolchain },
        }
    }
}

impl View for RunOutcome<String> {
    type V = OutcomeView;

    open spec fn view(&self) -> OutcomeView {
        match self {
            RunOutcome::NotStarted { reason } => RunOutcome::NotStarted { reason: reason@ },
            RunOutcome::Exited { code, stderr } => RunOutcome::Exited { code: *code, stderr: stderr@ },
        }
    }
}

pub open spec fn unit_result_view(r: Result<(), String>) -> Result<(), Seq<char>> {
    match r {
        Ok(()) => Ok(()),
        Err(e) => Err(e@),
    }
}

impl View for Event<String, Vec<String>> {
    type V = EventView;

    open spec fn view(&self) -> EventView {
        match self {
            Event::Start => Event::Start,
            Event::Listed { paths } => Event::Listed { paths: texts(paths@) },
            Event::Exists { present } => Event::Exists { present: *present },
            Event::Finished { result } => Event::Finished { result: unit_result_view(*result) },
            Event::Ran { outcome } => Event::Ran { outcome: outcome@ },
            Event::Ack => Event::Ack,
        }
    }
}

impl View for Effect<String, Vec<String>> {
    type V = EffectView;

    open spec fn view(&self) -> EffectView {
        match self {
            Effect::ListSources { dir } => Effect::ListSources { dir: dir@ },
            Effect::CheckDir { dir } => Effect::CheckDir { dir: dir@ },
            Effect::MakeDir { dir } => Effect::MakeDir { dir: dir@ },
            Effect::Compile { program, args } => Effect::Compile { program: program@, args: texts(args@) },
            Effect::Analyse { program, args } => Effect::Analyse { program: program@, args: texts(args@) },
            Effect::RemoveDir { dir } => Effect::RemoveDir { dir: dir@ },
            Effect::Say { text } => Effect::Say { text: text@ },
            Effect::Finish { result } => Effect::Finish {
                result: match result {
                    Ok(()) => Ok(()),
                    Err(e) => Err(e@),
                },
            },
        }
    }
}

impl View for Stage<Vec<String>> {
    type V = StageView;

    open spec fn view(&self) -> StageView {
        match self {
            Stage::Begin => Stage::Begin,
            Stage::Sources => Stage::Sources,
            Stage::Headers { sources } => Stage::Headers { sources: texts(sources@) },
            Stage::BinDir { args } => Stage::BinDir { args: texts(args@) },
            Stage::Compiling => Stage::Compiling,
            Stage::Built => Stage::Built,
            Stage::LogDir => Stage::LogDir,
            Stage::Analysing => Stage::Analysing,
            Stage::CheckBin => Stage::CheckBin,
            Stage::RemoveBin => Stage::RemoveBin,
            Stage::CheckLog { cleaned } => Stage::CheckLog { cleaned: *cleaned },
            Stage::RemoveLog => Stage::RemoveLog,
            Stage::Closing => Stage::Closing,
            Stage::Done => Stage::Done,
        }
    }
}

pub open spec fn fail(e: ErrorView) -> (StageView, EffectView) {
    (Stage::Done, Effect::Finish { result: Err(e) })
}

/// Whether the C toolchain, at `stage`, takes `ev`: the event must answer the
/// effect that led to the stage.
pub open spec fn admits_c(stage: StageView, ev: EventView) -> bool {
    match stage {
        Stage::Begin => ev is Start,
        Stage::Sources => ev is Listed,
        Stage::Headers { .. } => ev is Exists,
        Stage::BinDir { .. } => ev is Finished,
        Stage::Compiling => ev is Ran,
        Stage::Built => ev is Ack,
        Stage::LogDir => ev is Finished,
        Stage::Analysing => ev is Ran,
        Stage::CheckBin => ev is Exists,
        Stage::RemoveBin => ev is Finished,
        Stage::CheckLog { .. } => ev is Exists,
        Stage::RemoveLog => ev is Finished,
        Stage::Closing => ev is Ack,
        Stage::Done => false,
    }
}

/// Whether a session of `tc` at `stage` takes `ev`. A toolchain other than
/// C takes only the start.
pub open spec fn admits(tc: Toolchain, stage: StageView, ev: EventView) -> bool {
    match tc {
        Toolchain::C { .. } => admits_c(stage, ev),
        _ => stage is Begin && ev is Start,
    }
}

/// The C toolchain's next stage and effect, at `stage`, on `ev`.
pub open spec fn reply_c(cfg: CCompiler, action: Action, stage: StageView, ev: EventView) -> (StageView, EffectView) {
    match (stage, ev) {
        (Stage::Begin, Event::Start) => match action {
            Action::Clean => (Stage::CheckBin, Effect::CheckDir { dir: cfg.binary_dir@ }),
            _ => (Stage::Sources, Effect::ListSources { dir: cfg.src_dir@ }),
        },
        (Stage::Sources, Event::Listed { paths }) => {
            let sources = c_sources(paths);
            if sources.len() == 0 {
                fail(ActionError::NoSourceFiles)
            } else {
                (Stage::Headers { sources }, Effect::CheckDir { dir: cfg.include_dir@ })
            }
        },
        (Stage::Headers { sources }, Event::Exists { present }) => (
            Stage::BinDir { args: cfg.compile_args_spec(sources, present) },
            Effect::MakeDir { dir: cfg.binary_dir@ },
        ),
        (Stage::BinDir { args }, Event::Finished { result }) => match result {
            Ok(()) => (Stage::Compiling, Effect::Compile { program: cfg.compiler@, args }),
            Err(reason) => fail(ActionError::DirectoryFailed { dir: cfg.binary_dir@, reason }),
        },
        (Stage::Compiling, Event::Ran { outcome }) => match outcome {
            RunOutcome::NotStarted { reason } => fail(ActionError::CompilerInvocationError { reason }),
            RunOutcome::Exited { code, stderr } => if code == Some(0i32) {
                (
                    if action == Action::Valgrind { Stage::Built } else { Stage::Closing },
                    Effect::Say { text: cfg.build_report_spec() },
                )
            } else {
                fail(ActionError::BuildFailed { stderr })
            },
        },
        (Stage::Built, Event::Ack) => (Stage::LogDir, Effect::MakeDir { dir: cfg.log_dir@ }),
        (Stage::LogDir, Event::Finished { result }) => match result {
            Ok(()) => (Stage::Analysing, Effect::Analyse { program: "valgrind"@, args: cfg.analysis_args_spec() }),
            Err(reason) => fail(ActionError::DirectoryFailed { dir: cfg.log_dir@, reason }),
        },
        (Stage::Analysing, Event::Ran { outcome }) => match outcome {
            RunOutcome::NotStarted { reason } => fail(ActionError::AnalysisToolLaunchError { reason }),
            RunOutcome::Exited { code, .. } => if code == Some(0i32) {
                (Stage::Closing, Effect::Say { text: cfg.analysis_report_spec() })
            } else {
                fail(ActionError::TargetExitedNonZero { code: code.unwrap_or(-1i32) })
            },
        },
        (Stage::CheckBin, Event::Exists { present }) => if present {
            (Stage::RemoveBin, Effect::RemoveDir { dir: cfg.binary_dir@ })
        } else {
            (Stage::CheckLog { cleaned: false }, Effect::CheckDir { dir: cfg.log_dir@ })
        },
        (Stage::RemoveBin, Event::Finished { result }) => match result {
            Ok(()) => (Stage::CheckLog { cleaned: true }, Effect::CheckDir { dir: cfg.log_dir@ }),
            Err(reason) => fail(ActionError::CleanFailed { dir: cfg.binary_dir@, reason }),
        },
        (Stage::CheckLog { cleaned }, Event::Exists { present }) => if present {
            (Stage::RemoveLog, Effect::RemoveDir { dir: cfg.log_dir@ })
        } else if cleaned {
            (Stage::Closing, Effect::Say { text: "Clean completed."@ })
        } else {
            (Stage::Closing, Effect::Say { text: "Nothing to clean."@ })
        },
        (Stage::RemoveLog, Event::Finished { result }) => match result {
            Ok(()) => (Stage::Closing, Effect::Say { text: "Clean completed."@ }),
            Err(reason) => fail(ActionError::CleanFailed { dir: cfg.log_dir@, reason }),
        },
        (Stage::Closing, Event::Ack) => (Stage::Done, Effect::Finish { result: Ok(()) }),
        _ => (stage, Effect::Finish { result: Ok(()) }),
    }
}

/// A session's next stage and effect, at `stage`, on `ev`. A toolchain other
/// than C fails at once.
pub open spec fn reply(tc: Toolchain, action: Action, stage: StageView, ev: EventView) -> (StageView, EffectView) {
    match tc {
        Toolchain::C { config } => reply_c(config, action, stage, ev),
        _ => fail(ActionError::NotImplemented { toolchain: tc.language_spec() }),
    }
}

/// The effects of a session of `tc` doing `action` from `stage` on the events
/// `evs`, up to the first event that it does not take.
pub open spec fn run(tc: Toolchain, action: Action, stage: StageView, evs: Seq<EventView>) -> Seq<EffectView>
    decreases evs.len(),
{
    if evs.len() == 0 || !admits(tc, stage, evs[0]) {
        seq![]
    } else {
        let (next, eff) = reply(tc, action, stage, evs[0]);
        seq![eff] + run(tc, action, next, evs.drop_first())
    }
}

/// One action on one project, from its start to its result.
pub struct Session {
    pub toolchain: Toolchain,
    pub action: Action,
    pub stage: Stage<Vec<String>>,
}

fn fail_now(e: ActionError<String>) -> (r: (Stage<Vec<String>>, Effect<String, Vec<String>>))
    ensures
        (r.0@, r.1@) == fail(e@),
{
    (Stage::Done, Effect::Finish { result: Err(e) })
}

/// The C toolchain's step: [`reply_c`] carried out.
fn step_c(
    cfg: &CCompiler,
    action: Action,
    stage: Stage<Vec<String>>,
    ev: Event<String, Vec<String>>,
) -> (r: (Stage<Vec<String>>, Effect<String, Vec<String>>))
    requires
        admits_c(stage@, ev@),
    ensures
        (r.0@, r.1@) == reply_c(*cfg, action, stage@, ev@),
{
    match (stage, ev) {
        (Stage::Begin, Event::Start) => match action {
            Action::Clean => (Stage::CheckBin, Effect::CheckDir { dir: cfg.binary_dir.clone() }),
            _ => (Stage::Sources, Effect::ListSources { dir: cfg.src_dir.clone() }),
        },
        (Stage::Sources, Event::Listed { paths }) => {
            let sources = select_sources(&paths);
            if sources.len() == 0 {
                fail_now(ActionError::NoSourceFiles)
            } else {
                (Stage::Headers { sources }, Effect::CheckDir { dir: cfg.include_dir.clone() })
            }
        },
        (Stage::Headers { sources }, Event::Exists { present }) => (
            Stage::BinDir { args: cfg.compile_args(sources, present) },
            Effect::MakeDir { dir: cfg.binary_dir.clone() },
        ),
        (Stage::BinDir { args }, Event::Finished { result }) => match result {
            Ok(()) => (Stage::Compiling, Effect::Compile { program: cfg.compiler.clone(), args }),
            Err(reason) => fail_now(ActionError::DirectoryFailed { dir: cfg.binary_dir.clone(), reason }),
        },
        (Stage::Compiling, Event::Ran { outcome }) => match outcome {
            RunOutcome::NotStarted { reason } => fail_now(ActionError::CompilerInvocationError { reason }),
            RunOutcome::Exited { code, stderr } => {
                let ok = match code {
                    Some(c) => c == 0,
                    None => false,
                };
                if ok {
                    let next = match action {
                        Action::Valgrind => Stage::Built,
                        _ => Stage::Closing,
                    };
                    (next, Effect::Say { text: cfg.build_report() })
                } else {
                    fail_now(ActionError::BuildFailed { stderr })
                }
            },
        },
        (Stage::Built, Event::Ack) => (Stage::LogDir, Effect::MakeDir { dir: cfg.log_dir.clone() }),
        (Stage::LogDir, Event::Finished { result }) => match result {
            Ok(()) => (
                Stage::Analysing,
                Effect::Analyse { program: String::from_str("valgrind"), args: cfg.analysis_args() },
            ),
            Err(reason) => fail_now(ActionError::DirectoryFailed { dir: cfg.log_dir.clone(), reason }),
        },
        (Stage::Analysing, Event::Ran { outcome }) => match outcome {
            RunOutcome::NotStarted { reason } => fail_now(ActionError::AnalysisToolLaunchError { reason }),
            RunOutcome::Exited { code, .. } => match code {
                Some(c) if c == 0 => (Stage::Closing, Effect::Say { text: cfg.analysis_report() }),
                Some(c) => fail_now(ActionError::TargetExitedNonZero { code: c }),
                None => fail_now(ActionError::TargetExitedNonZero { code: -1 }),
            },
        },
        (Stage::CheckBin, Event::Exists { present }) => if present {
            (Stage::RemoveBin, Effect::RemoveDir { dir: cfg.binary_dir.clone() })
        } else {
            (Stage::CheckLog { cleaned: false }, Effect::CheckDir { dir: cfg.log_dir.clone() })
        },
        (Stage::RemoveBin, Event::Finished { result }) => match result {
            Ok(()) => (Stage::CheckLog { cleaned: true }, Effect::CheckDir { dir: cfg.log_dir.clone() }),
            Err(reason) => fail_now(ActionError::CleanFailed { dir: cfg.binary_dir.clone(), reason }),
        },
        (Stage::CheckLog { cleaned }, Event::Exists { present }) => if present {
            (Stage::RemoveLog, Effect::RemoveDir { dir: cfg.log_dir.clone() })
        } else if cleaned {
            (Stage::Closing, Effect::Say { text: String::from_str("Clean completed.") })
        } else {
            (Stage::Closing, Effect::Say { text: String::from_str("Nothing to clean.") })
        },
        (Stage::RemoveLog, Event::Finished { result }) => match result {
            Ok(()) => (Stage::Closing, Effect::Say { text: String::from_str("Clean completed.") }),
            Err(reason) => fail_now(ActionError::CleanFailed { dir: cfg.log_dir.clone(), reason }),
        },
        (Stage::Closing, Event::Ack) => (Stage::Done, Effect::Finish { result: Ok(()) }),
        (stage, _) => {
            proof {
                assert(false);
            }
            (stage, Effect::Finish { result: Ok(()) })
        },
    }
}

impl Session {
    /// A session of `toolchain` doing `action`, before its start.
    pub fn new(toolchain: Toolchain, action: Action) -> (r: Session)
        ensures
            r.toolchain == toolchain,
            r.action == action,
            r.stage@ == Stage::<Seq<Seq<char>>>::Begin,
    {
        Session { toolchain, action, stage: Stage::Begin }
    }

    /// Whether the session takes `ev` now; [`Session::step`] asks for it.
    pub fn accepts(&self, ev: &Event<String, Vec<String>>) -> (r: bool)
        ensures
            r == admits(self.toolchain, self.stage@, ev@),
    {
        let shape = match (&self.stage, ev) {
            (Stage::Begin, Event::Start) => true,
            (Stage::Sources, Event::Listed { .. }) => true,
            (Stage::Headers { .. }, Event::Exists { .. }) => true,
            (Stage::BinDir { .. }, Event::Finished { .. }) => true,
            (Stage::Compiling, Event::Ran { .. }) => true,
            (Stage::Built, Event::Ack) => true,
            (Stage::LogDir, Event::Finished { .. }) => true,
            (Stage::Analysing, Event::Ran { .. }) => true,
            (Stage::CheckBin, Event::Exists { .. }) => true,
            (Stage::RemoveBin, Event::Finished { .. }) => true,
            (Stage::CheckLog { .. }, Event::Exists { .. }) => true,
            (Stage::RemoveLog, Event::Finished { .. }) => true,
            (Stage::Closing, Event::Ack) => true,
            _ => false,
        };
        match &self.toolchain {
            Toolchain::C { .. } => shape,
            _ => match (&self.stage, ev) {
                (Stage::Begin, Event::Start) => true,
                _ => false,
            },
        }
    }

    /// Takes what the caller observed and returns what it is to do next.
    pub fn step(&mut self, ev: Event<String, Vec<String>>) -> (eff: Effect<String, Vec<String>>)
        requires
            admits(old(self).toolchain, old(self).stage@, ev@),
        ensures
            final(self).toolchain == old(self).toolchain,
            final(self).action == old(self).action,
            (final(self).stage@, eff@) == reply(old(self).toolchain, old(self).action, old(self).stage@, ev@),
    {
        let mut stage: Stage<Vec<String>> = Stage::Done;
        core::mem::swap(&mut stage, &mut self.stage);
        match &self.toolchain {
            Toolchain::C { config } => {
                let (next, eff) = step_c(config, self.action, stage, ev);
                self.stage = next;
                eff
            },
            Toolchain::Asm => Effect::Finish {
                result: Err(ActionError::NotImplemented { toolchain: Language::Asm }),
            },
            Toolchain::Cpp => Effect::Finish {
                result: Err(ActionError::NotImplemented { toolchain: Language::Cpp }),
            },
        }
    }

    /// Whether the action is over.
    pub fn is_done(&self) -> (r: bool)
        ensures
            r == (self.stage@ is Done),
    {
        match self.stage {
            Stage::Done => true,
            _ => false,
        }
    }
}

} // verus!
