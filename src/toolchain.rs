use vstd::prelude::*;
use vstd::string::*;
use crate::paths::{file_name_of, join_path, joined, texts};

verus! {

/// The languages a project can be written in. Only C has a toolchain; the
/// others are recognised and refused.
#[derive(Debug, Clone, Copy, PartialEq, Eq, Structural)]
pub enum Language {
    C,
    Asm,
    Cpp,
}

/// What to do with a project.
#[derive(Debug, Clone, Copy, PartialEq, Eq, Structural)]
pub enum Action {
    /// Compile the sources into `bin/<target>`.
    Build,
    /// Build, then run the binary under valgrind, logging to `log/valgrind.txt`.
    Valgrind,
    /// Remove `bin/` and `log/`.
    Clean,
}

impl Language {
    pub open spec fn label_spec(self) -> Seq<char> {
        match self {
            Language::C => "C"@,
            Language::Asm => "Assembly"@,
            Language::Cpp => "C++"@,
        }
    }

    /// The language's name as the user reads it.
    pub fn label(&self) -> (r: String)
        ensures
            r@ == self.label_spec(),
    {
        match self {
            Language::C => String::from_str("C"),
            Language::Asm => String::from_str("Assembly"),
            Language::Cpp => String::from_str("C++"),
        }
    }
}

/// The warning and debug flags every compile gets.
pub open spec fn cflags() -> Seq<Seq<char>> {
    seq!["-Wall"@, "-Wextra"@, "-Werror"@, "-Wpedantic"@, "-g"@]
}

/// The libraries every compile links.
pub open spec fn clibs() -> Seq<Seq<char>> {
    seq!["-lm"@, "-lpthread"@]
}

/// What `str::split_whitespace` yields: the runs of non-whitespace
/// characters of the text, in order.
pub uninterp spec fn words_of(s: Seq<char>) -> Seq<Seq<char>>;

/// Relies on `str::split_whitespace`: the whitespace-separated words of the text.
#[verifier::external_body]
fn split_words(s: &str) -> (r: Vec<String>)
    ensures
        texts(r@) == words_of(s@),
{
    s.split_whitespace().map(|w| w.to_string()).collect()
}

/// The C toolchain's configuration for one project.
pub struct CCompiler {
    /// Where the sources are looked for: `<project>/src`, or the project
    /// itself where it has no `src` directory.
    pub src_dir: String,
    /// `<project>/include`, passed to the compiler where it exists.
    pub include_dir: String,
    /// `<project>/bin`, which holds the built binary.
    pub binary_dir: String,
    /// `<project>/log`, which holds the analysis log.
    pub log_dir: String,
    /// The compiler executable.
    pub compiler: String,
    /// The name of the binary.
    pub target: String,
    /// Whitespace-separated arguments for the binary when it is analysed.
    pub target_options: String,
}

impl CCompiler {
    /// Where the built binary goes.
    pub open spec fn target_path_spec(self) -> Seq<char> {
        joined(self.binary_dir@, self.target@)
    }

    /// Where valgrind writes its log.
    pub open spec fn log_file_spec(self) -> Seq<char> {
        joined(self.log_dir@, "valgrind.txt"@)
    }

    /// The compiler's arguments: the fixed flags, `-I<include>` where the
    /// include directory exists, the output path, the sources and the
    /// libraries.
    pub open spec fn compile_args_spec(self, sources: Seq<Seq<char>>, headers: bool) -> Seq<Seq<char>> {
        cflags() + (if headers {
            seq!["-I"@ + self.include_dir@]
        } else {
            seq![]
        }) + seq!["-o"@, self.target_path_spec()] + sources + clibs()
    }

    /// valgrind's arguments: leak checking, the log file, the binary and the
    /// binary's own options.
    pub open spec fn analysis_args_spec(self) -> Seq<Seq<char>> {
        seq!["--leak-check=full"@, "--show-leak-kinds=all"@, "--log-file="@ + self.log_file_spec(), self.target_path_spec()]
            + words_of(self.target_options@)
    }

    pub open spec fn build_report_spec(self) -> Seq<char> {
        "Build completed. Run with ./"@ + self.target_path_spec()
    }

    pub open spec fn analysis_report_spec(self) -> Seq<char> {
        "Valgrind completed. Check ./"@ + self.log_file_spec()
    }

    /// The configuration of the project at `project_dir`. `src_is_dir` says
    /// whether `<project>/src` is a directory. Without a compiler `gcc` is
    /// used; without a target, the project directory's name, or `a.out` where
    /// the path has no final name.
    pub fn new(
        project_dir: &str,
        src_is_dir: bool,
        compiler: Option<String>,
        target: Option<String>,
        target_options: String,
    ) -> (r: CCompiler)
        ensures
            r.src_dir@ == (if src_is_dir { joined(project_dir@, "src"@) } else { project_dir@ }),
            r.include_dir@ == joined(project_dir@, "include"@),
            r.binary_dir@ == joined(project_dir@, "bin"@),
            r.log_dir@ == joined(project_dir@, "log"@),
            r.compiler@ == (match compiler {
                Some(c) => c@,
                None => "gcc"@,
            }),
            r.target@ == (match target {
                Some(t) => t@,
                None => match file_name_of(project_dir@) {
                    Some(n) => n,
                    None => "a.out"@,
                },
            }),
            r.target_options@ == target_options@,
    {
        let src_dir = if src_is_dir {
            join_path(project_dir, "src")
        } else {
            String::from_str(project_dir)
        };
        let compiler = match compiler {
            Some(c) => c,
            None => String::from_str("gcc"),
        };
        let target = match target {
            Some(t) => t,
            None => match crate::paths::file_name(project_dir) {
                Some(n) => n,
                None => String::from_str("a.out"),
            },
        };
        CCompiler {
            src_dir,
            include_dir: join_path(project_dir, "include"),
            binary_dir: join_path(project_dir, "bin"),
            log_dir: join_path(project_dir, "log"),
            compiler,
            target,
            target_options,
        }
    }

    /// The path of the built binary.
    pub fn target_path(&self) -> (r: String)
        ensures
            r@ == self.target_path_spec(),
    {
        join_path(self.binary_dir.as_str(), self.target.as_str())
    }

    /// The path of the analysis log.
    pub fn log_file(&self) -> (r: String)
        ensures
            r@ == self.log_file_spec(),
    {
        join_path(self.log_dir.as_str(), "valgrind.txt")
    }

    /// The compiler's arguments for these sources.
    pub fn compile_args(&self, sources: Vec<String>, headers: bool) -> (r: Vec<String>)
        ensures
            texts(r@) == self.compile_args_spec(texts(sources@), headers),
    {
        let mut args: Vec<String> = vec![
            String::from_str("-Wall"),
            String::from_str("-Wextra"),
            String::from_str("-Werror"),
            String::from_str("-Wpedantic"),
            String::from_str("-g"),
        ];
        assert(texts(args@) =~= cflags());
        if headers {
            let flag = String::from_str("-I").concat(self.include_dir.as_str());
            args.push(flag);
        }
        args.push(String::from_str("-o"));
        args.push(self.target_path());
        let ghost head = args@;
        let ghost given = sources@;
        let mut sources = sources;
        args.append(&mut sources);
        assert(texts(args@) =~= texts(head) + texts(given));
        args.push(String::from_str("-lm"));
        args.push(String::from_str("-lpthread"));
        assert(texts(args@) =~= self.compile_args_spec(texts(given), headers));
        args
    }

    /// valgrind's arguments for this project.
    pub fn analysis_args(&self) -> (r: Vec<String>)
        ensures
            texts(r@) == self.analysis_args_spec(),
    {
        let log_flag = String::from_str("--log-file=").concat(self.log_file().as_str());
        let mut args: Vec<String> = vec![
            String::from_str("--leak-check=full"),
            String::from_str("--show-leak-kinds=all"),
            log_flag,
            self.target_path(),
        ];
        let ghost head = args@;
        let mut words = split_words(self.target_options.as_str());
        let ghost given = words@;
        args.append(&mut words);
        assert(texts(args@) =~= self.analysis_args_spec());
        args
    }

    /// What a successful build reports.
    pub fn build_report(&self) -> (r: String)
        ensures
            r@ == self.build_report_spec(),
    {
        String::from_str("Build completed. Run with ./").concat(self.target_path().as_str())
    }

    /// What a successful analysis reports.
    pub fn analysis_report(&self) -> (r: String)
        ensures
            r@ == self.analysis_report_spec(),
    {
        String::from_str("Valgrind completed. Check ./").concat(self.log_file().as_str())
    }
}

} // verus!
