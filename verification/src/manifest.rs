//! The manifest of a package and what it is made of, each with its view as
//! plain sequences.

use vstd::prelude::*;
use crate::paths::{extension, extension_of, extension_replaced, with_extension};
use crate::text::same_text;

verus! {

/// The judged outcome that a solution is expected to get.
#[derive(Clone, Copy, Debug, PartialEq, Eq, Structural)]
pub enum Verdict {
    /// Accepted.
    AC,
    /// Time limit exceeded.
    TLE,
    /// Wrong answer.
    WA,
}

impl Default for Verdict {
    fn default() -> (verdict: Verdict)
        ensures
            verdict == Verdict::AC,
    {
        Verdict::AC
    }
}

/// A source file of the package and how to build and run it.
#[derive(Clone, Debug, PartialEq, Eq)]
pub struct SourceFile {
    /// Where the file is, relative to the package root.
    pub source: String,
    /// The compiler to build it with; empty when it needs none.
    pub compiler: String,
    /// The compiler's arguments, with `%source%` and `%bin%` as placeholders.
    pub compiler_args: Vec<String>,
    /// Where the built program goes; empty when nothing is built.
    pub bin: String,
    /// The arguments to run the built program with.
    pub bin_args: Vec<String>,
}

/// What a `SourceFile` holds, as sequences of characters.
pub struct SourceFileView {
    pub source: Seq<char>,
    pub compiler: Seq<char>,
    pub compiler_args: Seq<Seq<char>>,
    pub bin: Seq<char>,
    pub bin_args: Seq<Seq<char>>,
}

impl DeepView for SourceFile {
    type V = SourceFileView;

    open spec fn deep_view(&self) -> SourceFileView {
        SourceFileView {
            source: self.source@,
            compiler: self.compiler@,
            compiler_args: self.compiler_args.deep_view(),
            bin: self.bin@,
            bin_args: self.bin_args.deep_view(),
        }
    }
}

impl View for SourceFile {
    type V = SourceFileView;

    open spec fn view(&self) -> SourceFileView {
        self.deep_view()
    }
}

/// A file that needs no building: only its path is known.
pub open spec fn plain_file(path: Seq<char>) -> SourceFileView {
    SourceFileView {
        source: path,
        compiler: Seq::empty(),
        compiler_args: Seq::empty(),
        bin: Seq::empty(),
        bin_args: Seq::empty(),
    }
}

/// A C++ file: `g++` builds it into the path that has `.exe`, dot included,
/// in place of the extension.
pub open spec fn cpp_file(path: Seq<char>) -> SourceFileView {
    SourceFileView {
        source: path,
        compiler: "g++"@,
        compiler_args: seq!["%source%"@, "-o"@, "%bin%"@],
        bin: extension_replaced(path, ".exe"@),
        bin_args: Seq::empty(),
    }
}

/// The description that a file gets from its path alone: that of a C++ file
/// where the extension is `cpp`, and that of a plain file otherwise.
pub open spec fn source_file_for(path: Seq<char>) -> SourceFileView {
    if extension_of(path) == Some("cpp"@) {
        cpp_file(path)
    } else {
        plain_file(path)
    }
}

impl Default for SourceFile {
    fn default() -> (file: SourceFile)
        ensures
            file@ == plain_file(Seq::empty()),
    {
        let file = SourceFile {
            source: String::new(),
            compiler: String::new(),
            compiler_args: Vec::new(),
            bin: String::new(),
            bin_args: Vec::new(),
        };
        assert(file.compiler_args.deep_view() =~= Seq::empty());
        assert(file.bin_args.deep_view() =~= Seq::empty());
        file
    }
}

impl SourceFile {
    /// Describes the file at `filename` by its extension. The description is
    /// made once, here, and is not derived again later.
    pub fn from_filename(filename: &str) -> (file: SourceFile)
        ensures
            file@ == source_file_for(filename@),
    {
        let is_cpp = match extension(filename) {
            Some(e) => same_text(e.as_str(), "cpp"),
            None => false,
        };
        if is_cpp {
            let mut compiler_args: Vec<String> = Vec::new();
            compiler_args.push("%source%".to_owned());
            compiler_args.push("-o".to_owned());
            compiler_args.push("%bin%".to_owned());
            assert(compiler_args.deep_view() =~= seq!["%source%"@, "-o"@, "%bin%"@]);
            let bin_args: Vec<String> = Vec::new();
            assert(bin_args.deep_view() =~= Seq::empty());
            SourceFile {
                source: filename.to_owned(),
                compiler: "g++".to_owned(),
                compiler_args,
                bin: with_extension(filename, ".exe"),
                bin_args,
            }
        } else {
            let compiler_args: Vec<String> = Vec::new();
            let bin_args: Vec<String> = Vec::new();
            assert(compiler_args.deep_view() =~= Seq::empty());
            assert(bin_args.deep_view() =~= Seq::empty());
            SourceFile {
                source: filename.to_owned(),
                compiler: String::new(),
                compiler_args,
                bin: String::new(),
                bin_args,
            }
        }
    }
}

/// A reference solution and the verdict it is expected to get.
#[derive(Clone, Debug, PartialEq, Eq)]
pub struct Solution {
    pub sourcefile: SourceFile,
    pub verdict: Verdict,
}

/// What a `Solution` holds.
pub struct SolutionView {
    pub sourcefile: SourceFileView,
    pub verdict: Verdict,
}

impl DeepView for Solution {
    type V = SolutionView;

    open spec fn deep_view(&self) -> SolutionView {
        SolutionView { sourcefile: self.sourcefile@, verdict: self.verdict }
    }
}

impl View for Solution {
    type V = SolutionView;

    open spec fn view(&self) -> SolutionView {
        self.deep_view()
    }
}

/// One test of the problem: where its input and its expected output are.
#[derive(Clone, Debug, PartialEq, Eq)]
pub struct Testcase {
    pub input_path: String,
    pub output_path: String,
    /// Made by a generator rather than written by hand.
    pub generate: bool,
    /// Shown to contestants.
    pub sample: bool,
}

/// What a `Testcase` holds.
pub struct TestcaseView {
    pub input_path: Seq<char>,
    pub output_path: Seq<char>,
    pub generate: bool,
    pub sample: bool,
}

impl DeepView for Testcase {
    type V = TestcaseView;

    open spec fn deep_view(&self) -> TestcaseView {
        TestcaseView {
            input_path: self.input_path@,
            output_path: self.output_path@,
            generate: self.generate,
            sample: self.sample,
        }
    }
}

impl View for Testcase {
    type V = TestcaseView;

    open spec fn view(&self) -> TestcaseView {
        self.deep_view()
    }
}

/// The manifest of a problem package: everything the package holds, in the
/// order in which it was registered.
#[derive(Clone, Debug, PartialEq, Eq)]
pub struct ProblemConfig {
    pub title: String,
    /// The time limit in seconds, as the bits of a 32-bit IEEE 754 number.
    pub time_bits: u32,
    pub tags: Vec<String>,
    pub testcases: Vec<Testcase>,
    /// Generators, validators and checkers.
    pub sources: Vec<SourceFile>,
    pub solutions: Vec<Solution>,
    /// The index in `sources` of the validator, if one is chosen.
    pub validator: Option<usize>,
    /// The index in `sources` of the checker, if one is chosen.
    pub checker: Option<usize>,
}

/// What a manifest holds.
pub struct ProblemConfigView {
    pub title: Seq<char>,
    pub time_bits: u32,
    pub tags: Seq<Seq<char>>,
    pub testcases: Seq<TestcaseView>,
    pub sources: Seq<SourceFileView>,
    pub solutions: Seq<SolutionView>,
    pub validator: Option<usize>,
    pub checker: Option<usize>,
}

impl ProblemConfigView {
    /// The validator and the checker, where chosen, are entries of `sources`.
    pub open spec fn well_formed(self) -> bool {
        &&& self.validator matches Some(i) ==> i < self.sources.len()
        &&& self.checker matches Some(i) ==> i < self.sources.len()
    }
}

impl DeepView for ProblemConfig {
    type V = ProblemConfigView;

    open spec fn deep_view(&self) -> ProblemConfigView {
        ProblemConfigView {
            title: self.title@,
            time_bits: self.time_bits,
            tags: self.tags.deep_view(),
            testcases: self.testcases.deep_view(),
            sources: self.sources.deep_view(),
            solutions: self.solutions.deep_view(),
            validator: self.validator,
            checker: self.checker,
        }
    }
}

impl View for ProblemConfig {
    type V = ProblemConfigView;

    open spec fn view(&self) -> ProblemConfigView {
        self.deep_view()
    }
}

/// The manifest of a package in which nothing is registered yet.
pub open spec fn fresh_manifest(
    title: Seq<char>,
    time_bits: u32,
    tags: Seq<Seq<char>>,
) -> ProblemConfigView {
    ProblemConfigView {
        title,
        time_bits,
        tags,
        testcases: Seq::empty(),
        sources: Seq::empty(),
        solutions: Seq::empty(),
        validator: None,
        checker: None,
    }
}

impl ProblemConfig {
    /// The manifest of a new package: the given title, time limit and tags,
    /// and nothing registered.
    pub fn new(title: String, time_bits: u32, tags: Vec<String>) -> (config: ProblemConfig)
        ensures
            config@ == fresh_manifest(title@, time_bits, tags.deep_view()),
            config@.well_formed(),
    {
        let config = ProblemConfig {
            title,
            time_bits,
            tags,
            testcases: Vec::new(),
            sources: Vec::new(),
            solutions: Vec::new(),
            validator: None,
            checker: None,
        };
        assert(config.testcases.deep_view() =~= Seq::empty());
        assert(config.sources.deep_view() =~= Seq::empty());
        assert(config.solutions.deep_view() =~= Seq::empty());
        config
    }
}

} // verus!
