//! What is handed to the tool and what comes back from it.
//!
//! Nothing here starts a process. An [`Invocation`] names the subcommand and
//! arguments of one run of the tool; a [`ProcessOutput`] is what such a run
//! left behind. Whoever owns the process table runs the one and reports the
//! other.

use vstd::prelude::*;
use vstd::string::*;

verus! {

/// Name of the program that every [`Invocation`] is meant for.
pub const PROGRAM: &'static str = "buildah";

/// Exit status and captured streams of a finished run of the tool.
#[derive(Debug, PartialEq, Eq)]
pub struct ProcessOutput {
    /// Whether the tool exited with status zero.
    pub success: bool,
    pub stdout: Vec<u8>,
    pub stderr: Vec<u8>,
}

/// A [`ProcessOutput`] as contracts read it.
pub struct ProcessOutputView {
    pub success: bool,
    pub stdout: Seq<u8>,
    pub stderr: Seq<u8>,
}

impl View for ProcessOutput {
    type V = ProcessOutputView;

    open spec fn view(&self) -> ProcessOutputView {
        ProcessOutputView { success: self.success, stdout: self.stdout@, stderr: self.stderr@ }
    }
}

impl Clone for ProcessOutput {
    fn clone(&self) -> (r: Self)
        ensures
            r@ == self@,
    {
        ProcessOutput {
            success: self.success,
            stdout: self.stdout.clone(),
            stderr: self.stderr.clone(),
        }
    }
}

/// What an attempt to run the tool gave: the finished run, or the reason why
/// the program could not be started.
pub type Outcome = Result<ProcessOutput, std::io::Error>;

/// The views of a sequence of strings, in order.
pub open spec fn texts(strings: Seq<String>) -> Seq<Seq<char>> {
    strings.map_values(|s: String| s@)
}

/// One run of the tool: a subcommand followed by its arguments.
#[derive(Debug, PartialEq, Eq)]
pub struct Invocation {
    pub subcommand: String,
    pub args: Vec<String>,
}

impl View for Invocation {
    type V = Seq<Seq<char>>;

    /// The words that follow the program name on the command line.
    open spec fn view(&self) -> Seq<Seq<char>> {
        seq![self.subcommand@] + texts(self.args@)
    }
}

impl Clone for Invocation {
    fn clone(&self) -> (r: Self)
        ensures
            r@ == self@,
    {
        let r = Invocation { subcommand: self.subcommand.clone(), args: self.args.clone() };
        assert(texts(r.args@) =~= texts(self.args@));
        r
    }
}

impl Invocation {
    /// An invocation of `subcommand` without arguments.
    pub fn new(subcommand: &str) -> (r: Invocation)
        ensures
            r@ == seq![subcommand@],
    {
        let r = Invocation { subcommand: subcommand.to_owned(), args: Vec::new() };
        assert(r@ =~= seq![subcommand@]);
        r
    }

    /// The same invocation with `arg` added as its last word.
    pub fn arg(self, arg: &str) -> (r: Invocation)
        ensures
            r@ == self@.push(arg@),
    {
        let Invocation { subcommand, mut args } = self;
        let ghost before = args@;
        args.push(arg.to_owned());
        let r = Invocation { subcommand, args };
        assert(texts(r.args@) =~= texts(before).push(arg@));
        assert(r@ =~= self@.push(arg@));
        r
    }
}

} // verus!
