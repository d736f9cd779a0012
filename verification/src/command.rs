//! Commands that the program around the library is asked to run.

use vstd::prelude::*;
use crate::text::{pairs, texts};

verus! {

/// A program to start, with its arguments and the variables to add to
/// its environment.
pub struct CommandSpec {
    pub program: String,
    pub args: Vec<String>,
    pub env: Vec<(String, String)>,
    /// Whether the standard output of the program is discarded; else it
    /// goes where that of the caller goes.
    pub quiet: bool,
}

/// A `CommandSpec` as a plain value.
pub struct CommandView {
    pub program: Seq<char>,
    pub args: Seq<Seq<char>>,
    pub env: Seq<(Seq<char>, Seq<char>)>,
    pub quiet: bool,
}

impl View for CommandSpec {
    type V = CommandView;

    open spec fn view(&self) -> CommandView {
        CommandView {
            program: self.program@,
            args: texts(self.args@),
            env: pairs(self.env@),
            quiet: self.quiet,
        }
    }
}

/// The command that runs `program` with `args`, adds nothing to the
/// environment and keeps the output.
pub open spec fn plain_command(program: Seq<char>, args: Seq<Seq<char>>) -> CommandView {
    CommandView { program, args, env: Seq::empty(), quiet: false }
}

impl CommandSpec {
    /// The command that runs `program` with `args`.
    pub fn new(program: &str, args: Vec<String>) -> (out: CommandSpec)
        ensures
            out@ == plain_command(program@, texts(args@)),
    {
        let out = CommandSpec { program: program.to_owned(), args, env: Vec::new(), quiet: false };
        assert(pairs(out.env@) =~= Seq::empty());
        out
    }
}

/// The views of the commands in `v`.
pub open spec fn commands_view(v: Seq<CommandSpec>) -> Seq<CommandView> {
    Seq::new(v.len(), |i: int| v[i]@)
}

} // verus!
