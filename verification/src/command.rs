//! Command lines handed to the network backend, and what comes back from
//! running one.

use vstd::prelude::*;
use vstd::string::StringExecFns;

verus! {

/// The views of a sequence of strings.
pub open spec fn texts(items: Seq<String>) -> Seq<Seq<char>> {
    items.map_values(|s: String| s@)
}

/// A program and its arguments, ready to be run by the caller.
#[derive(Clone, Debug, PartialEq, Eq)]
pub struct CommandLine {
    pub program: String,
    pub args: Vec<String>,
}

/// The mathematical content of a [`CommandLine`].
#[verifier::ext_equal]
pub struct CommandLineView {
    pub program: Seq<char>,
    pub args: Seq<Seq<char>>,
}

impl View for CommandLine {
    type V = CommandLineView;

    open spec fn view(&self) -> CommandLineView {
        CommandLineView { program: self.program@, args: texts(self.args@) }
    }
}

/// The views of a sequence of command lines.
pub open spec fn lines(plan: Seq<CommandLine>) -> Seq<CommandLineView> {
    plan.map_values(|c: CommandLine| c@)
}

/// What running a command line produced: whether it exited successfully, and
/// its two output streams as text.
#[derive(Clone, Debug, PartialEq, Eq)]
pub struct CommandOutcome {
    pub success: bool,
    pub stdout: String,
    pub stderr: String,
}

/// The mathematical content of a [`CommandOutcome`].
#[verifier::ext_equal]
pub struct CommandOutcomeView {
    pub success: bool,
    pub stdout: Seq<char>,
    pub stderr: Seq<char>,
}

impl View for CommandOutcome {
    type V = CommandOutcomeView;

    open spec fn view(&self) -> CommandOutcomeView {
        CommandOutcomeView { success: self.success, stdout: self.stdout@, stderr: self.stderr@ }
    }
}

/// Appends a copy of `text` to `args`.
pub fn push_text(args: &mut Vec<String>, text: &str)
    ensures
        texts(final(args)@) == texts(old(args)@).push(text@),
{
    let owned = String::from_str(text);
    args.push(owned);
}

/// Appends `line` to `plan`.
pub fn push_line(plan: &mut Vec<CommandLine>, line: CommandLine)
    ensures
        lines(final(plan)@) == lines(old(plan)@).push(line@),
{
    plan.push(line);
}

impl CommandLine {
    /// A command line for `program` with no arguments yet.
    pub fn new(program: &str) -> (line: CommandLine)
        ensures
            line@ == (CommandLineView { program: program@, args: Seq::empty() }),
    {
        CommandLine { program: String::from_str(program), args: Vec::new() }
    }

    /// The same command line with `text` as one more argument.
    pub fn arg(self, text: &str) -> (line: CommandLine)
        ensures
            line@ == (CommandLineView { program: self@.program, args: self@.args.push(text@) }),
    {
        let mut line = self;
        push_text(&mut line.args, text);
        line
    }
}

} // verus!
