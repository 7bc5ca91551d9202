//! The outside programs that the status bar and the key bindings run.

use vstd::prelude::*;

verus! {

/// A program to run and the arguments to hand it.
#[derive(Debug)]
pub struct Command {
    pub program: String,
    pub args: Vec<String>,
}

impl Command {
    /// The arguments, each as its characters.
    pub open spec fn arg_views(self) -> Seq<Seq<char>> {
        self.args@.map_values(|a: String| a@)
    }

    /// Whether this command runs `program` with exactly the arguments `args`.
    pub open spec fn runs(self, program: Seq<char>, args: Seq<Seq<char>>) -> bool {
        self.program@ == program && self.arg_views() == args
    }
}

/// A command made of `program` and the arguments in `args`.
pub fn command(program: &str, args: Vec<String>) -> (c: Command)
    ensures
        c.program@ == program@,
        c.args@ == args@,
{
    Command { program: String::from_str(program), args }
}

} // verus!
