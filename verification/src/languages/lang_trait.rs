//! What a language that runs step by step offers.

use vstd::prelude::*;

verus! {

/// What one step of a machine gives: what it printed on standard output and
/// on standard error, and whether the machine goes on.
pub struct StepOutput {
    pub stdout: Seq<char>,
    pub stderr: Seq<char>,
    pub running: bool,
}

/// A language whose programs run one step at a time. `Model` is the machine
/// as plain values; `started` and `next` say how it begins and how it moves,
/// and `output` what a step from a given state prints.
pub trait Language: Sized {
    /// The machine as plain values.
    type Model;

    /// This machine as plain values.
    spec fn model(&self) -> Self::Model;

    /// The machine in front of the program `code`.
    spec fn started(code: Seq<char>, input: Seq<char>, args: Seq<char>) -> Self::Model;

    /// The machine one step after `m`.
    spec fn next(m: Self::Model) -> Self::Model;

    /// What the step from `m` gives.
    spec fn output(m: Self::Model) -> StepOutput;

    /// Puts the machine in front of the program `code`.
    fn init(&mut self, code: &str, input: &str, args: &str)
        ensures
            final(self).model() == Self::started(code@, input@, args@),
    ;

    /// Runs one step and gives what it printed and whether the machine goes
    /// on.
    fn step(&mut self) -> (printed: (String, String, bool))
        ensures
            final(self).model() == Self::next(old(self).model()),
            printed.0@ == Self::output(old(self).model()).stdout,
            printed.1@ == Self::output(old(self).model()).stderr,
            printed.2 == Self::output(old(self).model()).running,
    ;

    /// Where the language is described.
    fn homepage(&self) -> &'static str;

    /// How the language is used.
    fn help(&self) -> &'static str;
}

} // verus!
