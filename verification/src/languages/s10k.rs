//! S10K, step by step.

use vstd::prelude::*;
use super::lang_trait::{Language, StepOutput};

verus! {

pub const HOMEPAGE: &'static str = "https://bubbler-4.github.io/TryInBrowser/#S10K";

pub const HELP: &'static str =
    "S10K, aka S10000, the first test language for Try In Browser\nIgnores the code and input, and prints 10,000 copies of \"S\".\n\nAccepted arguments:\n-h    Show this help and exit";

/// By how much a step moves the counter.
pub const STRIDE: usize = 1000;

/// The count at which the machine stops.
pub const TARGET: usize = 100_000;

/// An S10K machine: a counter. Each step prints one "S" and moves the counter
/// by `STRIDE`, as far as its range goes; the machine goes on until the
/// counter reaches `TARGET`.
pub struct S10K {
    counter: usize,
}

impl S10K {
    /// A machine at zero.
    pub fn new() -> (machine: Self)
        ensures
            machine.model() == 0,
    {
        Self { counter: 0 }
    }
}

impl Language for S10K {
    type Model = usize;

    closed spec fn model(&self) -> usize {
        self.counter
    }

    open spec fn started(code: Seq<char>, input: Seq<char>, args: Seq<char>) -> usize {
        0
    }

    open spec fn next(m: usize) -> usize {
        if m + STRIDE <= usize::MAX {
            (m + STRIDE) as usize
        } else {
            m
        }
    }

    open spec fn output(m: usize) -> StepOutput {
        StepOutput { stdout: seq!['S'], stderr: Seq::empty(), running: Self::next(m) < TARGET }
    }

    fn init(&mut self, _code: &str, _input: &str, _args: &str) {
        self.counter = 0;
    }

    fn step(&mut self) -> (printed: (String, String, bool)) {
        if self.counter <= usize::MAX - STRIDE {
            self.counter += STRIDE;
        }
        let mut out = String::new();
        out.push('S');
        assert(out@ =~= seq!['S']);
        (out, String::new(), self.counter < TARGET)
    }

    fn homepage(&self) -> (text: &'static str)
        ensures
            text@ == HOMEPAGE@,
    {
        HOMEPAGE
    }

    fn help(&self) -> (text: &'static str)
        ensures
            text@ == HELP@,
    {
        HELP
    }
}

} // verus!
