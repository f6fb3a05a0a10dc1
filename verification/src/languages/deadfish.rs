//! Deadfish, step by step.

use vstd::prelude::*;
use vstd::slice::slice_to_vec;
use vstd::utf8::encode_utf8;
use super::lang_trait::{Language, StepOutput};
use crate::lang::deadfish::{next_counter, shown, DECREMENT, INCREMENT, OUTPUT, SQUARE};
use crate::lang::Fault;
use crate::text::{push_decimal, str_eq};

verus! {

pub const HOMEPAGE: &'static str = "https://esolangs.org/wiki/Deadfish";

pub const HELP: &'static str =
    "Deadfish (https://esolangs.org/wiki/Deadfish)\nAccepted arguments:\n-h    Show this help and exit\n-o    Output as charcode\n-n    Output as number (default)";

/// How `o` prints the counter.
#[derive(Clone, Copy, Debug, PartialEq, Eq, Structural)]
pub enum OutputMode {
    /// As a number on a line of its own.
    Num,
    /// As the character with that code.
    Char,
}

/// A Deadfish machine as plain values.
pub struct Machine {
    pub counter: int,
    pub code: Seq<u8>,
    /// The index of the next command.
    pub idx: nat,
    pub output_mode: OutputMode,
    /// The counter outgrew what a `usize` holds; the machine has stopped.
    pub overflown: bool,
}

impl Machine {
    /// Whether the machine has nothing more to do.
    pub open spec fn done(self) -> bool {
        self.overflown || self.idx >= self.code.len()
    }

    /// The counter after the next command, were there no bound on it.
    pub open spec fn target(self) -> int {
        next_counter(self.counter, self.code[self.idx as int])
    }
}

/// A Deadfish machine.
pub struct Deadfish {
    counter: usize,
    code: Vec<u8>,
    idx: usize,
    output_mode: OutputMode,
    overflown: bool,
}

impl Deadfish {
    /// A machine with no program.
    pub fn new() -> (machine: Self)
        ensures
            machine.model() == (Machine {
                counter: 0,
                code: Seq::empty(),
                idx: 0,
                output_mode: OutputMode::Num,
                overflown: false,
            }),
    {
        Self { counter: 0, code: Vec::new(), idx: 0, output_mode: OutputMode::Num, overflown: false }
    }
}

impl Language for Deadfish {
    type Model = Machine;

    closed spec fn model(&self) -> Machine {
        Machine {
            counter: self.counter as int,
            code: self.code@,
            idx: self.idx as nat,
            output_mode: self.output_mode,
            overflown: self.overflown,
        }
    }

    open spec fn started(code: Seq<char>, input: Seq<char>, args: Seq<char>) -> Machine {
        Machine {
            counter: 0,
            code: encode_utf8(code),
            idx: 0,
            output_mode: if args == "-o"@ {
                OutputMode::Char
            } else {
                OutputMode::Num
            },
            overflown: false,
        }
    }

    /// A machine that is done stays as it is. Any other runs its next
    /// command; where that takes the counter over what a `usize` holds, the
    /// counter stays and the machine stops.
    open spec fn next(m: Machine) -> Machine {
        if m.done() {
            m
        } else if m.target() > usize::MAX {
            Machine { idx: m.idx + 1, overflown: true, ..m }
        } else {
            Machine { counter: m.target(), idx: m.idx + 1, ..m }
        }
    }

    /// A machine that is done prints nothing and does not go on. A step that
    /// takes the counter over what a `usize` holds reports that on standard
    /// error and does not go on. Any other step goes on, and writes nothing
    /// to standard error; `o` prints the counter.
    open spec fn output(m: Machine) -> StepOutput {
        if m.done() {
            StepOutput { stdout: Seq::empty(), stderr: Seq::empty(), running: false }
        } else if m.target() > usize::MAX {
            StepOutput {
                stdout: Seq::empty(),
                stderr: Fault::ArithmeticOverflow.text(),
                running: false,
            }
        } else if m.code[m.idx as int] == OUTPUT {
            StepOutput {
                stdout: shown(m.counter, m.output_mode is Char),
                stderr: Seq::empty(),
                running: true,
            }
        } else {
            StepOutput { stdout: Seq::empty(), stderr: Seq::empty(), running: true }
        }
    }

    fn init(&mut self, code: &str, _input: &str, args: &str) {
        self.code = slice_to_vec(code.as_bytes());
        self.idx = 0;
        self.output_mode = if str_eq(args, "-o") {
            OutputMode::Char
        } else {
            OutputMode::Num
        };
        self.counter = 0;
        self.overflown = false;
    }

    fn step(&mut self) -> (printed: (String, String, bool)) {
        if self.overflown || self.idx >= self.code.len() {
            return (String::new(), String::new(), false);
        }
        let cmd = self.code[self.idx];
        let counter = self.counter;
        self.idx += 1;
        let target: Option<usize> = if cmd == INCREMENT {
            if counter == 255 {
                Some(0)
            } else {
                counter.checked_add(1)
            }
        } else if cmd == DECREMENT {
            if counter == 0 || counter == 257 {
                Some(0)
            } else {
                Some(counter - 1)
            }
        } else if cmd == SQUARE {
            if counter == 16 {
                Some(0)
            } else {
                counter.checked_mul(counter)
            }
        } else {
            Some(counter)
        };
        match target {
            Some(next) => {
                self.counter = next;
            },
            None => {
                self.overflown = true;
                return (String::new(), Fault::ArithmeticOverflow.message().to_owned(), false);
            },
        }
        let mut out = String::new();
        if cmd == OUTPUT {
            match self.output_mode {
                OutputMode::Char => {
                    out.push((counter % 256) as u8 as char);
                    assert(out@ =~= shown(counter as int, true));
                },
                OutputMode::Num => {
                    push_decimal(&mut out, counter as u64);
                    out.push('\n');
                    assert(out@ =~= shown(counter as int, false));
                },
            }
        }
        (out, String::new(), true)
    }

    fn homepage(&self) -> (text: &'static str)
        ensures
            text@ == HOMEPAGE@,
    {
        HOMEPAGE
    }

    fn help(&self) -> (text: &'static str)
        ensures
            text@ == HELP@,
    {
        HELP
    }
}

/// A step that is not at the end, and whose counter stays within what a
/// `usize` holds, moves on by exactly one command and goes on. It writes
/// nothing to standard error, and something to standard output exactly where
/// the command is `o`.
pub proof fn step_goes_on(m: Machine)
    requires
        !m.done(),
        m.target() <= usize::MAX,
    ensures
        Deadfish::next(m).idx == m.idx + 1,
        Deadfish::next(m).counter == m.target(),
        !Deadfish::next(m).overflown,
        Deadfish::output(m).running,
        Deadfish::output(m).stderr == Seq::<char>::empty(),
        Deadfish::output(m).stdout.len() > 0 <==> m.code[m.idx as int] == OUTPUT,
{
}

/// A step at the end changes nothing, writes nothing and does not go on.
pub proof fn step_at_the_end(m: Machine)
    requires
        m.done(),
    ensures
        Deadfish::next(m) == m,
        !Deadfish::output(m).running,
        Deadfish::output(m).stdout == Seq::<char>::empty(),
        Deadfish::output(m).stderr == Seq::<char>::empty(),
{
}

} // verus!
