//! `///`: a language whose only operation is to replace text in the rest of the
//! program.

use vstd::prelude::*;
use super::{Fault, LangWriter, Run, Signal, STEP_LIMIT};
use crate::text::{chars_of, contains, copy_from, occurs, occurs_at, replace, replace_all};

verus! {

pub const NAME: &'static str = "///";

pub const HOMEPAGE: &'static str = "https://esolangs.org/wiki////";

pub const HELP: &'static str =
    "/// (https://esolangs.org/wiki////)\nAccepted arguments:\n-h    Show this help and exit\n\n/pattern/replacement/string replaces all instances of pattern in string with replacement.\nNote that /// doesn't use regex, this is simple string substitution. To escape `/` or `\\`,\nyou can use `\\`.\n";

/// What the interpreter is doing with the characters it reads.
#[derive(Clone, Copy, Debug, PartialEq, Eq, Structural)]
pub enum Mode {
    /// Printing them.
    Print,
    /// Collecting the pattern.
    Pattern,
    /// Collecting the replacement.
    Replacement,
    /// Reading nothing: replacing the pattern in the rest of the program.
    Substitute,
}

/// The interpreter between two steps.
pub struct State {
    pub mode: Mode,
    /// The pattern collected so far.
    pub patt: Seq<char>,
    /// The replacement collected so far.
    pub repl: Seq<char>,
    /// The rest of the program.
    pub rest: Seq<char>,
    /// The calls made on the writer so far.
    pub written: Seq<Signal>,
}

impl State {
    /// The interpreter in front of the program `pgm`.
    pub open spec fn start(pgm: Seq<char>) -> State {
        State {
            mode: Mode::Print,
            patt: Seq::empty(),
            repl: Seq::empty(),
            rest: pgm,
            written: Seq::empty(),
        }
    }

    /// Whether there is nothing more to do.
    pub open spec fn halted(self) -> bool {
        !(self.mode is Substitute) && self.rest.len() == 0
    }

    /// The state after the character `c` was read as it stands, with `rest`
    /// left of the program: printed, or added to the pattern or to the
    /// replacement.
    pub open spec fn take(self, c: char, rest: Seq<char>) -> State {
        match self.mode {
            Mode::Print => State { rest, written: self.written.push(Signal::out(seq![c])), ..self },
            Mode::Pattern => State { rest, patt: self.patt.push(c), ..self },
            _ => State { rest, repl: self.repl.push(c), ..self },
        }
    }

    /// The state one step on, from a state that has not halted. A `/` ends
    /// what is being read; the third one starts the substitution. A `\` makes
    /// the character behind it stand for itself, and is dropped where nothing
    /// follows. One step of the substitution replaces the pattern throughout
    /// the rest of the program, and where it no longer occurs the interpreter
    /// goes back to printing.
    pub open spec fn step(self) -> State {
        if self.mode is Substitute {
            if occurs(self.rest, self.patt) {
                State { rest: replace_all(self.rest, self.patt, self.repl), ..self }
            } else {
                State { mode: Mode::Print, patt: Seq::empty(), repl: Seq::empty(), ..self }
            }
        } else {
            let c = self.rest[0];
            if c == '/' {
                State {
                    mode: match self.mode {
                        Mode::Print => Mode::Pattern,
                        Mode::Pattern => Mode::Replacement,
                        _ => Mode::Substitute,
                    },
                    rest: self.rest.skip(1),
                    ..self
                }
            } else if c == '\\' {
                if self.rest.len() == 1 {
                    State { rest: Seq::empty(), ..self }
                } else {
                    self.take(self.rest[1], self.rest.skip(2))
                }
            } else {
                self.take(c, self.rest.skip(1))
            }
        }
    }

    /// The state after at most `steps` steps on the program `pgm`.
    pub open spec fn after(pgm: Seq<char>, steps: nat) -> State
        decreases steps,
    {
        if steps == 0 {
            State::start(pgm)
        } else {
            let before = State::after(pgm, (steps - 1) as nat);
            if before.halted() {
                before
            } else {
                before.step()
            }
        }
    }
}

/// What running `pgm` for at most `limit` steps comes to. A program that has
/// not come to its end by then is cut off.
pub open spec fn run(pgm: Seq<char>, limit: nat) -> Run {
    let end = State::after(pgm, limit);
    Run {
        signals: end.written,
        fault: if end.halted() {
            None
        } else {
            Some(Fault::StepLimit)
        },
    }
}

/// Replaces `patt` by `repl` throughout `input`, if it stands there at all.
pub fn repl_if_needed(input: &Vec<char>, patt: &Vec<char>, repl: &Vec<char>) -> (replaced: Option<
    Vec<char>,
>)
    ensures
        match replaced {
            Some(text) => occurs(input@, patt@) && text@ == replace_all(input@, patt@, repl@),
            None => !occurs(input@, patt@),
        },
{
    if contains(input, patt) {
        Some(replace(input, patt, repl))
    } else {
        None
    }
}

/// An interpreter that has halted stays as it is.
proof fn halted_is_final(pgm: Seq<char>, k: nat, n: nat)
    requires
        k <= n,
        State::after(pgm, k).halted(),
    ensures
        State::after(pgm, n) == State::after(pgm, k),
    decreases n,
{
    if k < n {
        halted_is_final(pgm, k, (n - 1) as nat);
    }
}

/// A substitution with an empty pattern never ends: the pattern stands in
/// every text, so every round finds it again. It writes nothing.
proof fn empty_pattern_never_ends(pgm: Seq<char>, k: nat, n: nat)
    requires
        k <= n,
        State::after(pgm, k).mode is Substitute,
        State::after(pgm, k).patt.len() == 0,
    ensures
        State::after(pgm, n).mode is Substitute,
        State::after(pgm, n).patt.len() == 0,
        State::after(pgm, n).written == State::after(pgm, k).written,
        !State::after(pgm, n).halted(),
    decreases n,
{
    if k < n {
        empty_pattern_never_ends(pgm, k, (n - 1) as nat);
        let stuck = State::after(pgm, (n - 1) as nat);
        assert(stuck.rest.subrange(0, 0) =~= stuck.patt);
        assert(occurs_at(stuck.rest, stuck.patt, 0));
    }
}

/// Runs the `///` program `pgm_str` for at most `max_steps` steps. Reading
/// one character is a step (two where the first is a `\`), and so is one
/// round of replacing the pattern throughout the rest of the program. A
/// program that is still running after `max_steps` steps is cut off with a
/// fault, and one that replaces an empty pattern, which never ends, at once.
#[verifier::rlimit(50)]
pub fn interpret_bounded<T: LangWriter>(pgm_str: &str, max_steps: u64, writer: &mut T) -> (done:
    Result<(), Fault>)
    requires
        old(writer).inv(),
    ensures
        final(writer).inv(),
        final(writer).signals() == old(writer).signals() + run(pgm_str@, max_steps as nat).signals,
        match done {
            Ok(_) => run(pgm_str@, max_steps as nat).fault is None,
            Err(fault) => run(pgm_str@, max_steps as nat).fault == Some(fault),
        },
{
    let mut pgm = chars_of(pgm_str);
    let mut pos: usize = 0;
    let mut mode = Mode::Print;
    let mut patt: Vec<char> = Vec::new();
    let mut repl: Vec<char> = Vec::new();
    let mut steps: u64 = 0;
    let mut running = pgm.len() > 0;
    let ghost mut st = State::start(pgm_str@);
    assert(pgm@.skip(0) =~= pgm@);
    assert(writer.signals() =~= old(writer).signals() + st.written);
    while running && steps < max_steps
        invariant
            st == State::after(pgm_str@, steps as nat),
            st.mode == mode,
            st.patt == patt@,
            st.repl == repl@,
            st.rest == pgm@.skip(pos as int),
            pos <= pgm@.len(),
            mode is Substitute ==> pos == 0,
            running == !st.halted(),
            steps <= max_steps,
            writer.inv(),
            writer.signals() == old(writer).signals() + st.written,
        decreases max_steps - steps,
    {
        let ghost before = st;
        proof {
            st = st.step();
            assert(State::after(pgm_str@, (steps + 1) as nat) == st);
        }
        match mode {
            Mode::Substitute => {
                if patt.len() == 0 {
                    proof {
                        empty_pattern_never_ends(pgm_str@, steps as nat, max_steps as nat);
                    }
                    return Err(Fault::StepLimit);
                }
                assert(pgm@.skip(0) =~= pgm@);
                match repl_if_needed(&pgm, &patt, &repl) {
                    Some(new_pgm) => {
                        pgm = new_pgm;
                        assert(pgm@.skip(0) =~= pgm@);
                    },
                    None => {
                        mode = Mode::Print;
                        patt = Vec::new();
                        repl = Vec::new();
                    },
                }
            },
            _ => {
                let size: usize = pgm.len();
                let chr = pgm[pos];
                assert(chr == before.rest[0]);
                if chr == '/' {
                    pos += 1;
                    assert(pgm@.skip(pos as int) =~= before.rest.skip(1));
                    mode = match mode {
                        Mode::Print => Mode::Pattern,
                        Mode::Pattern => Mode::Replacement,
                        _ => {
                            let mut rest: Vec<char> = Vec::new();
                            copy_from(&mut rest, &pgm, pos);
                            pgm = rest;
                            pos = 0;
                            assert(pgm@.skip(0) =~= pgm@);
                            Mode::Substitute
                        },
                    };
                } else {
                    let mut taken: Option<char> = Some(chr);
                    pos += 1;
                    if chr == '\\' {
                        if pos < size {
                            taken = Some(pgm[pos]);
                            assert(pgm@[pos as int] == before.rest[1]);
                            pos += 1;
                            assert(pgm@.skip(pos as int) =~= before.rest.skip(2));
                        } else {
                            taken = None;
                            assert(pgm@.skip(pos as int) =~= Seq::<char>::empty());
                        }
                    } else {
                        assert(pgm@.skip(pos as int) =~= before.rest.skip(1));
                    }
                    match taken {
                        Some(c) => match mode {
                            Mode::Print => {
                                let mut text = String::new();
                                text.push(c);
                                assert(text@ =~= seq![c]);
                                writer.write_out(text.as_str());
                            },
                            Mode::Pattern => {
                                patt.push(c);
                            },
                            _ => {
                                repl.push(c);
                            },
                        },
                        None => {},
                    }
                }
            },
        }
        steps += 1;
        running = match mode {
            Mode::Substitute => true,
            _ => pos < pgm.len(),
        };
        assert(writer.signals() =~= old(writer).signals() + st.written);
    }
    proof {
        if !running {
            halted_is_final(pgm_str@, steps as nat, max_steps as nat);
        }
    }
    if running {
        Err(Fault::StepLimit)
    } else {
        Ok(())
    }
}

/// Runs the `///` program `pgm_str`, for as long as it takes up to
/// `STEP_LIMIT` steps. The input and the arguments are not looked at.
pub fn interpret<T: LangWriter>(pgm_str: &str, _input: &str, _args: &str, writer: &mut T) -> (done:
    Result<(), Fault>)
    requires
        old(writer).inv(),
    ensures
        final(writer).inv(),
        final(writer).signals() == old(writer).signals() + run(pgm_str@, STEP_LIMIT as nat).signals,
        match done {
            Ok(_) => run(pgm_str@, STEP_LIMIT as nat).fault is None,
            Err(fault) => run(pgm_str@, STEP_LIMIT as nat).fault == Some(fault),
        },
{
    interpret_bounded(pgm_str, STEP_LIMIT, writer)
}

} // verus!
