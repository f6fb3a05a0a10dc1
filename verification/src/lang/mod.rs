//! The interpreters and the one way they talk to the outside: a writer that
//! takes their output as it is produced and is told when they are done.

use vstd::prelude::*;
use vstd::string::StringExecFns;
use vstd::utf8::encode_utf8;
use crate::text::str_eq;

pub mod brainfuck;
pub mod deadfish;
pub mod example_lang;
pub mod s10k;
pub mod slashes;

verus! {

/// One call that an interpreter made on its writer.
pub enum Signal {
    /// `out` went to standard output and `err` to standard error.
    Write { out: Seq<char>, err: Seq<char> },
    /// The program ran to its end.
    Terminate,
    /// The program was stopped by a fatal error.
    TerminateWithError { msg: Seq<char> },
}

impl Signal {
    /// A write to standard output alone.
    pub open spec fn out(text: Seq<char>) -> Signal {
        Signal::Write { out: text, err: Seq::empty() }
    }

    /// A write to standard error alone.
    pub open spec fn err(text: Seq<char>) -> Signal {
        Signal::Write { out: Seq::empty(), err: text }
    }

    /// Whether this call ends the job.
    pub open spec fn is_terminal(self) -> bool {
        !(self is Write)
    }
}

/// Where an interpreter sends its output and its end: the narrow interface
/// that whoever runs a job implements. Every call is handed on at once;
/// nothing is held back until the interpreter returns.
///
/// `signals` is the record of the calls made on the writer so far, oldest
/// first. Each method adds its own call and leaves the earlier ones alone.
/// `inv` is what the writer needs to hold of itself between calls; every
/// method asks for it and keeps it.
///
/// A writer that is written in ordinary Rust cannot say what `signals` and
/// `inv` are, and does not have to. What is proved of the interpreters then
/// holds of the calls that reach it: that they are these, in this order.
pub trait LangWriter: Sized {
    /// The calls made on this writer so far, oldest first.
    open spec fn signals(&self) -> Seq<Signal> {
        arbitrary()
    }

    /// What holds of this writer between any two calls.
    open spec fn inv(&self) -> bool {
        true
    }

    /// Writes `out` to standard output and `err` to standard error, as one
    /// step.
    fn write_both(&mut self, out: &str, err: &str)
        requires
            old(self).inv(),
        ensures
            final(self).inv(),
            final(self).signals() == old(self).signals().push(
                Signal::Write { out: out@, err: err@ },
            ),
    ;

    /// Writes `out` to standard output.
    fn write_out(&mut self, out: &str)
        requires
            old(self).inv(),
        ensures
            final(self).inv(),
            final(self).signals() == old(self).signals().push(Signal::out(out@)),
    {
        proof {
            reveal_strlit("");
        }
        assert(""@ =~= Seq::<char>::empty());
        self.write_both(out, "");
    }

    /// Writes `err` to standard error.
    fn write_err(&mut self, err: &str)
        requires
            old(self).inv(),
        ensures
            final(self).inv(),
            final(self).signals() == old(self).signals().push(Signal::err(err@)),
    {
        proof {
            reveal_strlit("");
        }
        assert(""@ =~= Seq::<char>::empty());
        self.write_both("", err);
    }

    /// Says that the program ran to its end. Nothing is written after this.
    fn terminate(&mut self)
        requires
            old(self).inv(),
        ensures
            final(self).inv(),
            final(self).signals() == old(self).signals().push(Signal::Terminate),
    ;

    /// Says that the program was stopped by a fatal error. Nothing is written
    /// after this.
    fn terminate_with_error(&mut self, msg: &str)
        requires
            old(self).inv(),
        ensures
            final(self).inv(),
            final(self).signals() == old(self).signals().push(
                Signal::TerminateWithError { msg: msg@ },
            ),
    ;
}

/// Why an interpreter gave up before its program was done.
#[derive(Clone, Copy, Debug, PartialEq, Eq, Structural)]
pub enum Fault {
    /// The program used up the steps it was allowed.
    StepLimit,
    /// A number grew beyond what the interpreter can hold.
    ArithmeticOverflow,
    /// The interpreter itself failed.
    Crashed,
}

impl Fault {
    /// The text that reports this fault.
    pub open spec fn text(self) -> Seq<char> {
        match self {
            Fault::StepLimit => "interpreter fault: step limit exceeded"@,
            Fault::ArithmeticOverflow => "interpreter fault: arithmetic overflow"@,
            Fault::Crashed => "interpreter fault: crashed"@,
        }
    }

    /// The text that reports this fault.
    pub fn message(&self) -> (text: &'static str)
        ensures
            text@ == self.text(),
    {
        match self {
            Fault::StepLimit => "interpreter fault: step limit exceeded",
            Fault::ArithmeticOverflow => "interpreter fault: arithmetic overflow",
            Fault::Crashed => "interpreter fault: crashed",
        }
    }
}

/// What a run of an interpreter comes to: the calls it makes on its writer,
/// and the fault that stopped it, if one did.
pub struct Run {
    pub signals: Seq<Signal>,
    pub fault: Option<Fault>,
}

/// The most steps a program is given where the caller sets no limit.
pub const STEP_LIMIT: u64 = u64::MAX;

/// The languages that can be run.
#[derive(Clone, Copy, Debug, PartialEq, Eq, Structural)]
pub enum Lang {
    Deadfish,
    Brainfuck,
    S10K,
    Slashes,
}

impl Lang {
    /// The language that goes by `name`, if there is one.
    pub open spec fn named(name: Seq<char>) -> Option<Lang> {
        if name == deadfish::NAME@ {
            Some(Lang::Deadfish)
        } else if name == brainfuck::NAME@ {
            Some(Lang::Brainfuck)
        } else if name == s10k::NAME@ {
            Some(Lang::S10K)
        } else if name == slashes::NAME@ {
            Some(Lang::Slashes)
        } else {
            None
        }
    }

    /// The name of the language.
    pub open spec fn name(self) -> Seq<char> {
        match self {
            Lang::Deadfish => deadfish::NAME@,
            Lang::Brainfuck => brainfuck::NAME@,
            Lang::S10K => s10k::NAME@,
            Lang::Slashes => slashes::NAME@,
        }
    }

    /// The help text of the language.
    pub open spec fn help(self) -> Seq<char> {
        match self {
            Lang::Deadfish => deadfish::HELP@,
            Lang::Brainfuck => brainfuck::HELP@,
            Lang::S10K => s10k::HELP@,
            Lang::Slashes => slashes::HELP@,
        }
    }

    /// The home page of the language.
    pub open spec fn homepage(self) -> Seq<char> {
        match self {
            Lang::Deadfish => deadfish::HOMEPAGE@,
            Lang::Brainfuck => brainfuck::HOMEPAGE@,
            Lang::S10K => s10k::HOMEPAGE@,
            Lang::Slashes => slashes::HOMEPAGE@,
        }
    }

    /// What a run of `pgm` in this language comes to, on the input `input`
    /// with the arguments `args`, where the language counts steps for at most
    /// `limit` of them.
    pub open spec fn run(
        self,
        pgm: Seq<char>,
        input: Seq<char>,
        args: Seq<char>,
        limit: nat,
    ) -> Run {
        match self {
            Lang::Deadfish => deadfish::run(encode_utf8(pgm), args),
            Lang::Brainfuck => brainfuck::run(encode_utf8(pgm), encode_utf8(input), limit),
            Lang::S10K => Run { signals: s10k::signals(), fault: None },
            Lang::Slashes => slashes::run(pgm, limit),
        }
    }

    /// Finds the language that goes by `name`.
    pub fn find(name: &str) -> (found: Option<Lang>)
        ensures
            found == Lang::named(name@),
    {
        if str_eq(name, deadfish::NAME) {
            Some(Lang::Deadfish)
        } else if str_eq(name, brainfuck::NAME) {
            Some(Lang::Brainfuck)
        } else if str_eq(name, s10k::NAME) {
            Some(Lang::S10K)
        } else if str_eq(name, slashes::NAME) {
            Some(Lang::Slashes)
        } else {
            None
        }
    }

    /// Runs `pgm` in this language, for at most `max_steps` steps where the
    /// language counts them.
    pub fn interpret<T: LangWriter>(
        &self,
        pgm: &str,
        input: &str,
        args: &str,
        max_steps: u64,
        writer: &mut T,
    ) -> (done: Result<(), Fault>)
        requires
            old(writer).inv(),
        ensures
            final(writer).inv(),
            final(writer).signals() == old(writer).signals() + self.run(
                pgm@,
                input@,
                args@,
                max_steps as nat,
            ).signals,
            match done {
                Ok(_) => self.run(pgm@, input@, args@, max_steps as nat).fault is None,
                Err(fault) => self.run(pgm@, input@, args@, max_steps as nat).fault == Some(fault),
            },
    {
        match self {
            Lang::Deadfish => deadfish::interpret(pgm, input, args, writer),
            Lang::Brainfuck => brainfuck::interpret_bounded(pgm, input, max_steps, writer),
            Lang::S10K => s10k::interpret(pgm, input, args, writer),
            Lang::Slashes => slashes::interpret_bounded(pgm, max_steps, writer),
        }
    }
}

/// The names of the languages, in the order in which they are offered.
pub open spec fn lang_names() -> Seq<Seq<char>> {
    seq![deadfish::NAME@, brainfuck::NAME@, s10k::NAME@, slashes::NAME@]
}

/// The names of the languages, in the order in which they are offered.
pub fn get_lang_names() -> (names: Vec<&'static str>)
    ensures
        names@.len() == lang_names().len(),
        forall|i: int| 0 <= i < names@.len() ==> (#[trigger] names@[i])@ == lang_names()[i],
{
    let mut names: Vec<&'static str> = Vec::new();
    names.push(deadfish::NAME);
    names.push(brainfuck::NAME);
    names.push(s10k::NAME);
    names.push(slashes::NAME);
    names
}

/// The help text of the language that goes by `lang_name`.
pub fn get_help2(lang_name: &str) -> (help: Option<&'static str>)
    ensures
        match help {
            Some(text) => Lang::named(lang_name@) matches Some(lang) && text@ == lang.help(),
            None => Lang::named(lang_name@) is None,
        },
{
    match Lang::find(lang_name) {
        Some(Lang::Deadfish) => Some(deadfish::HELP),
        Some(Lang::Brainfuck) => Some(brainfuck::HELP),
        Some(Lang::S10K) => Some(s10k::HELP),
        Some(Lang::Slashes) => Some(slashes::HELP),
        None => None,
    }
}

/// The home page of the language that goes by `lang_name`.
pub fn get_homepage2(lang_name: &str) -> (homepage: Option<&'static str>)
    ensures
        match homepage {
            Some(text) => Lang::named(lang_name@) matches Some(lang) && text@
                == lang.homepage(),
            None => Lang::named(lang_name@) is None,
        },
{
    match Lang::find(lang_name) {
        Some(Lang::Deadfish) => Some(deadfish::HOMEPAGE),
        Some(Lang::Brainfuck) => Some(brainfuck::HOMEPAGE),
        Some(Lang::S10K) => Some(s10k::HOMEPAGE),
        Some(Lang::Slashes) => Some(slashes::HOMEPAGE),
        None => None,
    }
}

/// The text of the error for a language that is not known.
pub open spec fn unknown_lang_text(lang: Seq<char>) -> Seq<char> {
    "Unknown lang: "@ + lang
}

/// The calls that a job makes on its writer. A language that is not known
/// gets an error, written first and then given as the reason of the end. The
/// argument `-h` gets the help text of the language and nothing else. Any
/// other job gets what the run writes, and then its end: the normal one, or
/// the fault that stopped the interpreter.
pub open spec fn job_signals(
    lang: Seq<char>,
    pgm: Seq<char>,
    input: Seq<char>,
    args: Seq<char>,
    limit: nat,
) -> Seq<Signal> {
    match Lang::named(lang) {
        None => seq![
            Signal::err(unknown_lang_text(lang)),
            Signal::TerminateWithError { msg: unknown_lang_text(lang) },
        ],
        Some(language) => if args == "-h"@ {
            seq![Signal::out(language.help()), Signal::Terminate]
        } else {
            let run = language.run(pgm, input, args, limit);
            match run.fault {
                None => run.signals.push(Signal::Terminate),
                Some(fault) => run.signals.push(Signal::TerminateWithError { msg: fault.text() }),
            }
        },
    }
}

/// Runs one job: the program `pgm` in the language named `lang`, on `input`
/// with the arguments `args`, for at most `max_steps` steps where the
/// language counts them. Whatever happens, the last call on the writer is the
/// one that ends the job.
pub fn interpret2_bounded<T: LangWriter>(
    lang: &str,
    pgm: &str,
    input: &str,
    args: &str,
    max_steps: u64,
    writer: &mut T,
)
    requires
        old(writer).inv(),
    ensures
        final(writer).inv(),
        final(writer).signals() == old(writer).signals() + job_signals(
            lang@,
            pgm@,
            input@,
            args@,
            max_steps as nat,
        ),
{
    match Lang::find(lang) {
        Some(language) => {
            if str_eq(args, "-h") {
                match get_help2(lang) {
                    Some(help) => {
                        writer.write_out(help);
                        writer.terminate();
                    },
                    None => {},
                }
                assert(final(writer).signals() =~= old(writer).signals() + job_signals(
                    lang@,
                    pgm@,
                    input@,
                    args@,
                    max_steps as nat,
                ));
                return ;
            }
            match language.interpret(pgm, input, args, max_steps, writer) {
                Ok(_) => {
                    writer.terminate();
                },
                Err(fault) => {
                    writer.terminate_with_error(fault.message());
                },
            }
            assert(final(writer).signals() =~= old(writer).signals() + job_signals(
                lang@,
                pgm@,
                input@,
                args@,
                max_steps as nat,
            ));
        },
        None => {
            let mut err = "Unknown lang: ".to_owned();
            err.append(lang);
            writer.write_err(err.as_str());
            writer.terminate_with_error(err.as_str());
            assert(final(writer).signals() =~= old(writer).signals() + job_signals(
                lang@,
                pgm@,
                input@,
                args@,
                max_steps as nat,
            ));
        },
    }
}

/// Runs one job, for as long as it takes up to `STEP_LIMIT` steps.
pub fn interpret2<T: LangWriter>(lang: &str, pgm: &str, input: &str, args: &str, writer: &mut T)
    requires
        old(writer).inv(),
    ensures
        final(writer).inv(),
        final(writer).signals() == old(writer).signals() + job_signals(
            lang@,
            pgm@,
            input@,
            args@,
            STEP_LIMIT as nat,
        ),
{
    interpret2_bounded(lang, pgm, input, args, STEP_LIMIT, writer)
}

} // verus!
