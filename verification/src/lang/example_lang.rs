//! ExampleLang: five fixed programs for trying out a supervisor. One halts at
//! once, one halts after a while, one fails after a while, and two never halt:
//! one that writes slowly and one that writes fast.

use vstd::prelude::*;
use vstd::string::StringExecFns;
use super::{Fault, LangWriter, Run, Signal, STEP_LIMIT};
use crate::text::{decimal, digit, push_decimal, str_eq};

verus! {

pub const NAME: &'static str = "ExampleLang";

pub const HOMEPAGE: &'static str = "https://example.com";

pub const HELP: &'static str =
    "An example language for debugging purposes.\n\nprogram == \"lang\": Print some chars on stdout and stderr, and halt (fast).\nprogram == \"slow\": Print some chars on stdout and stderr, and halt (slow).\nprogram == \"crasher\": Print some chars but crash after a while.\nprogram == \"looper\": Print things very slowly, forever.\nprogram == \"talker\": Print things very fast, exceeding the output limit.\n";

/// How many times `lang`, `slow` and `crasher` write.
pub const TICKS: u64 = 40;

/// How many rounds `slow`, `crasher` and `looper` idle between two writes.
pub const PAUSE: u64 = 10_000_000;

/// After how many rounds `looper` and `talker` start to count anew.
pub const CYCLE: u64 = 100_000_000;

/// Every how many rounds `talker` writes to standard output.
pub const TALK_OUT: u64 = 100;

/// Every how many rounds `talker` writes to standard error.
pub const TALK_ERR: u64 = 100_000;

/// A write of "S" to standard output and of `err` to standard error.
pub open spec fn tick(err: Seq<char>) -> Signal {
    Signal::Write { out: seq!['S'], err }
}

/// The first `n` writes of `lang`: "S" and the number of the write.
pub open spec fn counted_ticks(n: nat) -> Seq<Signal> {
    Seq::new(n, |k: int| tick(decimal(k as nat)))
}

/// The first `n` writes of `slow` and of `crasher`: "S" and the last digit of
/// the number of the write.
pub open spec fn digit_ticks(n: nat) -> Seq<Signal> {
    Seq::new(n, |k: int| tick(seq![digit((k % 10) as nat)]))
}

/// The text of the error for a program that is none of the five.
pub open spec fn unrecognized_text(pgm: Seq<char>) -> Seq<char> {
    "Unrecognized program: "@ + pgm
}

/// Where a program that never halts stands between two rounds.
pub struct Round {
    /// The count of rounds since the count last began anew.
    pub count: nat,
    /// The calls made on the writer so far.
    pub written: Seq<Signal>,
}

/// `looper` after `rounds` rounds. Every `PAUSE` rounds it writes "S" and a
/// digit; once the count has reached `CYCLE`, it begins anew.
pub open spec fn looper_after(rounds: nat) -> Round
    decreases rounds,
{
    if rounds == 0 {
        Round { count: 0, written: Seq::empty() }
    } else {
        let before = looper_after((rounds - 1) as nat);
        if before.count % (PAUSE as nat) == 0 {
            Round {
                count: if before.count >= CYCLE {
                    1
                } else {
                    before.count + 1
                },
                written: before.written.push(
                    tick(seq![digit(before.count / (PAUSE as nat) % 10)]),
                ),
            }
        } else {
            Round { count: before.count + 1, written: before.written }
        }
    }
}

/// What one round of `talker` writes at the count `count`: "S" to standard
/// output every `TALK_OUT` rounds, and then a digit to standard error every
/// `TALK_ERR` rounds.
pub open spec fn talk(count: nat) -> Seq<Signal> {
    let out = if count % (TALK_OUT as nat) == 0 {
        seq![Signal::out(seq!['S'])]
    } else {
        Seq::empty()
    };
    if count % (TALK_ERR as nat) == 0 {
        out.push(Signal::err(seq![digit(count / (TALK_ERR as nat) % 10)]))
    } else {
        out
    }
}

/// `talker` after `rounds` rounds. Once the count has reached `CYCLE`, it
/// begins anew.
pub open spec fn talker_after(rounds: nat) -> Round
    decreases rounds,
{
    if rounds == 0 {
        Round { count: 0, written: Seq::empty() }
    } else {
        let before = talker_after((rounds - 1) as nat);
        Round {
            count: if before.count % (TALK_ERR as nat) == 0 && before.count >= CYCLE {
                1
            } else {
                before.count + 1
            },
            written: before.written + talk(before.count),
        }
    }
}

/// What running `pgm` comes to, where the two programs that never halt are
/// cut off after `limit` rounds.
pub open spec fn run(pgm: Seq<char>, limit: nat) -> Run {
    if pgm == "lang"@ {
        Run { signals: counted_ticks(TICKS as nat).push(Signal::Terminate), fault: None }
    } else if pgm == "slow"@ {
        Run { signals: digit_ticks(TICKS as nat).push(Signal::Terminate), fault: None }
    } else if pgm == "crasher"@ {
        Run { signals: digit_ticks(TICKS as nat), fault: Some(Fault::Crashed) }
    } else if pgm == "looper"@ {
        Run { signals: looper_after(limit).written, fault: Some(Fault::StepLimit) }
    } else if pgm == "talker"@ {
        Run { signals: talker_after(limit).written, fault: Some(Fault::StepLimit) }
    } else {
        Run { signals: seq![Signal::err(unrecognized_text(pgm))], fault: None }
    }
}

/// The text that holds the one digit `d`.
fn digit_text(d: u64) -> (text: String)
    requires
        d < 10,
    ensures
        text@ == seq![digit(d as nat)],
{
    let mut text = String::new();
    text.push((48 + d as u8) as char);
    assert(text@ =~= seq![digit(d as nat)]);
    text
}

/// Writes "S" and the number of the write, `TICKS` times, and halts.
fn interpret_lang<T: LangWriter>(writer: &mut T) -> (done: Result<(), Fault>)
    requires
        old(writer).inv(),
    ensures
        done is Ok,
        final(writer).inv(),
        final(writer).signals() == old(writer).signals() + counted_ticks(TICKS as nat).push(
            Signal::Terminate,
        ),
{
    let mut i: u64 = 0;
    assert(writer.signals() =~= old(writer).signals() + counted_ticks(0));
    while i < TICKS
        invariant
            i <= TICKS,
            writer.inv(),
            writer.signals() == old(writer).signals() + counted_ticks(i as nat),
        decreases TICKS - i,
    {
        let mut err = String::new();
        push_decimal(&mut err, i);
        assert(err@ =~= decimal(i as nat));
        proof {
            reveal_strlit("S");
            assert("S"@ =~= seq!['S']);
        }
        writer.write_both("S", err.as_str());
        i += 1;
        assert(writer.signals() =~= old(writer).signals() + counted_ticks(i as nat));
    }
    writer.terminate();
    assert(final(writer).signals() =~= old(writer).signals() + counted_ticks(TICKS as nat).push(
        Signal::Terminate,
    ));
    Ok(())
}

/// Writes "S" and a digit, `TICKS` times, with `PAUSE` rounds before each
/// write but the first.
#[verifier::rlimit(50)]
fn slow_ticks<T: LangWriter>(writer: &mut T)
    requires
        old(writer).inv(),
    ensures
        final(writer).inv(),
        final(writer).signals() == old(writer).signals() + digit_ticks(TICKS as nat),
{
    let mut i: u64 = 0;
    assert(writer.signals() =~= old(writer).signals() + digit_ticks(0));
    while i < TICKS * PAUSE
        invariant
            i <= TICKS * PAUSE,
            writer.inv(),
            writer.signals() == old(writer).signals() + digit_ticks(
                ((i + PAUSE - 1) / (PAUSE as int)) as nat,
            ),
        decreases TICKS * PAUSE - i,
    {
        if i % PAUSE == 0 {
            let err = digit_text(i / PAUSE % 10);
            proof {
                reveal_strlit("S");
                assert("S"@ =~= seq!['S']);
            }
            writer.write_both("S", err.as_str());
            assert(writer.signals() =~= old(writer).signals() + digit_ticks(
                (i / PAUSE + 1) as nat,
            ));
        }
        i += 1;
    }
}

/// Writes what `slow_ticks` writes, and halts.
fn interpret_slow<T: LangWriter>(writer: &mut T) -> (done: Result<(), Fault>)
    requires
        old(writer).inv(),
    ensures
        done is Ok,
        final(writer).inv(),
        final(writer).signals() == old(writer).signals() + digit_ticks(TICKS as nat).push(
            Signal::Terminate,
        ),
{
    slow_ticks(writer);
    writer.terminate();
    assert(final(writer).signals() =~= old(writer).signals() + digit_ticks(TICKS as nat).push(
        Signal::Terminate,
    ));
    Ok(())
}

/// Writes what `slow_ticks` writes, and fails.
fn interpret_crasher<T: LangWriter>(writer: &mut T) -> (done: Result<(), Fault>)
    requires
        old(writer).inv(),
    ensures
        done == Err::<(), Fault>(Fault::Crashed),
        final(writer).inv(),
        final(writer).signals() == old(writer).signals() + digit_ticks(TICKS as nat),
{
    slow_ticks(writer);
    Err(Fault::Crashed)
}

/// Writes "S" and a digit every `PAUSE` rounds, for `max_steps` rounds.
#[verifier::rlimit(50)]
fn interpret_looper<T: LangWriter>(max_steps: u64, writer: &mut T) -> (done: Result<(), Fault>)
    requires
        old(writer).inv(),
    ensures
        done == Err::<(), Fault>(Fault::StepLimit),
        final(writer).inv(),
        final(writer).signals() == old(writer).signals() + looper_after(max_steps as nat).written,
{
    let mut i: u64 = 0;
    let mut rounds: u64 = 0;
    assert(writer.signals() =~= old(writer).signals() + looper_after(0).written);
    while rounds < max_steps
        invariant
            rounds <= max_steps,
            i <= CYCLE,
            i == looper_after(rounds as nat).count,
            writer.inv(),
            writer.signals() == old(writer).signals() + looper_after(rounds as nat).written,
        decreases max_steps - rounds,
    {
        if i % PAUSE == 0 {
            let err = digit_text(i / PAUSE % 10);
            proof {
                reveal_strlit("S");
                assert("S"@ =~= seq!['S']);
            }
            writer.write_both("S", err.as_str());
            if i >= CYCLE {
                i = 0;
            }
        }
        i += 1;
        rounds += 1;
        assert(writer.signals() =~= old(writer).signals() + looper_after(rounds as nat).written);
    }
    Err(Fault::StepLimit)
}

/// Writes "S" every `TALK_OUT` rounds and a digit to standard error every
/// `TALK_ERR` rounds, for `max_steps` rounds.
#[verifier::rlimit(50)]
fn interpret_talker<T: LangWriter>(max_steps: u64, writer: &mut T) -> (done: Result<(), Fault>)
    requires
        old(writer).inv(),
    ensures
        done == Err::<(), Fault>(Fault::StepLimit),
        final(writer).inv(),
        final(writer).signals() == old(writer).signals() + talker_after(max_steps as nat).written,
{
    let mut i: u64 = 0;
    let mut rounds: u64 = 0;
    assert(writer.signals() =~= old(writer).signals() + talker_after(0).written);
    while rounds < max_steps
        invariant
            rounds <= max_steps,
            i <= CYCLE,
            i == talker_after(rounds as nat).count,
            writer.inv(),
            writer.signals() == old(writer).signals() + talker_after(rounds as nat).written,
        decreases max_steps - rounds,
    {
        let ghost count = i as nat;
        let ghost before = writer.signals();
        if i % TALK_OUT == 0 {
            proof {
                reveal_strlit("S");
                assert("S"@ =~= seq!['S']);
            }
            writer.write_out("S");
        }
        if i % TALK_ERR == 0 {
            let err = digit_text(i / TALK_ERR % 10);
            writer.write_err(err.as_str());
            if i >= CYCLE {
                i = 0;
            }
        }
        assert(writer.signals() =~= before + talk(count));
        i += 1;
        rounds += 1;
        assert(writer.signals() =~= old(writer).signals() + talker_after(rounds as nat).written);
    }
    Err(Fault::StepLimit)
}

/// Runs the program `pgm`, where the two programs that never halt are cut
/// off after `max_steps` rounds.
pub fn interpret_bounded<T: LangWriter>(pgm: &str, max_steps: u64, writer: &mut T) -> (done:
    Result<(), Fault>)
    requires
        old(writer).inv(),
    ensures
        final(writer).inv(),
        final(writer).signals() == old(writer).signals() + run(pgm@, max_steps as nat).signals,
        match done {
            Ok(_) => run(pgm@, max_steps as nat).fault is None,
            Err(fault) => run(pgm@, max_steps as nat).fault == Some(fault),
        },
{
    if str_eq(pgm, "lang") {
        interpret_lang(writer)
    } else if str_eq(pgm, "slow") {
        interpret_slow(writer)
    } else if str_eq(pgm, "crasher") {
        interpret_crasher(writer)
    } else if str_eq(pgm, "looper") {
        interpret_looper(max_steps, writer)
    } else if str_eq(pgm, "talker") {
        interpret_talker(max_steps, writer)
    } else {
        let mut err = "Unrecognized program: ".to_owned();
        err.append(pgm);
        writer.write_err(err.as_str());
        assert(final(writer).signals() =~= old(writer).signals() + run(
            pgm@,
            max_steps as nat,
        ).signals);
        Ok(())
    }
}

/// Runs the program `pgm`, where the two programs that never halt are cut
/// off after `STEP_LIMIT` rounds. The input and the arguments are not looked
/// at.
pub fn interpret<T: LangWriter>(pgm: &str, _input: &str, _args: &str, writer: &mut T) -> (done:
    Result<(), Fault>)
    requires
        old(writer).inv(),
    ensures
        final(writer).inv(),
        final(writer).signals() == old(writer).signals() + run(pgm@, STEP_LIMIT as nat).signals,
        match done {
            Ok(_) => run(pgm@, STEP_LIMIT as nat).fault is None,
            Err(fault) => run(pgm@, STEP_LIMIT as nat).fault == Some(fault),
        },
{
    interpret_bounded(pgm, STEP_LIMIT, writer)
}

} // verus!
