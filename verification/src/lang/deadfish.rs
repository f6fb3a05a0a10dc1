//! Deadfish: one counter and four commands, `i`, `d`, `s` and `o`.

use vstd::prelude::*;
use vstd::string::StringSliceAdditionalSpecFns;
use super::{Fault, LangWriter, Run, Signal};
use crate::text::{decimal, push_decimal, str_eq};

verus! {

pub const NAME: &'static str = "Deadfish";

pub const HOMEPAGE: &'static str = "https://esolangs.org/wiki/Deadfish";

pub const HELP: &'static str =
    "Deadfish (https://esolangs.org/wiki/Deadfish)\nAccepted arguments:\n-h    Show this help and exit\n-o    Output as charcode\n-n    Output as number (default)\n";

/// The command `i`.
pub const INCREMENT: u8 = 105;

/// The command `d`.
pub const DECREMENT: u8 = 100;

/// The command `s`.
pub const SQUARE: u8 = 115;

/// The command `o`.
pub const OUTPUT: u8 = 111;

/// The largest value the counter can hold.
pub const COUNTER_MAX: u64 = 0x7fff_ffff;

/// The counter after the command `cmd`, were there no bound on it. `i` adds
/// one, `d` takes one away and `s` squares; where that would give 256 or go
/// below zero, the counter is zero instead. Any other byte leaves it alone.
pub open spec fn next_counter(counter: int, cmd: u8) -> int {
    if cmd == INCREMENT {
        if counter == 255 {
            0
        } else {
            counter + 1
        }
    } else if cmd == DECREMENT {
        if counter == 0 || counter == 257 {
            0
        } else {
            counter - 1
        }
    } else if cmd == SQUARE {
        if counter == 16 {
            0
        } else {
            counter * counter
        }
    } else {
        counter
    }
}

/// The counter after the first `n` commands of `pgm`, or `None` if it grew
/// beyond `COUNTER_MAX` on the way.
pub open spec fn counter_after(pgm: Seq<u8>, n: nat) -> Option<int>
    decreases n,
{
    if n == 0 {
        Some(0)
    } else {
        match counter_after(pgm, (n - 1) as nat) {
            Some(counter) => {
                let next = next_counter(counter, pgm[n - 1]);
                if next <= COUNTER_MAX {
                    Some(next)
                } else {
                    None
                }
            },
            None => None,
        }
    }
}

/// What `o` prints for `counter`: the character with that code, taken modulo
/// 256, or the number in decimal on a line of its own.
pub open spec fn shown(counter: int, as_char: bool) -> Seq<char> {
    if as_char {
        seq![(counter % 256) as u8 as char]
    } else {
        decimal(counter as nat).push('\n')
    }
}

/// The writes that the first `n` commands of `pgm` make: one for each `o`
/// that is reached.
pub open spec fn written_after(pgm: Seq<u8>, n: nat, as_char: bool) -> Seq<Signal>
    decreases n,
{
    if n == 0 {
        Seq::empty()
    } else {
        let before = written_after(pgm, (n - 1) as nat, as_char);
        match counter_after(pgm, (n - 1) as nat) {
            Some(counter) => if pgm[n - 1] == OUTPUT {
                before.push(Signal::out(shown(counter, as_char)))
            } else {
                before
            },
            None => before,
        }
    }
}

/// What running `pgm` with the arguments `args` comes to. The program ends
/// normally unless its counter outgrows `COUNTER_MAX`.
pub open spec fn run(pgm: Seq<u8>, args: Seq<char>) -> Run {
    let as_char = args == "-o"@;
    let written = written_after(pgm, pgm.len(), as_char);
    if counter_after(pgm, pgm.len()) is Some {
        Run { signals: written.push(Signal::Terminate), fault: None }
    } else {
        Run { signals: written, fault: Some(Fault::ArithmeticOverflow) }
    }
}

/// Once the counter has outgrown its bound, the rest of the program neither
/// brings it back nor writes anything.
proof fn overflow_is_final(pgm: Seq<u8>, k: nat, n: nat, as_char: bool)
    requires
        k <= n,
        counter_after(pgm, k) is None,
    ensures
        counter_after(pgm, n) is None,
        written_after(pgm, n, as_char) == written_after(pgm, k, as_char),
    decreases n,
{
    if k < n {
        overflow_is_final(pgm, k, (n - 1) as nat, as_char);
    }
}

/// Runs the Deadfish program `pgm`. With the argument `-o` each `o` prints a
/// character, else a number and a line break.
pub fn interpret<T: LangWriter>(pgm: &str, _input: &str, args: &str, writer: &mut T) -> (done:
    Result<(), Fault>)
    requires
        old(writer).inv(),
    ensures
        final(writer).inv(),
        final(writer).signals() == old(writer).signals() + run(pgm.spec_bytes(), args@).signals,
        match done {
            Ok(_) => run(pgm.spec_bytes(), args@).fault is None,
            Err(fault) => run(pgm.spec_bytes(), args@).fault == Some(fault),
        },
{
    let code = pgm.as_bytes();
    let is_char_output = str_eq(args, "-o");
    let ghost bytes = pgm.spec_bytes();
    let mut counter: u64 = 0;
    let mut i: usize = 0;
    assert(writer.signals() =~= old(writer).signals() + written_after(bytes, 0, is_char_output));
    while i < code.len()
        invariant
            i <= code@.len(),
            code@ == bytes,
            bytes == pgm.spec_bytes(),
            is_char_output == (args@ == "-o"@),
            counter <= COUNTER_MAX,
            counter_after(bytes, i as nat) == Some(counter as int),
            writer.inv(),
            writer.signals() == old(writer).signals() + written_after(
                bytes,
                i as nat,
                is_char_output,
            ),
        decreases code@.len() - i,
    {
        let cmd = code[i];
        let ghost before = writer.signals();
        if cmd == INCREMENT {
            counter = if counter == 255 {
                0
            } else {
                counter + 1
            };
        } else if cmd == DECREMENT {
            counter = if counter == 0 || counter == 257 {
                0
            } else {
                counter - 1
            };
        } else if cmd == SQUARE {
            counter = if counter == 16 {
                0
            } else {
                assert(counter * counter <= COUNTER_MAX * COUNTER_MAX) by (nonlinear_arith)
                    requires
                        counter <= COUNTER_MAX,
                ;
                counter * counter
            };
        } else if cmd == OUTPUT {
            let mut text = String::new();
            if is_char_output {
                text.push((counter % 256) as u8 as char);
                assert(text@ =~= shown(counter as int, true));
            } else {
                push_decimal(&mut text, counter);
                text.push('\n');
                assert(text@ =~= shown(counter as int, false));
            }
            writer.write_out(text.as_str());
        }
        if counter > COUNTER_MAX {
            proof {
                assert(counter_after(bytes, (i + 1) as nat) is None);
                overflow_is_final(bytes, (i + 1) as nat, bytes.len(), is_char_output);
                assert(cmd != OUTPUT);
                assert(written_after(bytes, (i + 1) as nat, is_char_output) == written_after(
                    bytes,
                    i as nat,
                    is_char_output,
                ));
            }
            return Err(Fault::ArithmeticOverflow);
        }
        i += 1;
        assert(writer.signals() =~= old(writer).signals() + written_after(
            bytes,
            i as nat,
            is_char_output,
        ));
    }
    writer.terminate();
    assert(final(writer).signals() =~= old(writer).signals() + run(bytes, args@).signals);
    Ok(())
}

} // verus!
