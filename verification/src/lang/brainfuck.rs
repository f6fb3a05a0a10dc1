//! brainfuck, with 8-bit wrapping cells and a tape that is endless to the
//! right.

use vstd::prelude::*;
use vstd::string::{StringExecFns, StringSliceAdditionalSpecFns};
use super::{Fault, LangWriter, Run, Signal, STEP_LIMIT};
use crate::text::{decimal, push_decimal};

verus! {

pub const NAME: &'static str = "brainfuck";

pub const HOMEPAGE: &'static str = "https://esolangs.org/wiki/Brainfuck";

pub const HELP: &'static str =
    "brainfuck (https://esolangs.org/wiki/Brainfuck)\nAccepted arguments:\n-h    Show this help and exit\nUses 8-bit wrapping cells and a right-infinite tape.\n\n+    Increment cell\n-    Increment cell\n>    Move pointer right\n<    Move pointer left (error on out of bounds)\n.    Output character value of cell\n,    Read a character as an integer (0 on EOF)\n[    Start of while loop\n]    End of loop\n";

/// The command `+`.
pub const PLUS: u8 = 43;

/// The command `-`.
pub const MINUS: u8 = 45;

/// The command `>`.
pub const RIGHT: u8 = 62;

/// The command `<`.
pub const LEFT: u8 = 60;

/// The command `.`.
pub const PRINT: u8 = 46;

/// The command `,`.
pub const READ: u8 = 44;

/// The command `[`.
pub const OPEN: u8 = 91;

/// The command `]`.
pub const CLOSE: u8 = 93;

/// By how many cells the tape grows when the pointer runs off its end.
const TAPE_BLOCK: usize = 100;

/// The indices of the `[` among the first `n` bytes of `pgm` that no `]`
/// among them closes, outermost first.
pub open spec fn unclosed_after(pgm: Seq<u8>, n: nat) -> Seq<usize>
    decreases n,
{
    if n == 0 {
        Seq::empty()
    } else {
        let before = unclosed_after(pgm, (n - 1) as nat);
        if pgm[n - 1] == OPEN {
            before.push((n - 1) as usize)
        } else if pgm[n - 1] == CLOSE && before.len() > 0 {
            before.drop_last()
        } else {
            before
        }
    }
}

/// The index of the first `]` among the first `n` bytes of `pgm` that closes
/// nothing, if there is one.
pub open spec fn extra_close_within(pgm: Seq<u8>, n: nat) -> Option<nat>
    decreases n,
{
    if n == 0 {
        None
    } else {
        match extra_close_within(pgm, (n - 1) as nat) {
            Some(at) => Some(at),
            None => if pgm[n - 1] == CLOSE && unclosed_after(pgm, (n - 1) as nat).len() == 0 {
                Some((n - 1) as nat)
            } else {
                None
            },
        }
    }
}

/// The index just behind the `]` that closes the loop around index `i`, where
/// `depth` further loops have been opened since; the end of the program if
/// none does.
pub open spec fn skip_forward(pgm: Seq<u8>, i: int, depth: nat) -> int
    decreases pgm.len() - i,
{
    if i < 0 || i >= pgm.len() {
        pgm.len() as int
    } else if pgm[i] == OPEN {
        skip_forward(pgm, i + 1, depth + 1)
    } else if pgm[i] == CLOSE {
        if depth == 0 {
            i + 1
        } else {
            skip_forward(pgm, i + 1, (depth - 1) as nat)
        }
    } else {
        skip_forward(pgm, i + 1, depth)
    }
}

/// The index just behind the `[` that opens the loop around the bytes before
/// index `i`, where `depth` further loops have been closed on the way back;
/// the start of the program if none does.
pub open spec fn seek_back(pgm: Seq<u8>, i: int, depth: nat) -> int
    decreases i,
{
    if i <= 0 || i > pgm.len() {
        0
    } else if pgm[i - 1] == CLOSE {
        seek_back(pgm, i - 1, depth + 1)
    } else if pgm[i - 1] == OPEN {
        if depth == 0 {
            i
        } else {
            seek_back(pgm, i - 1, (depth - 1) as nat)
        }
    } else {
        seek_back(pgm, i - 1, depth)
    }
}

/// Where a `[` at index `open` jumps to when its cell is zero: just behind
/// its `]`.
pub open spec fn loop_exit(pgm: Seq<u8>, open: int) -> int {
    skip_forward(pgm, open + 1, 0)
}

/// Where a `]` at index `close` jumps to when its cell is not zero: just
/// behind its `[`.
pub open spec fn loop_entry(pgm: Seq<u8>, close: int) -> int {
    seek_back(pgm, close, 0)
}

/// The text of the error for a `]` at index `at` that closes nothing.
pub open spec fn extra_close_text(at: nat) -> Seq<char> {
    "Extra `]` found at index "@ + decimal(at)
}

/// The indices `list`, separated by commas, inside square brackets.
pub open spec fn index_list(list: Seq<usize>) -> Seq<char> {
    seq!['['] + index_items(list) + seq![']']
}

/// The indices `list`, separated by commas.
pub open spec fn index_items(list: Seq<usize>) -> Seq<char>
    decreases list.len(),
{
    if list.len() == 0 {
        Seq::empty()
    } else if list.len() == 1 {
        decimal(list[0] as nat)
    } else {
        index_items(list.drop_last()) + seq![',', ' '] + decimal(list.last() as nat)
    }
}

/// The text of the error for loops that are never closed; `open` holds the
/// indices of their `[`.
pub open spec fn unclosed_text(open: Seq<usize>) -> Seq<char> {
    "Error: Missing closing `]`'s to correspond with `[`'s at indices "@ + index_list(open)
}

/// The text of the error for a `<` at index `at` with the pointer on the
/// first cell. The index is counted from one.
pub open spec fn left_end_text(at: nat) -> Seq<char> {
    "Error on `<` at index "@ + decimal(at + 1) + ": Reached left end of tape"@
}

/// What is wrong with the brackets of `pgm`, if anything: the error text.
pub open spec fn bracket_error(pgm: Seq<u8>) -> Option<Seq<char>> {
    match extra_close_within(pgm, pgm.len()) {
        Some(at) => Some(extra_close_text(at)),
        None => if unclosed_after(pgm, pgm.len()).len() > 0 {
            Some(unclosed_text(unclosed_after(pgm, pgm.len())))
        } else {
            None
        },
    }
}

/// A brainfuck machine between two commands.
pub struct Machine {
    /// The index of the next command.
    pub ip: nat,
    /// The cell the pointer is on.
    pub ptr: nat,
    /// The cells that were written; every other cell holds zero.
    pub tape: Map<nat, u8>,
    /// How many bytes of the input were read.
    pub consumed: nat,
    /// The calls made on the writer so far.
    pub written: Seq<Signal>,
    /// The machine was stopped by an error.
    pub failed: bool,
}

/// What the cell `at` of `tape` holds.
pub open spec fn cell(tape: Map<nat, u8>, at: nat) -> u8 {
    if tape.dom().contains(at) {
        tape[at]
    } else {
        0
    }
}

impl Machine {
    /// The machine before the first command: all cells zero, the pointer on
    /// the first.
    pub open spec fn start() -> Machine {
        Machine {
            ip: 0,
            ptr: 0,
            tape: Map::empty(),
            consumed: 0,
            written: Seq::empty(),
            failed: false,
        }
    }

    /// Whether the machine has nothing more to do in `pgm`.
    pub open spec fn halted(self, pgm: Seq<u8>) -> bool {
        self.failed || self.ip >= pgm.len()
    }

    /// The machine with `value` in the cell under the pointer, and the next
    /// command at `ip`.
    pub open spec fn set(self, value: u8, ip: nat) -> Machine {
        Machine { ip, tape: self.tape.insert(self.ptr, value), ..self }
    }

    /// The machine with the next command at `ip`.
    pub open spec fn jump(self, ip: nat) -> Machine {
        Machine { ip, ..self }
    }

    /// The machine after the command at `ip`, on a machine that has not
    /// halted.
    pub open spec fn step(self, pgm: Seq<u8>, input: Seq<u8>) -> Machine {
        let cmd = pgm[self.ip as int];
        let here = cell(self.tape, self.ptr);
        let next = self.ip + 1;
        if cmd == PLUS {
            self.set(if here == 255 { 0u8 } else { (here + 1) as u8 }, next)
        } else if cmd == MINUS {
            self.set(if here == 0 { 255u8 } else { (here - 1) as u8 }, next)
        } else if cmd == RIGHT {
            Machine { ip: next, ptr: self.ptr + 1, ..self }
        } else if cmd == LEFT {
            if self.ptr == 0 {
                Machine {
                    ip: next,
                    written: self.written.push(
                        Signal::TerminateWithError { msg: left_end_text(self.ip) },
                    ),
                    failed: true,
                    ..self
                }
            } else {
                Machine { ip: next, ptr: (self.ptr - 1) as nat, ..self }
            }
        } else if cmd == PRINT {
            Machine { ip: next, written: self.written.push(Signal::out(seq![here as char])), ..self }
        } else if cmd == READ {
            if self.consumed < input.len() {
                Machine { consumed: self.consumed + 1, ..self.set(input[self.consumed as int], next) }
            } else {
                self.set(0, next)
            }
        } else if cmd == OPEN {
            if here == 0 {
                self.jump(loop_exit(pgm, self.ip as int) as nat)
            } else {
                self.jump(next)
            }
        } else if cmd == CLOSE {
            if here == 0 {
                self.jump(next)
            } else {
                self.jump(loop_entry(pgm, self.ip as int) as nat)
            }
        } else {
            self.jump(next)
        }
    }

    /// The machine after at most `steps` commands of `pgm`, from the start.
    pub open spec fn after(pgm: Seq<u8>, input: Seq<u8>, steps: nat) -> Machine
        decreases steps,
    {
        if steps == 0 {
            Machine::start()
        } else {
            let before = Machine::after(pgm, input, (steps - 1) as nat);
            if before.halted(pgm) {
                before
            } else {
                before.step(pgm, input)
            }
        }
    }
}

/// What running `pgm` on `input` for at most `limit` commands comes to. A
/// program whose brackets do not pair up is not run at all; one that has not
/// halted after `limit` commands is cut off there.
pub open spec fn run(pgm: Seq<u8>, input: Seq<u8>, limit: nat) -> Run {
    match bracket_error(pgm) {
        Some(text) => Run {
            signals: seq![Signal::TerminateWithError { msg: text }],
            fault: None,
        },
        None => {
            let end = Machine::after(pgm, input, limit);
            Run {
                signals: end.written,
                fault: if end.halted(pgm) {
                    None
                } else {
                    Some(Fault::StepLimit)
                },
            }
        },
    }
}

/// A `]` that closes nothing stays the first one however much of the program
/// follows.
proof fn extra_close_is_final(pgm: Seq<u8>, k: nat, n: nat)
    requires
        k <= n,
        extra_close_within(pgm, k) is Some,
    ensures
        extra_close_within(pgm, n) == extra_close_within(pgm, k),
    decreases n,
{
    if k < n {
        extra_close_is_final(pgm, k, (n - 1) as nat);
    }
}

/// A machine that has halted stays as it is.
proof fn halted_is_final(pgm: Seq<u8>, input: Seq<u8>, k: nat, n: nat)
    requires
        k <= n,
        Machine::after(pgm, input, k).halted(pgm),
    ensures
        Machine::after(pgm, input, n) == Machine::after(pgm, input, k),
    decreases n,
{
    if k < n {
        halted_is_final(pgm, input, k, (n - 1) as nat);
    }
}

/// Whether `jumps` holds, for each bracket of `code`, where it jumps to.
spec fn is_jump_table(code: Seq<u8>, jumps: Seq<usize>, upto: int) -> bool {
    forall|i: int|
        0 <= i < upto ==> {
            &&& code[i] == OPEN ==> #[trigger] jumps[i] == loop_exit(code, i)
            &&& code[i] == CLOSE ==> jumps[i] == loop_entry(code, i)
        }
}

/// Finds where the `[` at `open` jumps to when its cell is zero.
fn find_loop_exit(code: &[u8], open: usize) -> (exit: usize)
    requires
        open < code@.len(),
    ensures
        exit == loop_exit(code@, open as int),
        exit <= code@.len(),
{
    let end: usize = code.len();
    let mut i: usize = open + 1;
    let mut depth: usize = 0;
    while i < end
        invariant
            end == code@.len(),
            open < i <= code@.len(),
            depth <= i - open - 1,
            skip_forward(code@, i as int, depth as nat) == loop_exit(code@, open as int),
        decreases code@.len() - i,
    {
        let cmd = code[i];
        if cmd == OPEN {
            depth += 1;
        } else if cmd == CLOSE {
            if depth == 0 {
                return i + 1;
            }
            depth -= 1;
        }
        i += 1;
    }
    end
}

/// Finds where the `]` at `close` jumps to when its cell is not zero.
fn find_loop_entry(code: &[u8], close: usize) -> (entry: usize)
    requires
        close < code@.len(),
    ensures
        entry == loop_entry(code@, close as int),
        entry <= close,
{
    let mut i: usize = close;
    let mut depth: usize = 0;
    while i > 0
        invariant
            i <= close < code@.len(),
            depth <= close - i,
            seek_back(code@, i as int, depth as nat) == loop_entry(code@, close as int),
        decreases i,
    {
        let cmd = code[i - 1];
        if cmd == CLOSE {
            depth += 1;
        } else if cmd == OPEN {
            if depth == 0 {
                return i;
            }
            depth -= 1;
        }
        i -= 1;
    }
    0
}

/// Works out, for each bracket of `code`, where it jumps to.
fn jump_table(code: &[u8]) -> (jumps: Vec<usize>)
    ensures
        jumps@.len() == code@.len(),
        is_jump_table(code@, jumps@, code@.len() as int),
        forall|i: int| 0 <= i < jumps@.len() ==> #[trigger] jumps@[i] <= code@.len(),
{
    let mut jumps: Vec<usize> = Vec::new();
    let mut i: usize = 0;
    while i < code.len()
        invariant
            i <= code@.len(),
            jumps@.len() == i,
            is_jump_table(code@, jumps@, i as int),
            forall|k: int| 0 <= k < jumps@.len() ==> #[trigger] jumps@[k] <= code@.len(),
        decreases code@.len() - i,
    {
        let cmd = code[i];
        let target: usize = if cmd == OPEN {
            find_loop_exit(code, i)
        } else if cmd == CLOSE {
            find_loop_entry(code, i)
        } else {
            0
        };
        jumps.push(target);
        i += 1;
    }
    jumps
}

/// Appends to `s` the indices `list`, separated by commas, inside square
/// brackets.
fn push_index_list(s: &mut String, list: &Vec<usize>)
    ensures
        final(s)@ == old(s)@ + index_list(list@),
{
    s.push('[');
    let mut i: usize = 0;
    while i < list.len()
        invariant
            i <= list@.len(),
            s@ == old(s)@ + seq!['['] + index_items(list@.take(i as int)),
        decreases list@.len() - i,
    {
        let ghost before = s@;
        if i > 0 {
            s.push(',');
            s.push(' ');
        }
        push_decimal(s, list[i] as u64);
        i += 1;
        proof {
            let now = list@.take(i as int);
            assert(now.drop_last() =~= list@.take(i - 1));
            assert(now.last() == list@[i - 1]);
            assert(s@ =~= old(s)@ + seq!['['] + index_items(now));
        }
    }
    s.push(']');
    assert(list@.take(i as int) =~= list@);
    assert(final(s)@ =~= old(s)@ + index_list(list@));
}

/// A tape of `TAPE_BLOCK` cells, all zero.
fn blank_tape() -> (tape: Vec<u8>)
    ensures
        tape@.len() == TAPE_BLOCK,
        forall|i: int| 0 <= i < tape@.len() ==> tape@[i] == 0,
{
    let mut tape: Vec<u8> = Vec::new();
    grow_tape(&mut tape);
    tape
}

/// Adds `TAPE_BLOCK` cells, all zero, to the end of `tape`.
fn grow_tape(tape: &mut Vec<u8>)
    ensures
        final(tape)@.len() == old(tape)@.len() + TAPE_BLOCK,
        forall|i: int| 0 <= i < old(tape)@.len() ==> final(tape)@[i] == old(tape)@[i],
        forall|i: int| old(tape)@.len() <= i < final(tape)@.len() ==> final(tape)@[i] == 0,
{
    let mut n: usize = 0;
    while n < TAPE_BLOCK
        invariant
            n <= TAPE_BLOCK,
            tape@.len() == old(tape)@.len() + n,
            forall|i: int| 0 <= i < old(tape)@.len() ==> tape@[i] == old(tape)@[i],
            forall|i: int| old(tape)@.len() <= i < tape@.len() ==> tape@[i] == 0,
        decreases TAPE_BLOCK - n,
    {
        tape.push(0);
        n += 1;
    }
}

/// Whether the cells of `tape` are those of `cells`, and zero beyond them.
spec fn holds(tape: Map<nat, u8>, cells: Seq<u8>) -> bool {
    forall|at: nat| #[trigger]
        cell(tape, at) == (if at < cells.len() {
            cells[at as int]
        } else {
            0u8
        })
}

/// Runs the brainfuck program `pgm` on `input` for at most `max_steps`
/// commands. A program whose brackets do not pair up ends with an error
/// before its first command, and so does one that moves left of the first
/// cell, there. A program that is still running after `max_steps` commands is
/// cut off with a fault.
#[verifier::rlimit(50)]
pub fn interpret_bounded<T: LangWriter>(
    pgm: &str,
    input: &str,
    max_steps: u64,
    writer: &mut T,
) -> (done: Result<(), Fault>)
    requires
        old(writer).inv(),
    ensures
        final(writer).inv(),
        final(writer).signals() == old(writer).signals() + run(
            pgm.spec_bytes(),
            input.spec_bytes(),
            max_steps as nat,
        ).signals,
        match done {
            Ok(_) => run(pgm.spec_bytes(), input.spec_bytes(), max_steps as nat).fault is None,
            Err(fault) => run(pgm.spec_bytes(), input.spec_bytes(), max_steps as nat).fault
                == Some(fault),
        },
{
    let code = pgm.as_bytes();
    let feed = input.as_bytes();

    // Pair up the brackets, and stop at the first that has no partner.
    let mut loop_starts: Vec<usize> = Vec::new();
    let mut ind: usize = 0;
    while ind < code.len()
        invariant
            ind <= code@.len(),
            code@ == pgm.spec_bytes(),
            loop_starts@ == unclosed_after(code@, ind as nat),
            extra_close_within(code@, ind as nat) is None,
            writer.inv(),
            writer.signals() == old(writer).signals(),
        decreases code@.len() - ind,
    {
        let cmd = code[ind];
        if cmd == OPEN {
            loop_starts.push(ind);
        } else if cmd == CLOSE {
            if loop_starts.len() == 0 {
                let mut msg = "Extra `]` found at index ".to_owned();
                push_decimal(&mut msg, ind as u64);
                writer.terminate_with_error(msg.as_str());
                proof {
                    assert(extra_close_within(code@, (ind + 1) as nat) == Some(ind as nat));
                    extra_close_is_final(code@, (ind + 1) as nat, code@.len());
                    assert(final(writer).signals() =~= old(writer).signals() + seq![
                        Signal::TerminateWithError { msg: extra_close_text(ind as nat) },
                    ]);
                }
                return Ok(());
            }
            loop_starts.pop();
        }
        ind += 1;
    }
    if loop_starts.len() > 0 {
        let mut msg = "Error: Missing closing `]`'s to correspond with `[`'s at indices ".to_owned();
        push_index_list(&mut msg, &loop_starts);
        writer.terminate_with_error(msg.as_str());
        assert(final(writer).signals() =~= old(writer).signals() + seq![
            Signal::TerminateWithError { msg: unclosed_text(loop_starts@) },
        ]);
        return Ok(());
    }
    assert(bracket_error(code@) is None);

    let jumps = jump_table(code);
    let mut tape = blank_tape();
    let mut ip: usize = 0;
    let mut pos: usize = 0;
    let mut consumed: usize = 0;
    let mut steps: u64 = 0;
    let ghost mut m = Machine::start();
    assert(writer.signals() =~= old(writer).signals() + m.written);
    while ip < code.len() && steps < max_steps
        invariant
            code@ == pgm.spec_bytes(),
            feed@ == input.spec_bytes(),
            bracket_error(code@) is None,
            jumps@.len() == code@.len(),
            is_jump_table(code@, jumps@, code@.len() as int),
            forall|i: int| 0 <= i < jumps@.len() ==> #[trigger] jumps@[i] <= code@.len(),
            m == Machine::after(code@, feed@, steps as nat),
            !m.failed,
            m.ip == ip,
            m.ptr == pos,
            m.consumed == consumed,
            ip <= code@.len(),
            pos < tape@.len(),
            consumed <= feed@.len(),
            steps <= max_steps,
            holds(m.tape, tape@),
            writer.inv(),
            writer.signals() == old(writer).signals() + m.written,
        decreases max_steps - steps,
    {
        let cmd = code[ip];
        let here = tape[pos];
        let ghost before = m;
        let ghost cells_before = tape@;
        assert(cell(m.tape, pos as nat) == here);
        proof {
            m = m.step(code@, feed@);
            assert(Machine::after(code@, feed@, (steps + 1) as nat) == m);
        }
        if cmd == PLUS {
            tape.set(pos, if here == 255 { 0 } else { here + 1 });
            ip += 1;
        } else if cmd == MINUS {
            tape.set(pos, if here == 0 { 255 } else { here - 1 });
            ip += 1;
        } else if cmd == RIGHT {
            let cells: usize = tape.len();
            pos += 1;
            if pos == cells {
                grow_tape(&mut tape);
            }
            ip += 1;
        } else if cmd == LEFT {
            if pos == 0 {
                let mut msg = "Error on `<` at index ".to_owned();
                push_decimal(&mut msg, ip as u64 + 1);
                msg.append(": Reached left end of tape");
                writer.terminate_with_error(msg.as_str());
                proof {
                    assert(msg@ =~= left_end_text(ip as nat));
                    assert(final(writer).signals() =~= old(writer).signals() + m.written);
                    halted_is_final(code@, feed@, (steps + 1) as nat, max_steps as nat);
                }
                return Ok(());
            }
            pos -= 1;
            ip += 1;
        } else if cmd == PRINT {
            let mut text = String::new();
            text.push(here as char);
            assert(text@ =~= seq![here as char]);
            writer.write_out(text.as_str());
            ip += 1;
        } else if cmd == READ {
            if consumed < feed.len() {
                tape.set(pos, feed[consumed]);
                consumed += 1;
            } else {
                tape.set(pos, 0);
            }
            ip += 1;
        } else if cmd == OPEN {
            if here == 0 {
                ip = jumps[ip];
            } else {
                ip += 1;
            }
        } else if cmd == CLOSE {
            if here == 0 {
                ip += 1;
            } else {
                ip = jumps[ip];
            }
        } else {
            ip += 1;
        }
        steps += 1;
        assert(holds(m.tape, tape@)) by {
            assert forall|at: nat| #[trigger]
                cell(m.tape, at) == (if at < tape@.len() {
                    tape@[at as int]
                } else {
                    0u8
                }) by {
                assert(cell(before.tape, at) == (if at < cells_before.len() {
                    cells_before[at as int]
                } else {
                    0u8
                }));
            }
        }
        assert(writer.signals() =~= old(writer).signals() + m.written);
    }
    proof {
        if ip >= code@.len() {
            halted_is_final(code@, feed@, steps as nat, max_steps as nat);
        }
    }
    if ip < code.len() {
        Err(Fault::StepLimit)
    } else {
        Ok(())
    }
}

/// Runs the brainfuck program `pgm` on `input`, for as long as it takes up to
/// `STEP_LIMIT` commands. The arguments are not looked at.
pub fn interpret<T: LangWriter>(pgm: &str, input: &str, _args: &str, writer: &mut T) -> (done:
    Result<(), Fault>)
    requires
        old(writer).inv(),
    ensures
        final(writer).inv(),
        final(writer).signals() == old(writer).signals() + run(
            pgm.spec_bytes(),
            input.spec_bytes(),
            STEP_LIMIT as nat,
        ).signals,
        match done {
            Ok(_) => run(pgm.spec_bytes(), input.spec_bytes(), STEP_LIMIT as nat).fault is None,
            Err(fault) => run(pgm.spec_bytes(), input.spec_bytes(), STEP_LIMIT as nat).fault
                == Some(fault),
        },
{
    interpret_bounded(pgm, input, STEP_LIMIT, writer)
}

} // verus!
