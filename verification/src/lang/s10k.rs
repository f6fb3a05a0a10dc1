//! S10K: prints ten thousand copies of "S" and halts.

use vstd::prelude::*;
use super::{Fault, LangWriter, Signal};

verus! {

pub const NAME: &'static str = "S10K";

pub const HOMEPAGE: &'static str = "https://try-in-browser.netlify.app/";

pub const HELP: &'static str =
    "S10K, the first TIB-original language.\nPrints 10,000 copies of \"S\" and halts.\n";

/// How many copies of "S" a run prints.
pub const COPIES: usize = 10000;

/// What every run prints.
pub open spec fn output() -> Seq<char> {
    Seq::new(COPIES as nat, |i: int| 'S')
}

/// The calls a run makes on its writer: one write, then the end.
pub open spec fn signals() -> Seq<Signal> {
    seq![Signal::out(output()), Signal::Terminate]
}

/// Runs the program: whatever it says, the output is the same.
pub fn interpret<T: LangWriter>(_pgm: &str, _input: &str, _args: &str, writer: &mut T) -> (done:
    Result<(), Fault>)
    requires
        old(writer).inv(),
    ensures
        done is Ok,
        final(writer).inv(),
        final(writer).signals() == old(writer).signals() + signals(),
{
    let mut text = String::new();
    let mut i: usize = 0;
    while i < COPIES
        invariant
            i <= COPIES,
            text@ == Seq::new(i as nat, |k: int| 'S'),
        decreases COPIES - i,
    {
        text.push('S');
        i += 1;
        assert(text@ =~= Seq::new(i as nat, |k: int| 'S'));
    }
    writer.write_out(text.as_str());
    writer.terminate();
    assert(final(writer).signals() =~= old(writer).signals() + signals());
    Ok(())
}

} // verus!
