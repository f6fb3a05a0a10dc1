//! Languages that run one step at a time, so that whoever drives them can
//! stop between any two steps.

use vstd::prelude::*;
use vstd::string::StringExecFns;
use lang_trait::Language;

pub mod deadfish;
pub mod lang_trait;
pub mod s10k;

verus! {

/// The names of the languages that run step by step, in alphabetical order.
pub fn langs() -> (names: Vec<&'static str>)
    ensures
        names@.len() == 2,
        names@[0]@ == "Deadfish"@,
        names@[1]@ == "S10K"@,
{
    let mut names: Vec<&'static str> = Vec::new();
    names.push("Deadfish");
    names.push("S10K");
    names
}

/// What a run of several steps comes to.
pub struct Progress<M> {
    /// The machine after the run.
    pub model: M,
    /// What the steps printed on standard output, one after the other.
    pub stdout: Seq<char>,
    /// What the steps printed on standard error, one after the other.
    pub stderr: Seq<char>,
    /// Whether the machine goes on.
    pub running: bool,
}

/// What at most `steps` steps from `m` come to. The run ends early with the
/// first step after which the machine does not go on.
pub open spec fn run_steps<L: Language>(m: L::Model, steps: nat) -> Progress<L::Model>
    decreases steps,
{
    if steps == 0 {
        Progress { model: m, stdout: Seq::empty(), stderr: Seq::empty(), running: true }
    } else {
        let before = run_steps::<L>(m, (steps - 1) as nat);
        if before.running {
            Progress {
                model: L::next(before.model),
                stdout: before.stdout + L::output(before.model).stdout,
                stderr: before.stderr + L::output(before.model).stderr,
                running: L::output(before.model).running,
            }
        } else {
            before
        }
    }
}

/// How many steps to run next, after a run of `last_steps`: twice as many
/// where that run was `fast`, as far as the number fits; else two thirds of
/// them, and one at the least.
pub open spec fn adapted(last_steps: usize, fast: bool) -> usize {
    if fast {
        if last_steps * 2 <= usize::MAX {
            (last_steps * 2) as usize
        } else {
            usize::MAX
        }
    } else if last_steps * 2 / 3 >= 1 {
        (last_steps * 2 / 3) as usize
    } else {
        1
    }
}

/// A machine and the number of steps it was last run for.
pub struct LangContext<L: Language> {
    last_steps: usize,
    lang: L,
}

impl<L: Language> LangContext<L> {
    /// The machine as plain values.
    pub closed spec fn model(&self) -> L::Model {
        self.lang.model()
    }

    /// For how many steps the machine was last run.
    pub closed spec fn last_steps(&self) -> usize {
        self.last_steps
    }

    /// Puts the machine `lang` in front of the program `code`.
    pub fn init(lang: L, code: &str, input: &str, args: &str) -> (ctx: Self)
        ensures
            ctx.model() == L::started(code@, input@, args@),
            ctx.last_steps() == 1,
    {
        let mut ctx = Self { last_steps: 1, lang };
        ctx.lang.init(code, input, args);
        ctx
    }

    /// Runs one step.
    pub fn step(&mut self) -> (printed: (String, String, bool))
        ensures
            final(self).model() == L::next(old(self).model()),
            final(self).last_steps() == old(self).last_steps(),
            printed.0@ == L::output(old(self).model()).stdout,
            printed.1@ == L::output(old(self).model()).stderr,
            printed.2 == L::output(old(self).model()).running,
    {
        self.lang.step()
    }

    /// Runs at most `steps` steps and gives all that they printed.
    pub fn step_many(&mut self, steps: usize) -> (printed: (String, String, bool))
        ensures
            final(self).last_steps() == steps,
            final(self).model() == run_steps::<L>(old(self).model(), steps as nat).model,
            printed.0@ == run_steps::<L>(old(self).model(), steps as nat).stdout,
            printed.1@ == run_steps::<L>(old(self).model(), steps as nat).stderr,
            printed.2 == run_steps::<L>(old(self).model(), steps as nat).running,
    {
        self.last_steps = steps;
        let mut is_running = true;
        let mut stdout = String::new();
        let mut stderr = String::new();
        let mut done: usize = 0;
        while done < steps && is_running
            invariant
                done <= steps,
                self.last_steps == steps,
                self.model() == run_steps::<L>(old(self).model(), done as nat).model,
                stdout@ == run_steps::<L>(old(self).model(), done as nat).stdout,
                stderr@ == run_steps::<L>(old(self).model(), done as nat).stderr,
                is_running == run_steps::<L>(old(self).model(), done as nat).running,
            decreases steps - done,
        {
            let (next_stdout, next_stderr, next_running) = self.step();
            stdout.append(next_stdout.as_str());
            stderr.append(next_stderr.as_str());
            is_running = next_running;
            done += 1;
        }
        proof {
            stopped_is_final::<L>(old(self).model(), done as nat, steps as nat);
        }
        (stdout, stderr, is_running)
    }

    /// Runs as many steps as `adapted` gives for the last run, which was
    /// `fast` or not.
    pub fn step_adaptive(&mut self, fast: bool) -> (printed: (String, String, bool))
        ensures
            final(self).last_steps() == adapted(old(self).last_steps(), fast),
            final(self).model() == run_steps::<L>(
                old(self).model(),
                adapted(old(self).last_steps(), fast) as nat,
            ).model,
            printed.0@ == run_steps::<L>(
                old(self).model(),
                adapted(old(self).last_steps(), fast) as nat,
            ).stdout,
            printed.1@ == run_steps::<L>(
                old(self).model(),
                adapted(old(self).last_steps(), fast) as nat,
            ).stderr,
            printed.2 == run_steps::<L>(
                old(self).model(),
                adapted(old(self).last_steps(), fast) as nat,
            ).running,
    {
        let steps = adapt(self.last_steps, fast);
        self.step_many(steps)
    }
}

/// How many steps to run next, after a run of `last_steps`.
pub fn adapt(last_steps: usize, fast: bool) -> (steps: usize)
    ensures
        steps == adapted(last_steps, fast),
{
    if fast {
        if last_steps <= usize::MAX / 2 {
            last_steps * 2
        } else {
            usize::MAX
        }
    } else {
        let thirds: usize = last_steps / 3 * 2 + (last_steps % 3) * 2 / 3;
        assert(thirds == last_steps * 2 / 3) by (nonlinear_arith)
            requires
                thirds == last_steps / 3 * 2 + (last_steps % 3) * 2 / 3,
        ;
        if thirds >= 1 {
            thirds
        } else {
            1
        }
    }
}

/// A run that has stopped stays as it is, however many steps it is given.
proof fn stopped_is_final<L: Language>(m: L::Model, k: nat, n: nat)
    requires
        k <= n,
        k == n || !run_steps::<L>(m, k).running,
    ensures
        run_steps::<L>(m, n) == run_steps::<L>(m, k),
    decreases n,
{
    if k < n {
        stopped_is_final::<L>(m, k, (n - 1) as nat);
    }
}

} // verus!
