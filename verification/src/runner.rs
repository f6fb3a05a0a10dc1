//! The supervisor: it owns the worker of the current job, gathers what the
//! job writes into two bounded streams, and says how and when the job ended.
//!
//! Nothing here waits or posts. Every operation takes what happened, changes
//! the state, and says what the caller has to do next.

use vstd::prelude::*;
use vstd::string::StringExecFns;
use vstd::utf8::encode_utf8;
use crate::lang::Signal;
use crate::text::{decimal, decimal_padded, push_decimal, push_decimal_padded};
use crate::threading::job::{
    all_writes, chunk, messages_for, messages_of, success, written_err, written_out,
};
use crate::threading::accumulator::{overflows, StreamAccumulator, Streams};
use crate::threading::atw::{
    MalformedChunk, Rejection, ResultMessage, ResultMessageView, Settlement, SettlementView,
    Teardown,
};
use crate::threading::thread::{job_task, BootstrapPayload, Thread, ThreadStatus};
use crate::threading::{
    JobRequest, JobRequestView, MtError, TaskMessage, TaskMessageView, WasmMt, WasmMtView, OUT_LIMIT,
};

verus! {

/// Where the glue script of the package lies.
pub const PKG_JS: &'static str = "./pkg/package.js";

/// What the supervisor is ready for.
#[derive(Clone, Copy, Debug, PartialEq, Eq, Structural)]
pub enum ThreadState {
    /// The package is not set up yet.
    NotReady,
    /// No job is running; one can be started.
    Ready,
    /// A job is running.
    Running,
}

/// How a job ended.
#[derive(Clone, Copy, Debug, PartialEq, Eq, Structural)]
pub enum Outcome {
    /// The job came to its end.
    Finished,
    /// The worker stopped, or the job reported a failure.
    Crashed,
    /// The job wrote more than a stream may hold.
    OutputLimitExceeded,
    /// The job was stopped from outside.
    Aborted,
}

/// The end of a job: how it ended, and how long it had run.
#[derive(Clone, Copy, Debug, PartialEq, Eq, Structural)]
pub struct Completion {
    pub outcome: Outcome,
    /// The time from the start of the job to its end, in microseconds.
    pub elapsed: u64,
}

/// How many microseconds a second has.
pub const MICROS: u64 = 1_000_000;

impl Outcome {
    /// The word for this outcome.
    pub open spec fn label(self) -> Seq<char> {
        match self {
            Outcome::Finished => "finished"@,
            Outcome::Crashed => "interpreter crashed"@,
            Outcome::OutputLimitExceeded => "output limit exceeded"@,
            Outcome::Aborted => "aborted"@,
        }
    }

    /// The word for this outcome.
    pub fn describe(&self) -> (label: &'static str)
        ensures
            label@ == self.label(),
    {
        match self {
            Outcome::Finished => "finished",
            Outcome::Crashed => "interpreter crashed",
            Outcome::OutputLimitExceeded => "output limit exceeded",
            Outcome::Aborted => "aborted",
        }
    }
}

/// `elapsed` microseconds written as seconds, with six digits behind the
/// point.
pub open spec fn seconds_text(elapsed: u64) -> Seq<char> {
    decimal((elapsed / MICROS) as nat) + seq!['.'] + decimal_padded((elapsed % MICROS) as nat, 6)
}

impl Completion {
    /// The two lines that close the report of a job: how long it ran, and
    /// how it ended.
    pub open spec fn footer_text(self) -> Seq<char> {
        "\n\nElapsed time: "@ + seconds_text(self.elapsed) + " sec\n"@ + self.outcome.label()
    }

    /// Writes the two lines that close the report of a job.
    pub fn footer(&self) -> (text: String)
        ensures
            text@ == self.footer_text(),
    {
        let mut text = "\n\nElapsed time: ".to_owned();
        push_decimal(&mut text, self.elapsed / MICROS);
        text.push('.');
        push_decimal_padded(&mut text, self.elapsed % MICROS, 6);
        text.append(" sec\n");
        text.append(self.outcome.describe());
        assert(text@ =~= self.footer_text());
        text
    }
}

/// Why a job could not be started.
#[derive(Clone, Copy, Debug, PartialEq, Eq, Structural)]
pub enum RunError {
    /// The supervisor is not ready: the package is not set up, or a job is
    /// running.
    NotReady,
    /// No worker could be made from the package.
    Package(MtError),
}

/// What starting a job asks of the caller.
#[derive(Debug, PartialEq, Eq)]
pub struct Launch {
    /// What to do with the worker of the job before, if there is one.
    pub retire: Teardown,
    /// What to post to the new worker to bring it up.
    pub payload: BootstrapPayload,
}

/// What a look at the running job found.
#[derive(Clone, Copy, Debug, PartialEq, Eq, Structural)]
pub struct Update {
    /// The end of the job, if it has ended.
    pub completion: Option<Completion>,
    /// What to do with the worker, where the job overflowed.
    pub teardown: Teardown,
}

/// A `RunnerState` as plain values.
pub struct RunnerView {
    /// The package, once it is set up.
    pub mt: Option<WasmMtView>,
    /// The worker of the current or the last job.
    pub thread: Option<ThreadStatus>,
    /// The job that waits for its worker to come up.
    pub job: Option<JobRequestView>,
    /// The package was seen to be set up.
    pub th_init: bool,
    /// The job succeeded, and nobody has taken note yet.
    pub th_finished: bool,
    /// The job failed, and nobody has taken note yet.
    pub th_crashed: bool,
    /// The job failed because a stream overflowed.
    pub th_overflown: bool,
    /// When the job was started, in microseconds.
    pub start_time: u64,
    pub thread_state: ThreadState,
    /// What the job has written, as far as it was collected.
    pub output: Streams,
}

/// Something that happens to a supervisor while a job runs.
pub enum Event {
    /// A message arrives from the worker.
    Message(ResultMessageView),
    /// Somebody looks at the state of things.
    Look,
}

/// The messages among `events`, in their order.
pub open spec fn messages_in(events: Seq<Event>) -> Seq<ResultMessageView>
    decreases events.len(),
{
    if events.len() == 0 {
        Seq::empty()
    } else {
        match events.last() {
            Event::Message(msg) => messages_in(events.drop_last()).push(msg),
            Event::Look => messages_in(events.drop_last()),
        }
    }
}

/// Nothing to do.
pub open spec fn no_teardown() -> Teardown {
    Teardown { reject_pending: false, destroy_worker: false }
}

/// The time from `start` to `now`; none where the clock went backwards.
pub open spec fn elapsed_between(start: u64, now: u64) -> u64 {
    if now >= start {
        (now - start) as u64
    } else {
        0
    }
}

impl RunnerView {
    /// The supervisor before anything happened.
    pub open spec fn fresh() -> RunnerView {
        RunnerView {
            mt: None,
            thread: None,
            job: None,
            th_init: false,
            th_finished: false,
            th_crashed: false,
            th_overflown: false,
            start_time: 0,
            thread_state: ThreadState::NotReady,
            output: Streams::empty(),
        }
    }

    /// The streams are within their limit, the worker is well-formed, and a
    /// job waits only for a worker that is being brought up.
    pub open spec fn wf(self) -> bool {
        &&& self.output.within_limit()
        &&& self.thread matches Some(thread) ==> thread.wf()
        &&& self.job is Some ==> (self.thread matches Some(thread) && thread.booting)
    }

    /// The supervisor after a look at whether the package is set up.
    pub open spec fn after_poll_mt_init(self) -> RunnerView {
        RunnerView { th_init: self.th_init || self.mt is Some, ..self }
    }

    /// The supervisor after both flags were read.
    pub open spec fn after_reset_all_flags(self) -> RunnerView {
        RunnerView { th_finished: false, th_crashed: false, th_overflown: false, ..self }
    }

    /// What tearing down the worker asks for.
    pub open spec fn teardown(self) -> Teardown {
        match self.thread {
            Some(thread) => thread.bridge.teardown(),
            None => no_teardown(),
        }
    }

    /// The supervisor after its worker was torn down and let go.
    pub open spec fn after_reset(self) -> RunnerView {
        RunnerView { thread: None, job: None, ..self }
    }

    /// Why a job cannot be started now, if it cannot.
    pub open spec fn run_error(self) -> Option<RunError> {
        if !(self.thread_state is Ready) {
            Some(RunError::NotReady)
        } else {
            match self.mt {
                None => Some(RunError::NotReady),
                Some(mt) => match mt.thread_error() {
                    Some(e) => Some(RunError::Package(e)),
                    None => None,
                },
            }
        }
    }

    /// The supervisor after an attempt to start `job` at the time `now`.
    /// Where the job can be started, the worker of the job before is let go,
    /// a new one is being brought up, and the job waits for it.
    pub open spec fn after_run(self, job: JobRequestView, now: u64) -> RunnerView {
        if self.run_error() is None {
            RunnerView {
                mt: self.mt,
                thread: Some(
                    ThreadStatus::fresh(self.mt->0.ab_init->0, self.mt->0.ab_wasm->0).after_init(),
                ),
                job: Some(job),
                th_init: self.th_init,
                th_finished: false,
                th_crashed: false,
                th_overflown: false,
                start_time: now,
                thread_state: ThreadState::Running,
                output: Streams::empty(),
            }
        } else {
            self
        }
    }

    /// Whether the settlement `settled` sends the waiting job on its way.
    pub open spec fn dispatches(self, settled: SettlementView) -> bool {
        &&& self.thread matches Some(thread)
        &&& thread.booting
        &&& settled is Resolved
        &&& self.job is Some
    }

    /// The supervisor whose worker, now `thread`, has settled its request by
    /// `settled`. A request that failed has failed the job, whether the
    /// worker was still being brought up or the job was running: a job that
    /// waits is dropped, and the end is noted as crashed, and as overflown if
    /// that was why. A request that succeeded sends the waiting job, where
    /// the worker was being brought up, and else ends the job as finished.
    pub open spec fn settled_by(self, settled: SettlementView, thread: ThreadStatus) -> RunnerView {
        match settled {
            SettlementView::Unsettled => RunnerView { thread: Some(thread), ..self },
            SettlementView::Rejected(rejection) => RunnerView {
                thread: Some(thread),
                job: None,
                th_crashed: true,
                th_overflown: self.th_overflown || rejection.is_limit(),
                ..self
            },
            SettlementView::Resolved(_) => if self.thread->0.booting {
                if self.job is Some {
                    RunnerView {
                        thread: Some(thread.after_exec()),
                        job: None,
                        th_crashed: self.th_crashed || thread.bridge.send_error() is Some,
                        ..self
                    }
                } else {
                    RunnerView { thread: Some(thread), ..self }
                }
            } else {
                RunnerView { thread: Some(thread), th_finished: true, ..self }
            },
        }
    }

    /// The task that is posted when the worker, then `thread`, has settled
    /// its request by `settled`: that of the waiting job, where this brought
    /// the worker up and the bridge takes the job.
    pub open spec fn task_when_settled(
        self,
        settled: SettlementView,
        thread: ThreadStatus,
    ) -> Option<TaskMessageView> {
        if self.dispatches(settled) && thread.bridge.send_error() is None {
            Some(job_task(self.job->0))
        } else {
            None
        }
    }

    /// The task that is posted when `msg` arrives from the worker.
    pub open spec fn task_on_message(self, msg: ResultMessageView) -> Option<TaskMessageView> {
        match self.thread {
            Some(thread) => if thread.bridge.malformed(msg) {
                None
            } else {
                self.task_when_settled(thread.bridge.settlement(msg), thread.after_message(msg))
            },
            None => None,
        }
    }

    /// The task that is posted when the worker stops without a message.
    pub open spec fn task_on_error(self) -> Option<TaskMessageView> {
        match self.thread {
            Some(thread) => self.task_when_settled(self.crash_settlement(), thread.after_crash()),
            None => None,
        }
    }

    /// The supervisor after `msg` arrives from the worker.
    pub open spec fn after_message(self, msg: ResultMessageView) -> RunnerView {
        match self.thread {
            Some(thread) => if thread.bridge.malformed(msg) {
                self
            } else {
                self.settled_by(thread.bridge.settlement(msg), thread.after_message(msg))
            },
            None => self,
        }
    }

    /// The supervisor after `event`.
    pub open spec fn after_event(self, event: Event) -> RunnerView {
        match event {
            Event::Message(msg) => self.after_message(msg),
            Event::Look => self.after_update(),
        }
    }

    /// The supervisor after `events`, one after the other.
    pub open spec fn after_events(self, events: Seq<Event>) -> RunnerView
        decreases events.len(),
    {
        if events.len() == 0 {
            self
        } else {
            self.after_events(events.drop_last()).after_event(events.last())
        }
    }

    /// All that the job has written to standard output and that has arrived:
    /// what was collected, and then what the worker holds.
    pub open spec fn stdout_so_far(self) -> Seq<u8> {
        self.output.stdout + self.pending_output().stdout
    }

    /// All that the job has written to standard error and that has arrived.
    pub open spec fn stderr_so_far(self) -> Seq<u8> {
        self.output.stderr + self.pending_output().stderr
    }

    /// Whether a job is running on a worker that is up and has sent nothing
    /// yet, with nothing collected and no end noted.
    pub open spec fn job_just_sent(self) -> bool {
        &&& self.thread_state is Running
        &&& self.thread matches Some(thread)
        &&& !thread.booting
        &&& thread.bridge == crate::threading::atw::ThreadView::fresh().after_send()
        &&& self.job is None
        &&& !self.th_finished
        &&& !self.th_crashed
        &&& !self.th_overflown
        &&& self.output == Streams::empty()
    }

    /// What the crash of the worker means for its pending request.
    pub open spec fn crash_settlement(self) -> SettlementView {
        if self.thread matches Some(thread) && thread.bridge.pending {
            SettlementView::Rejected(crate::threading::atw::RejectionView::Crashed)
        } else {
            SettlementView::Unsettled
        }
    }

    /// The supervisor after its worker stopped without a message.
    pub open spec fn after_error(self) -> RunnerView {
        match self.thread {
            Some(thread) => self.settled_by(self.crash_settlement(), thread.after_crash()),
            None => self,
        }
    }

    /// What the worker holds on its two streams.
    pub open spec fn pending_output(self) -> Streams {
        match self.thread {
            Some(thread) => thread.bridge.streams,
            None => Streams::empty(),
        }
    }

    /// The supervisor after what the worker holds was taken from it.
    pub open spec fn after_take_result(self) -> RunnerView {
        match self.thread {
            Some(thread) => RunnerView {
                thread: Some(
                    ThreadStatus {
                        bridge: crate::threading::atw::ThreadView {
                            streams: Streams::empty(),
                            ..thread.bridge
                        },
                        ..thread
                    },
                ),
                ..self
            },
            None => self,
        }
    }

    /// Whether a look at the running job finds that it overflowed: here,
    /// where what the worker holds is more than the streams can take, or at
    /// the bridge before.
    pub open spec fn overflown(self) -> bool {
        ||| self.th_overflown
        ||| overflows(self.output.stdout, self.pending_output().stdout)
        ||| overflows(self.output.stderr, self.pending_output().stderr)
    }

    /// How the running job has ended, if it has.
    pub open spec fn ending(self) -> Option<Outcome> {
        if self.overflown() {
            Some(Outcome::OutputLimitExceeded)
        } else if self.th_crashed {
            Some(Outcome::Crashed)
        } else if self.th_finished {
            Some(Outcome::Finished)
        } else {
            None
        }
    }

    /// What a look at the time `now` finds.
    pub open spec fn update(self, now: u64) -> Update {
        if self.thread_state is Running {
            Update {
                completion: match self.ending() {
                    Some(outcome) => Some(
                        Completion { outcome, elapsed: elapsed_between(self.start_time, now) },
                    ),
                    None => None,
                },
                teardown: if self.overflown() {
                    self.teardown()
                } else {
                    no_teardown()
                },
            }
        } else {
            Update { completion: None, teardown: no_teardown() }
        }
    }

    /// The supervisor after a look. Before the package is set up, the look
    /// finds out whether it is by now. While a job runs, the look collects
    /// what the worker holds, cut to what the streams can take, and reads the
    /// flags. A job that overflowed loses its worker. A job that ended leaves
    /// the supervisor ready for the next.
    pub open spec fn after_update(self) -> RunnerView {
        match self.thread_state {
            ThreadState::NotReady => if self.after_poll_mt_init().th_init {
                RunnerView { th_init: true, thread_state: ThreadState::Ready, ..self }
            } else {
                self
            },
            ThreadState::Ready => self,
            ThreadState::Running => {
                let collected = self.output.received(
                    self.pending_output().stdout,
                    self.pending_output().stderr,
                );
                let drained = self.after_take_result();
                RunnerView {
                    mt: self.mt,
                    thread: if self.overflown() {
                        None
                    } else {
                        drained.thread
                    },
                    job: if self.overflown() {
                        None
                    } else {
                        self.job
                    },
                    th_init: self.th_init,
                    th_finished: false,
                    th_crashed: false,
                    th_overflown: false,
                    start_time: self.start_time,
                    thread_state: if self.ending() is Some {
                        ThreadState::Ready
                    } else {
                        ThreadState::Running
                    },
                    output: collected,
                }
            },
        }
    }

    /// What stopping the job at the time `now` comes to.
    pub open spec fn stop(self, now: u64) -> Update {
        if self.thread_state is Running {
            Update {
                completion: Some(
                    Completion {
                        outcome: Outcome::Aborted,
                        elapsed: elapsed_between(self.start_time, now),
                    },
                ),
                teardown: self.teardown(),
            }
        } else {
            Update { completion: None, teardown: no_teardown() }
        }
    }

    /// The supervisor after the job was stopped. Where none is running,
    /// nothing changes.
    pub open spec fn after_stop(self) -> RunnerView {
        if self.thread_state is Running {
            RunnerView { thread_state: ThreadState::Ready, ..self.after_reset() }
        } else {
            self
        }
    }
}

/// The supervisor of one worker at a time.
pub struct RunnerState {
    mt: Option<WasmMt>,
    thread: Option<Thread>,
    job: Option<JobRequest>,
    th_init: bool,
    th_finished: bool,
    th_crashed: bool,
    th_overflown: bool,
    start_time: u64,
    thread_state: ThreadState,
    output: StreamAccumulator,
}

impl View for RunnerState {
    type V = RunnerView;

    closed spec fn view(&self) -> RunnerView {
        RunnerView {
            mt: match self.mt {
                Some(mt) => Some(mt@),
                None => None,
            },
            thread: match self.thread {
                Some(thread) => Some(thread@),
                None => None,
            },
            job: match self.job {
                Some(job) => Some(job@),
                None => None,
            },
            th_init: self.th_init,
            th_finished: self.th_finished,
            th_crashed: self.th_crashed,
            th_overflown: self.th_overflown,
            start_time: self.start_time,
            thread_state: self.thread_state,
            output: self.output@,
        }
    }
}

impl RunnerState {
    /// A supervisor before anything happened.
    pub fn new() -> (state: RunnerState)
        ensures
            state@ == RunnerView::fresh(),
    {
        RunnerState {
            mt: None,
            thread: None,
            job: None,
            th_init: false,
            th_finished: false,
            th_crashed: false,
            th_overflown: false,
            start_time: 0,
            thread_state: ThreadState::NotReady,
            output: StreamAccumulator::new(),
        }
    }

    /// What the supervisor is ready for.
    pub fn thread_state(&self) -> (thread_state: ThreadState)
        ensures
            thread_state == self@.thread_state,
    {
        self.thread_state
    }

    /// What the job has written to standard output, as far as it was
    /// collected.
    pub fn stdout(&self) -> (bytes: &[u8])
        ensures
            bytes@ == self@.output.stdout,
    {
        self.output.stdout()
    }

    /// What the job has written to standard error, as far as it was
    /// collected.
    pub fn stderr(&self) -> (bytes: &[u8])
        ensures
            bytes@ == self@.output.stderr,
    {
        self.output.stderr()
    }
}

/// The package as it is before anything was fetched. Whoever owns the network
/// sets it up and hands it to `set_mt`.
pub fn init() -> (mt: WasmMt)
    ensures
        mt@ == (WasmMtView { pkg_js_uri: PKG_JS@, ab_init: None, ab_wasm: None, initialized: false }),
{
    WasmMt::new(PKG_JS)
}

/// Takes the package that was set up.
pub fn set_mt(state: &mut RunnerState, mt: WasmMt)
    ensures
        final(state)@ == (RunnerView { mt: Some(mt@), ..old(state)@ }),
{
    state.mt = Some(mt);
}

/// Reads whether the job succeeded, and forgets it.
pub fn get_th_finished(state: &mut RunnerState) -> (finished: bool)
    ensures
        finished == old(state)@.th_finished,
        final(state)@ == (RunnerView { th_finished: false, ..old(state)@ }),
{
    let ret = state.th_finished;
    state.th_finished = false;
    ret
}

/// Reads whether the job failed, and forgets it.
pub fn get_th_crashed(state: &mut RunnerState) -> (crashed: bool)
    ensures
        crashed == old(state)@.th_crashed,
        final(state)@ == (RunnerView { th_crashed: false, ..old(state)@ }),
{
    let ret = state.th_crashed;
    state.th_crashed = false;
    ret
}

/// Forgets how the last job ended.
pub fn reset_all_flags(state: &mut RunnerState)
    ensures
        final(state)@ == old(state)@.after_reset_all_flags(),
{
    get_th_finished(state);
    get_th_crashed(state);
    state.th_overflown = false;
}

/// The time since the job was started, in microseconds.
pub fn get_elapsed_time(state: &RunnerState, now: u64) -> (elapsed: u64)
    ensures
        elapsed == elapsed_between(state@.start_time, now),
{
    if now >= state.start_time {
        now - state.start_time
    } else {
        0
    }
}

/// Takes from the worker what it holds on its two streams: standard output
/// first, then standard error.
pub fn take_result_from_thread(state: &mut RunnerState) -> (result: (Vec<u8>, Vec<u8>))
    ensures
        result.0@ == old(state)@.pending_output().stdout,
        result.1@ == old(state)@.pending_output().stderr,
        final(state)@ == old(state)@.after_take_result(),
{
    match state.thread.take() {
        Some(mut th) => {
            let s1 = th.stdout();
            let s2 = th.stderr();
            state.thread = Some(th);
            (s1, s2)
        },
        None => (Vec::new(), Vec::new()),
    }
}

/// Looks whether the package is set up, and remembers it if so.
pub fn poll_mt_init(state: &mut RunnerState) -> (ready: bool)
    ensures
        final(state)@ == old(state)@.after_poll_mt_init(),
        ready == final(state)@.th_init,
{
    if state.mt.is_some() && !state.th_init {
        state.th_init = true;
    }
    state.th_init
}

/// Tears down the worker, if there is one, and lets it go. What comes back
/// says what that asks of the caller.
pub fn reset(state: &mut RunnerState) -> (todo: Teardown)
    ensures
        todo == old(state)@.teardown(),
        final(state)@ == old(state)@.after_reset(),
        old(state)@.wf() ==> final(state)@.wf(),
{
    state.job = None;
    match state.thread.take() {
        Some(mut thread) => thread.terminate(),
        None => Teardown { reject_pending: false, destroy_worker: false },
    }
}

/// Starts the job at the time `now`. This needs a supervisor that is ready
/// and a package that workers can be made from. The worker of the job before
/// is torn down, a new one is made, and the job waits until that one is up.
/// What comes back is what the caller has to post to the new worker.
pub fn run(
    state: &mut RunnerState,
    lang: &str,
    code: &str,
    stdin: &str,
    args: &str,
    now: u64,
) -> (launch: Result<Launch, RunError>)
    ensures
        final(state)@ == old(state)@.after_run(
            JobRequestView { language: lang@, program: code@, stdin: stdin@, arguments: args@ },
            now,
        ),
        match launch {
            Ok(l) => {
                &&& old(state)@.run_error() is None
                &&& l.retire == old(state)@.teardown()
                &&& l.payload.ab_init@ == old(state)@.mt->0.ab_init->0
                &&& l.payload.ab_wasm@ == old(state)@.mt->0.ab_wasm->0
            },
            Err(e) => old(state)@.run_error() == Some(e),
        },
        old(state)@.wf() ==> final(state)@.wf(),
{
    match state.thread_state {
        ThreadState::Ready => {},
        _ => {
            return Err(RunError::NotReady);
        },
    }
    let made = match &state.mt {
        Some(mt) => mt.thread(),
        None => {
            return Err(RunError::NotReady);
        },
    };
    let mut thread = match made {
        Ok(thread) => thread,
        Err(e) => {
            return Err(RunError::Package(e));
        },
    };
    let payload = match thread.init() {
        Ok(payload) => payload,
        Err(_) => {
            return Err(RunError::NotReady);
        },
    };
    let retire = reset(state);
    reset_all_flags(state);
    state.thread = Some(thread);
    state.job = Some(
        JobRequest {
            language: lang.to_owned(),
            program: code.to_owned(),
            stdin: stdin.to_owned(),
            arguments: args.to_owned(),
        },
    );
    state.start_time = now;
    state.thread_state = ThreadState::Running;
    state.output.clear();
    Ok(Launch { retire, payload })
}

/// Whether `rejection` says that a stream overflowed.
fn is_limit(rejection: &Rejection) -> (yes: bool)
    ensures
        yes == rejection@.is_limit(),
{
    match rejection {
        Rejection::StdoutLimit => true,
        Rejection::StderrLimit => true,
        _ => false,
    }
}

/// Takes note of how the worker settled its request. What comes back is the
/// task to post, where the worker has come up and a job waits for it.
#[verifier::rlimit(50)]
fn settle(state: &mut RunnerState, was_booting: bool, settled: Settlement) -> (task: Option<
    TaskMessage,
>)
    requires
        old(state)@.thread is Some,
    ensures
        final(state)@ == (RunnerView {
            thread: Some(
                ThreadStatus { booting: was_booting, ..old(state)@.thread->0 },
            ),
            ..old(state)@
        }).settled_by(settled@, old(state)@.thread->0),
        match task {
            Some(t) => {
                &&& was_booting
                &&& settled@ is Resolved
                &&& old(state)@.job matches Some(job)
                &&& old(state)@.thread->0.bridge.send_error() is None
                &&& t@ == job_task(job)
            },
            None => !(was_booting && settled@ is Resolved && old(state)@.job is Some && old(
                state,
            )@.thread->0.bridge.send_error() is None),
        },
{
    match settled {
        Settlement::Unsettled => None,
        Settlement::Resolved(_) => {
            if was_booting {
                dispatch(state)
            } else {
                state.th_finished = true;
                None
            }
        },
        Settlement::Rejected(rejection) => {
            state.job = None;
            state.th_crashed = true;
            if is_limit(&rejection) {
                state.th_overflown = true;
            }
            None
        },
    }
}

/// Sends the waiting job to the worker, which has just come up.
fn dispatch(state: &mut RunnerState) -> (task: Option<TaskMessage>)
    requires
        old(state)@.thread is Some,
    ensures
        final(state)@ == if old(state)@.job is Some {
            RunnerView {
                thread: Some(old(state)@.thread->0.after_exec()),
                job: None,
                th_crashed: old(state)@.th_crashed || old(state)@.thread->0.bridge.send_error()
                    is Some,
                ..old(state)@
            }
        } else {
            old(state)@
        },
        match task {
            Some(t) => {
                &&& old(state)@.job matches Some(job)
                &&& old(state)@.thread->0.bridge.send_error() is None
                &&& t@ == job_task(job)
            },
            None => !(old(state)@.job is Some && old(state)@.thread->0.bridge.send_error() is None),
        },
{
    match state.job.take() {
        Some(job) => {
            let mut thread = state.thread.take().unwrap();
            let sent = thread.exec_lang(
                job.language.as_str(),
                job.program.as_str(),
                job.stdin.as_str(),
                job.arguments.as_str(),
            );
            state.thread = Some(thread);
            match sent {
                Ok(task) => Some(task),
                Err(_) => {
                    state.th_crashed = true;
                    None
                },
            }
        },
        None => None,
    }
}

/// Takes in one message from the worker. A continuation adds to what the
/// worker holds; a final message, or an overflow, settles the request. What
/// comes back is the task to post next, if there is one. A continuation that
/// carries no pair of chunks is refused and changes nothing.
pub fn on_message(state: &mut RunnerState, msg: ResultMessage) -> (task: Result<
    Option<TaskMessage>,
    MalformedChunk,
>)
    ensures
        final(state)@ == old(state)@.after_message(msg@),
        match task {
            Ok(Some(t)) => {
                &&& !(old(state)@.thread matches Some(thread) && thread.bridge.malformed(msg@))
                &&& old(state)@.task_on_message(msg@) == Some(t@)
            },
            Ok(None) => {
                &&& !(old(state)@.thread matches Some(thread) && thread.bridge.malformed(msg@))
                &&& old(state)@.task_on_message(msg@) is None
            },
            Err(_) => old(state)@.thread matches Some(thread) && thread.bridge.malformed(msg@),
        },
        old(state)@.wf() ==> final(state)@.wf(),
{
    proof {
        if old(state)@.wf() {
            supervisor_stays_well_formed(old(state)@, arbitrary(), msg@, 0);
        }
    }
    match state.thread.take() {
        Some(mut thread) => {
            let was_booting = thread.is_booting();
            let settled = thread.on_message(msg);
            state.thread = Some(thread);
            match settled {
                Ok(s) => Ok(settle(state, was_booting, s)),
                Err(e) => Err(e),
            }
        },
        None => Ok(None),
    }
}

/// Takes note that the worker stopped without a message. A job that was
/// running has crashed. What comes back is the task to post next, if there is
/// one.
pub fn on_error(state: &mut RunnerState) -> (task: Option<TaskMessage>)
    ensures
        final(state)@ == old(state)@.after_error(),
        match task {
            Some(t) => old(state)@.task_on_error() == Some(t@),
            None => old(state)@.task_on_error() is None,
        },
        old(state)@.wf() ==> final(state)@.wf(),
{
    proof {
        if old(state)@.wf() {
            supervisor_stays_well_formed(old(state)@, arbitrary(), arbitrary(), 0);
        }
    }
    match state.thread.take() {
        Some(mut thread) => {
            let was_booting = thread.is_booting();
            let settled = thread.on_error();
            state.thread = Some(thread);
            settle(state, was_booting, settled)
        },
        None => None,
    }
}

/// Looks at the state of things at the time `now`. See
/// `RunnerView::after_update` for what changes, and `RunnerView::update` for
/// what the look finds.
#[verifier::rlimit(50)]
pub fn update_state(state: &mut RunnerState, now: u64) -> (update: Update)
    ensures
        final(state)@ == old(state)@.after_update(),
        update == old(state)@.update(now),
        old(state)@.wf() ==> final(state)@.wf(),
{
    match state.thread_state {
        ThreadState::NotReady => {
            if poll_mt_init(state) {
                state.thread_state = ThreadState::Ready;
            }
            Update {
                completion: None,
                teardown: Teardown { reject_pending: false, destroy_worker: false },
            }
        },
        ThreadState::Ready => Update {
            completion: None,
            teardown: Teardown { reject_pending: false, destroy_worker: false },
        },
        ThreadState::Running => {
            let finished = get_th_finished(state);
            let (out, err) = take_result_from_thread(state);
            let overflow = state.output.append(out.as_slice(), err.as_slice());
            let overflown = overflow.any() || state.th_overflown;
            let teardown = if overflown {
                reset(state)
            } else {
                Teardown { reject_pending: false, destroy_worker: false }
            };
            let crashed = get_th_crashed(state) || overflown;
            state.th_overflown = false;
            let completion = if crashed || finished {
                state.thread_state = ThreadState::Ready;
                Some(
                    Completion {
                        outcome: if overflown {
                            Outcome::OutputLimitExceeded
                        } else if crashed {
                            Outcome::Crashed
                        } else {
                            Outcome::Finished
                        },
                        elapsed: get_elapsed_time(state, now),
                    },
                )
            } else {
                None
            };
            Update { completion, teardown }
        },
    }
}

/// Stops the running job at the time `now`: its worker is torn down and the
/// supervisor is ready for the next job. Where no job is running, nothing
/// happens.
pub fn stop(state: &mut RunnerState, now: u64) -> (update: Update)
    ensures
        final(state)@ == old(state)@.after_stop(),
        update == old(state)@.stop(now),
        old(state)@.wf() ==> final(state)@.wf(),
{
    match state.thread_state {
        ThreadState::Running => {
            state.thread_state = ThreadState::Ready;
            let elapsed = get_elapsed_time(state, now);
            let teardown = reset(state);
            Update { completion: Some(Completion { outcome: Outcome::Aborted, elapsed }), teardown }
        },
        _ => Update {
            completion: None,
            teardown: Teardown { reject_pending: false, destroy_worker: false },
        },
    }
}

/// No operation takes the supervisor out of its well-formed states. In
/// particular, what it has collected never grows over `OUT_LIMIT` on either
/// stream.
#[verifier::rlimit(50)]
pub proof fn supervisor_stays_well_formed(
    state: RunnerView,
    job: JobRequestView,
    msg: ResultMessageView,
    now: u64,
)
    requires
        state.wf(),
    ensures
        RunnerView::fresh().wf(),
        state.after_poll_mt_init().wf(),
        state.after_reset_all_flags().wf(),
        state.after_take_result().wf(),
        state.after_reset().wf(),
        state.after_run(job, now).wf(),
        state.after_message(msg).wf(),
        state.after_error().wf(),
        state.after_update().wf(),
        state.after_stop().wf(),
{
    if let Some(thread) = state.thread {
        crate::threading::thread::thread_stays_well_formed(thread, msg);
    }
}

/// A job leaves the running state only by ending or by being stopped.
/// Messages and crashes change what a later look will find, not the state;
/// and a look leaves a job running exactly as long as it finds no end.
pub proof fn running_until_ended(state: RunnerView, msg: ResultMessageView)
    requires
        state.thread_state is Running,
    ensures
        state.after_message(msg).thread_state is Running,
        state.after_error().thread_state is Running,
        state.after_take_result().thread_state is Running,
        state.after_update().thread_state is Running <==> state.ending() is None,
        state.after_update().thread_state is Ready <==> state.ending() is Some,
{
}

/// A look loses nothing. Where what the worker holds fits into the streams,
/// the look adds all of it to what was collected, in order, and leaves the
/// worker with nothing.
pub proof fn update_collects_everything(state: RunnerView)
    requires
        state.thread_state is Running,
        !overflows(state.output.stdout, state.pending_output().stdout),
        !overflows(state.output.stderr, state.pending_output().stderr),
    ensures
        state.after_update().output.stdout == state.output.stdout + state.pending_output().stdout,
        state.after_update().output.stderr == state.output.stderr + state.pending_output().stderr,
        state.after_update().pending_output() == Streams::empty(),
{
}

/// A job that overflows ends as over the limit. What was collected is cut to
/// the limit, and where it was standard output that did not fit here, that
/// stream holds exactly `OUT_LIMIT` bytes. The worker is torn down and let
/// go, and the supervisor is ready: with a package that workers can be made
/// from, the next job starts on a worker of its own.
pub proof fn overflow_ends_job(state: RunnerView, now: u64, next: JobRequestView, then: u64)
    requires
        state.wf(),
        state.thread_state is Running,
        state.overflown(),
    ensures
        state.update(now).completion == Some(
            Completion {
                outcome: Outcome::OutputLimitExceeded,
                elapsed: elapsed_between(state.start_time, now),
            },
        ),
        state.update(now).teardown == state.teardown(),
        state.after_update().output.within_limit(),
        overflows(state.output.stdout, state.pending_output().stdout)
            ==> state.after_update().output.stdout.len() == OUT_LIMIT,
        state.after_update().thread is None,
        state.after_update().thread_state is Ready,
        (state.mt matches Some(mt) && mt.thread_error() is None) ==> {
            &&& state.after_update().run_error() is None
            &&& state.after_update().after_run(next, then).thread_state is Running
            &&& state.after_update().after_run(next, then).thread == Some(
                ThreadStatus::fresh(state.mt->0.ab_init->0, state.mt->0.ab_wasm->0).after_init(),
            )
            &&& state.after_update().after_run(next, then).output == Streams::empty()
        },
{
}

/// Stopping a running job always leaves the supervisor ready. The worker is
/// torn down and let go; a request that was pending on it is rejected, never
/// left open. With a package that workers can be made from, the next job
/// starts.
pub proof fn stop_makes_ready(state: RunnerView, now: u64, next: JobRequestView, then: u64)
    requires
        state.thread_state is Running,
    ensures
        state.after_stop().thread_state is Ready,
        state.after_stop().thread is None,
        state.stop(now).completion == Some(
            Completion { outcome: Outcome::Aborted, elapsed: elapsed_between(state.start_time, now) },
        ),
        state.stop(now).teardown == state.teardown(),
        (state.thread matches Some(thread) && !thread.bridge.terminated) ==> {
            &&& state.stop(now).teardown.destroy_worker
            &&& state.stop(now).teardown.reject_pending == state.thread->0.bridge.pending
        },
        (state.mt matches Some(mt) && mt.thread_error() is None) ==> {
            &&& state.after_stop().run_error() is None
            &&& state.after_stop().after_run(next, then).thread_state is Running
        },
{
}

/// Stopping twice is the same as stopping once: the second time changes
/// nothing, reports nothing and asks nothing of the caller. The same holds of
/// tearing the worker down.
pub proof fn stop_is_idempotent(state: RunnerView, now: u64, then: u64)
    ensures
        state.after_stop().after_stop() == state.after_stop(),
        state.thread_state is Running ==> state.after_stop().stop(then) == (Update {
            completion: None,
            teardown: no_teardown(),
        }),
        state.after_reset().after_reset() == state.after_reset(),
        state.after_reset().teardown() == no_teardown(),
{
}

/// A job is sent to its worker exactly when the worker has come up: the
/// final success of the request that brings it up posts the task of the
/// waiting job, and nothing else does.
pub proof fn job_follows_bootstrap(state: RunnerView, msg: ResultMessageView)
    requires
        state.wf(),
        state.thread matches Some(thread) && thread.booting,
        state.job is Some,
        !msg.cont,
        msg.is_ok,
    ensures
        state.task_on_message(msg) == Some(job_task(state.job->0)),
        state.after_message(msg).job is None,
        state.after_message(msg).thread matches Some(thread) && thread.initialized
            && thread.bridge.pending && !thread.booting,
        state.after_message(msg).th_crashed == state.th_crashed,
{
}

/// A worker that cannot be brought up fails the job. Where the request that
/// brings the worker up fails, or the worker stops without a message, no
/// task is posted and the waiting job is dropped; the next look reports the
/// job as crashed and leaves the supervisor ready.
pub proof fn failed_bootstrap_fails_job(state: RunnerView, msg: ResultMessageView, now: u64)
    requires
        state.wf(),
        state.thread_state is Running,
        state.thread matches Some(thread) && thread.booting,
        !state.overflown(),
        !msg.cont,
        !msg.is_ok,
    ensures
        state.task_on_message(msg) is None,
        state.after_message(msg).job is None,
        state.after_message(msg).update(now).completion == Some(
            Completion { outcome: Outcome::Crashed, elapsed: elapsed_between(state.start_time, now) },
        ),
        state.after_message(msg).after_update().thread_state is Ready,
        state.task_on_error() is None,
        state.after_error().job is None,
        state.after_error().update(now).completion == Some(
            Completion { outcome: Outcome::Crashed, elapsed: elapsed_between(state.start_time, now) },
        ),
        state.after_error().after_update().thread_state is Ready,
{
}

/// Whether `state` is what a job that was just sent as `start` has come to
/// while nothing but writes arrived: still running, no end noted, and its
/// worker up with a request pending.
pub open spec fn still_writing(start: RunnerView, state: RunnerView) -> bool {
    &&& state.thread_state is Running
    &&& state.job is None
    &&& !state.th_finished
    &&& !state.th_crashed
    &&& !state.th_overflown
    &&& state.start_time == start.start_time
    &&& state.thread matches Some(thread)
    &&& !thread.booting
    &&& thread.bridge.pending
    &&& !thread.bridge.terminated
}

/// However the looks fall between the messages, nothing is lost and nothing
/// is reordered. Take a job that was just sent to its worker, that makes the
/// writes `writes`, and that stays within the limit of each stream; and take
/// any run of events in which exactly the messages of those writes arrive,
/// with any number of looks before, between and after them. Then the job is
/// still running, and what was collected followed by what the worker holds
/// is exactly what was written, one write after the other.
#[verifier::rlimit(50)]
pub proof fn looks_lose_nothing(state: RunnerView, writes: Seq<Signal>, events: Seq<Event>)
    requires
        state.job_just_sent(),
        all_writes(writes),
        written_out(writes).len() <= OUT_LIMIT,
        written_err(writes).len() <= OUT_LIMIT,
        messages_in(events) == messages_of(writes),
    ensures
        still_writing(state, state.after_events(events)),
        state.after_events(events).thread_state is Running,
        state.after_events(events).stdout_so_far() == written_out(writes),
        state.after_events(events).stderr_so_far() == written_err(writes),
    decreases events.len(),
{
    crate::threading::job::writes_arrive_in_order(writes);
    if events.len() == 0 {
        assert(writes.len() == 0) by {
            crate::threading::job::one_final_message(writes);
        }
        assert(state.stdout_so_far() =~= written_out(writes));
        assert(state.stderr_so_far() =~= written_err(writes));
    } else {
        let earlier = events.drop_last();
        let before = state.after_events(earlier);
        match events.last() {
            Event::Look => {
                looks_lose_nothing(state, writes, earlier);
                assert(before.after_update().stdout_so_far() =~= before.stdout_so_far());
                assert(before.after_update().stderr_so_far() =~= before.stderr_so_far());
            },
            Event::Message(msg) => {
                crate::threading::job::one_final_message(writes);
                assert(writes.len() > 0);
                let fewer = writes.drop_last();
                assert(all_writes(fewer)) by {
                    assert forall|i: int| 0 <= i < fewer.len() implies #[trigger] fewer[i]
                        is Write by {
                        assert(writes[i] is Write);
                    }
                }
                assert(writes.last() is Write);
                crate::threading::job::writes_arrive_in_order(fewer);
                assert(messages_of(writes) =~= messages_of(fewer).push(
                    messages_for(writes.last())[0],
                ));
                assert(messages_in(earlier) =~= messages_in(events).drop_last());
                assert(messages_in(earlier) =~= messages_of(fewer));
                assert(msg == messages_in(events).last());
                looks_lose_nothing(state, fewer, earlier);
                let thread = before.thread->0;
                assert(before.stdout_so_far().len() + encode_utf8(writes.last()->out).len()
                    <= OUT_LIMIT);
                assert(before.stderr_so_far().len() + encode_utf8(writes.last()->err).len()
                    <= OUT_LIMIT);
                assert(before.after_message(msg).stdout_so_far() =~= before.stdout_so_far()
                    + encode_utf8(writes.last()->out));
                assert(before.after_message(msg).stderr_so_far() =~= before.stderr_so_far()
                    + encode_utf8(writes.last()->err));
            },
        }
    }
}

/// The job counts as ended only after all that it wrote has been seen. In
/// the situation of `looks_lose_nothing`, let the final message of a normal
/// end arrive after the events. The next look collects what the worker still
/// holds: after it, what was collected is exactly what the job wrote, the
/// job is reported as finished, and the supervisor is ready.
pub proof fn job_ends_after_its_output(
    state: RunnerView,
    writes: Seq<Signal>,
    events: Seq<Event>,
    now: u64,
)
    requires
        state.job_just_sent(),
        all_writes(writes),
        written_out(writes).len() <= OUT_LIMIT,
        written_err(writes).len() <= OUT_LIMIT,
        messages_in(events) == messages_of(writes),
    ensures
        ({
            let ended = state.after_events(events).after_message(success());
            &&& ended.thread_state is Running
            &&& ended.update(now).completion == Some(
                Completion {
                    outcome: Outcome::Finished,
                    elapsed: elapsed_between(state.start_time, now),
                },
            )
            &&& ended.after_update().thread_state is Ready
            &&& ended.after_update().output.stdout == written_out(writes)
            &&& ended.after_update().output.stderr == written_err(writes)
        }),
{
    looks_lose_nothing(state, writes, events);
}

/// What the first `k` of `writes` write to standard output is the start of
/// what all of them write.
proof fn earlier_writes_come_first(writes: Seq<Signal>, k: int)
    requires
        0 <= k <= writes.len(),
    ensures
        written_out(writes.take(k)).len() <= written_out(writes).len(),
        written_out(writes).take(written_out(writes.take(k)).len() as int) == written_out(
            writes.take(k),
        ),
        written_err(writes.take(k)).len() <= written_err(writes).len(),
    decreases writes.len(),
{
    if k == writes.len() {
        assert(writes.take(k) =~= writes);
        assert(written_out(writes).take(written_out(writes).len() as int) =~= written_out(writes));
    } else {
        let fewer = writes.drop_last();
        earlier_writes_come_first(fewer, k);
        assert(fewer.take(k) =~= writes.take(k));
        assert(written_out(writes).take(written_out(writes.take(k)).len() as int)
            =~= written_out(fewer).take(written_out(writes.take(k)).len() as int));
    }
}

/// Where a job that overflows standard output can stand while `w`, the
/// first of the writes `all`, have arrived: still writing, with nothing lost
/// so far; or failed at the bridge, with the worker's stream full; or found
/// out, with exactly the first `OUT_LIMIT` bytes collected.
pub open spec fn overflowing(start: RunnerView, state: RunnerView, w: Seq<Signal>, all: Seq<Signal>) -> bool {
    let cut = written_out(all).take(OUT_LIMIT as int);
    ||| {
        &&& still_writing(start, state)
        &&& state.wf()
        &&& state.stdout_so_far() == written_out(w)
        &&& state.stderr_so_far() == written_err(w)
    }
    ||| {
        &&& state.thread_state is Running
        &&& state.wf()
        &&& state.th_overflown
        &&& state.start_time == start.start_time
        &&& state.thread matches Some(thread)
        &&& !thread.booting
        &&& !thread.bridge.pending
        &&& thread.bridge.streams.stdout.len() == OUT_LIMIT
        &&& state.stdout_so_far().take(OUT_LIMIT as int) == cut
    }
    ||| {
        &&& state.thread_state is Ready
        &&& state.thread is None
        &&& state.output.stdout == cut
    }
}

/// A look keeps a job that overflows standard output in one of the three
/// situations of `overflowing`, and reports it as over the limit if it
/// reports it at all.
#[verifier::rlimit(50)]
proof fn look_keeps_course(
    start: RunnerView,
    before: RunnerView,
    w: Seq<Signal>,
    all: Seq<Signal>,
    now: u64,
)
    requires
        overflowing(start, before, w, all),
        written_out(all).len() > OUT_LIMIT,
        written_out(w).len() <= written_out(all).len(),
        written_out(all).take(written_out(w).len() as int) == written_out(w),
        written_err(w).len() <= OUT_LIMIT,
    ensures
        overflowing(start, before.after_update(), w, all),
        before.update(now).completion matches Some(c) ==> c.outcome
            == Outcome::OutputLimitExceeded,
{
    let cut = written_out(all).take(OUT_LIMIT as int);
    let after = before.after_update();
    if before.thread_state is Running {
        let out = before.output.stdout;
        let held = before.pending_output().stdout;
        if still_writing(start, before) && before.stdout_so_far() == written_out(w) {
            if before.overflown() {
                assert(overflows(out, held));
                assert(after.output.stdout =~= (out + held).take(OUT_LIMIT as int));
                assert((out + held).take(OUT_LIMIT as int) =~= cut);
            } else {
                assert(after.stdout_so_far() =~= before.stdout_so_far());
                assert(after.stderr_so_far() =~= before.stderr_so_far());
            }
        } else {
            if overflows(out, held) {
                assert(after.output.stdout =~= (out + held).take(OUT_LIMIT as int));
            } else {
                assert(out.len() == 0);
                assert(after.output.stdout =~= (out + held).take(OUT_LIMIT as int));
            }
        }
    }
}

/// The message of one more write keeps a job that overflows standard output
/// in one of the three situations of `overflowing`.
#[verifier::rlimit(50)]
proof fn write_keeps_course(
    start: RunnerView,
    before: RunnerView,
    w: Seq<Signal>,
    all: Seq<Signal>,
)
    requires
        w.len() > 0,
        w.last() is Write,
        overflowing(start, before, w.drop_last(), all),
        written_out(all).len() > OUT_LIMIT,
        written_out(w).len() <= written_out(all).len(),
        written_out(all).take(written_out(w).len() as int) == written_out(w),
        written_err(w).len() <= OUT_LIMIT,
    ensures
        overflowing(
            start,
            before.after_message(chunk(w.last()->out, w.last()->err)),
            w,
            all,
        ),
{
    let cut = written_out(all).take(OUT_LIMIT as int);
    let fewer = w.drop_last();
    let msg = chunk(w.last()->out, w.last()->err);
    let after = before.after_message(msg);
    let chunk_out = encode_utf8(w.last()->out);
    let chunk_err = encode_utf8(w.last()->err);
    assert(written_out(w) =~= written_out(fewer) + chunk_out);
    assert(written_err(w) =~= written_err(fewer) + chunk_err);
    if still_writing(start, before) && before.stdout_so_far() == written_out(fewer) {
        let held = before.pending_output().stdout;
        assert(!overflows(before.pending_output().stderr, chunk_err));
        if overflows(held, chunk_out) {
            let room = OUT_LIMIT - held.len();
            assert(after.pending_output().stdout =~= held + chunk_out.take(room));
            assert(after.stdout_so_far().take(OUT_LIMIT as int) =~= written_out(w).take(
                OUT_LIMIT as int,
            ));
            assert(written_out(w).take(OUT_LIMIT as int) =~= cut);
        } else {
            assert(after.stdout_so_far() =~= before.stdout_so_far() + chunk_out);
            assert(after.stderr_so_far() =~= before.stderr_so_far() + chunk_err);
        }
    }
}

/// A job that writes more to standard output than a stream may hold stays in
/// one of the three situations of `overflowing`, however the looks fall
/// between its messages; and no look reports it as finished or as crashed.
#[verifier::rlimit(50)]
proof fn overflow_takes_its_course(
    state: RunnerView,
    writes: Seq<Signal>,
    k: int,
    events: Seq<Event>,
    now: u64,
)
    requires
        state.job_just_sent(),
        all_writes(writes),
        written_out(writes).len() > OUT_LIMIT,
        written_err(writes).len() <= OUT_LIMIT,
        0 <= k <= writes.len(),
        messages_in(events) == messages_of(writes.take(k)),
    ensures
        overflowing(state, state.after_events(events), writes.take(k), writes),
        state.after_events(events).update(now).completion matches Some(c) ==> c.outcome
            == Outcome::OutputLimitExceeded,
    decreases events.len(),
{
    let w = writes.take(k);
    assert(all_writes(w)) by {
        assert forall|i: int| 0 <= i < w.len() implies #[trigger] w[i] is Write by {
            assert(writes[i] is Write);
        }
    }
    crate::threading::job::writes_end_nothing(w);
    earlier_writes_come_first(writes, k);
    if events.len() == 0 {
        assert(w.len() == 0);
        assert(state.stdout_so_far() =~= written_out(w));
        assert(state.stderr_so_far() =~= written_err(w));
    } else {
        let earlier = events.drop_last();
        let before = state.after_events(earlier);
        match events.last() {
            Event::Look => {
                overflow_takes_its_course(state, writes, k, earlier, now);
                look_keeps_course(state, before, w, writes, now);
            },
            Event::Message(msg) => {
                assert(w.len() > 0);
                assert(w.drop_last() =~= writes.take(k - 1));
                assert(messages_in(earlier) =~= messages_in(events).drop_last());
                assert(messages_of(w).drop_last() =~= messages_of(w.drop_last()));
                assert(msg == messages_in(events).last());
                assert(msg == chunk(w.last()->out, w.last()->err));
                overflow_takes_its_course(state, writes, k - 1, earlier, now);
                write_keeps_course(state, before, w, writes);
            },
        }
        look_keeps_course(state, state.after_events(events), w, writes, now);
    }
}

/// A job that writes more to standard output than a stream may hold is
/// always found out. Take a job that was just sent to its worker, whose
/// writes `writes` are more than `OUT_LIMIT` bytes on standard output (and
/// within the limit on standard error); and take any run of events in which
/// the messages of those writes arrive, with any number of looks before,
/// between and after them. Then no look reports the job as finished or as
/// crashed; and after one more look the supervisor is ready, the worker is
/// gone, and what was collected from standard output is exactly the first
/// `OUT_LIMIT` bytes of what the job wrote, never more.
#[verifier::rlimit(50)]
pub proof fn overflow_is_always_found(
    state: RunnerView,
    writes: Seq<Signal>,
    events: Seq<Event>,
    now: u64,
)
    requires
        state.job_just_sent(),
        all_writes(writes),
        written_out(writes).len() > OUT_LIMIT,
        written_err(writes).len() <= OUT_LIMIT,
        messages_in(events) == messages_of(writes),
    ensures
        forall|n: int|
            0 <= n <= events.len() ==> (#[trigger] state.after_events(events.take(n)).update(
                now,
            ).completion matches Some(c) ==> c.outcome == Outcome::OutputLimitExceeded),
        state.after_events(events).after_update().thread_state is Ready,
        state.after_events(events).after_update().thread is None,
        state.after_events(events).after_update().output.stdout == written_out(writes).take(
            OUT_LIMIT as int,
        ),
        state.after_events(events).after_update().output.stdout.len() == OUT_LIMIT,
{
    assert(writes.take(writes.len() as int) =~= writes);
    let closing = events.push(Event::Look);
    assert(closing.drop_last() =~= events);
    assert(messages_in(closing) == messages_in(events));
    overflow_takes_its_course(state, writes, writes.len() as int, closing, now);
    overflow_takes_its_course(state, writes, writes.len() as int, events, now);
    let end = state.after_events(events);
    assert(state.after_events(closing) == end.after_update());
    if end.thread_state is Running {
        assert(end.overflown());
    }
    assert forall|n: int| 0 <= n <= events.len() implies (#[trigger] state.after_events(
        events.take(n),
    ).update(now).completion matches Some(c) ==> c.outcome == Outcome::OutputLimitExceeded) by {
        messages_of_a_start(writes, events, n);
        let k = choose|k: int|
            0 <= k <= writes.len() && messages_in(events.take(n)) == messages_of(writes.take(k));
        overflow_takes_its_course(state, writes, k, events.take(n), now);
    }
}

/// The messages among the first `n` of `events` are those of the first so
/// many writes.
#[verifier::rlimit(50)]
proof fn messages_of_a_start(writes: Seq<Signal>, events: Seq<Event>, n: int)
    requires
        all_writes(writes),
        messages_in(events) == messages_of(writes),
        0 <= n <= events.len(),
    ensures
        exists|k: int|
            0 <= k <= writes.len() && messages_in(events.take(n)) == messages_of(writes.take(k)),
    decreases events.len() - n,
{
    if n == events.len() {
        assert(events.take(n) =~= events);
        assert(writes.take(writes.len() as int) =~= writes);
    } else {
        messages_of_a_start(writes, events, n + 1);
        let k = choose|k: int|
            0 <= k <= writes.len() && messages_in(events.take(n + 1)) == messages_of(
                writes.take(k),
            );
        let longer = events.take(n + 1);
        assert(longer.drop_last() =~= events.take(n));
        match longer.last() {
            Event::Look => {
                assert(messages_in(events.take(n)) == messages_of(writes.take(k)));
            },
            Event::Message(msg) => {
                let w = writes.take(k);
                assert(all_writes(w)) by {
                    assert forall|i: int| 0 <= i < w.len() implies #[trigger] w[i] is Write by {
                        assert(writes[i] is Write);
                    }
                }
                crate::threading::job::writes_end_nothing(w);
                assert(k > 0);
                assert(w.drop_last() =~= writes.take(k - 1));
                assert(messages_in(events.take(n)) =~= messages_in(longer).drop_last());
                assert(messages_in(events.take(n)) == messages_of(writes.take(k - 1)));
            },
        }
    }
}

} // verus!
