//! One worker as the host sees it: the bridge to it, the two buffers it is
//! brought up with, and whether it is up.

use vstd::prelude::*;
use super::atw::{
    MalformedChunk, ResultMessage, ResultMessageView, SendError, Settlement, SettlementView,
    Teardown, Thread as AtwThread, ThreadView,
};
use super::worker::JOB_LANG;
use super::{encode_task_msg, JobRequest, JobRequestView, TaskMessage, TaskMessageView};

verus! {

/// What is posted to a new worker to bring it up: the glue script and the
/// compiled module.
#[derive(Debug, PartialEq, Eq)]
pub struct BootstrapPayload {
    pub ab_init: Vec<u8>,
    pub ab_wasm: Vec<u8>,
}

/// Why a worker could not be brought up.
#[derive(Clone, Copy, Debug, PartialEq, Eq, Structural)]
pub enum InitError {
    /// Its buffers were handed out before.
    BuffersTaken,
    /// The bridge refused the request.
    Bridge(SendError),
}

/// A `Thread` as plain values.
pub struct ThreadStatus {
    /// The bridge to the worker.
    pub bridge: ThreadView,
    /// The two buffers, as long as they have not been posted.
    pub buffers: Option<(Seq<u8>, Seq<u8>)>,
    /// The request that brings the worker up is pending.
    pub booting: bool,
    /// The worker answered the request that brings it up.
    pub initialized: bool,
}

impl ThreadStatus {
    /// The status of a thread that was just made from the two buffers.
    pub open spec fn fresh(ab_init: Seq<u8>, ab_wasm: Seq<u8>) -> ThreadStatus {
        ThreadStatus {
            bridge: ThreadView::fresh(),
            buffers: Some((ab_init, ab_wasm)),
            booting: false,
            initialized: false,
        }
    }

    /// The bridge is well-formed, and the worker is only being brought up
    /// while a request is pending.
    pub open spec fn wf(self) -> bool {
        self.bridge.wf() && (self.booting ==> self.bridge.pending)
    }

    /// Why the worker cannot be brought up now, if it cannot.
    pub open spec fn init_error(self) -> Option<InitError> {
        if self.buffers is None {
            Some(InitError::BuffersTaken)
        } else {
            match self.bridge.send_error() {
                Some(e) => Some(InitError::Bridge(e)),
                None => None,
            }
        }
    }

    /// The status after an attempt to bring the worker up.
    pub open spec fn after_init(self) -> ThreadStatus {
        if self.init_error() is None {
            ThreadStatus {
                bridge: self.bridge.after_send(),
                buffers: None,
                booting: true,
                initialized: self.initialized,
            }
        } else {
            self
        }
    }

    /// The status after the pending request was settled by `settled`, with
    /// the bridge now `bridge`. The worker is up once the request that brings
    /// it up has succeeded; where that request fails, the worker is neither
    /// up nor being brought up any more.
    pub open spec fn settled_by(self, settled: SettlementView, bridge: ThreadView) -> ThreadStatus {
        if self.booting && !(settled is Unsettled) {
            ThreadStatus {
                bridge,
                buffers: self.buffers,
                booting: false,
                initialized: self.initialized || settled is Resolved,
            }
        } else {
            ThreadStatus { bridge, ..self }
        }
    }

    /// The status after `msg` arrives.
    pub open spec fn after_message(self, msg: ResultMessageView) -> ThreadStatus {
        if self.bridge.malformed(msg) {
            self
        } else {
            self.settled_by(self.bridge.settlement(msg), self.bridge.after_message(msg))
        }
    }

    /// The status after the worker stopped without a message.
    pub open spec fn after_crash(self) -> ThreadStatus {
        self.settled_by(
            if self.bridge.pending {
                SettlementView::Rejected(super::atw::RejectionView::Crashed)
            } else {
                SettlementView::Unsettled
            },
            self.bridge.after_crash(),
        )
    }

    /// The status after an attempt to send a job.
    pub open spec fn after_exec(self) -> ThreadStatus {
        ThreadStatus { bridge: self.bridge.after_send(), ..self }
    }

    /// The status after the thread was torn down.
    pub open spec fn after_terminate(self) -> ThreadStatus {
        ThreadStatus {
            bridge: self.bridge.after_terminate(),
            booting: self.booting && self.bridge.terminated,
            ..self
        }
    }
}

/// The task message that asks a worker to run `job`.
pub open spec fn job_task(job: JobRequestView) -> TaskMessageView {
    TaskMessageView { task: JOB_LANG@, data: Some(job) }
}

/// One worker as the host sees it.
pub struct Thread {
    ab_init: Option<Vec<u8>>,
    ab_wasm: Option<Vec<u8>>,
    atw_th: AtwThread,
    booting: bool,
    is_initialized: bool,
}

impl View for Thread {
    type V = ThreadStatus;

    closed spec fn view(&self) -> ThreadStatus {
        ThreadStatus {
            bridge: self.atw_th@,
            buffers: match (self.ab_init, self.ab_wasm) {
                (Some(ab_init), Some(ab_wasm)) => Some((ab_init@, ab_wasm@)),
                _ => None,
            },
            booting: self.booting,
            initialized: self.is_initialized,
        }
    }
}

impl Thread {
    /// The host's side of a worker that was just created, with the two
    /// buffers that will bring it up.
    pub fn new(ab_init: Vec<u8>, ab_wasm: Vec<u8>) -> (thread: Thread)
        ensures
            thread@ == ThreadStatus::fresh(ab_init@, ab_wasm@),
    {
        Thread {
            ab_init: Some(ab_init),
            ab_wasm: Some(ab_wasm),
            atw_th: AtwThread::new(),
            booting: false,
            is_initialized: false,
        }
    }

    /// Whether the worker answered the request that brings it up.
    pub fn is_initialized(&self) -> (yes: bool)
        ensures
            yes == self@.initialized,
    {
        self.is_initialized
    }

    /// Whether the request that brings the worker up is pending.
    pub fn is_booting(&self) -> (yes: bool)
        ensures
            yes == self@.booting,
    {
        self.booting
    }

    /// Starts to bring the worker up: registers the request and hands out the
    /// two buffers, which the caller posts. This works once, on a bridge that
    /// can take a request.
    pub fn init(&mut self) -> (payload: Result<BootstrapPayload, InitError>)
        ensures
            final(self)@ == old(self)@.after_init(),
            match payload {
                Ok(p) => old(self)@.init_error() is None && old(self)@.buffers == Some(
                    (p.ab_init@, p.ab_wasm@),
                ),
                Err(e) => old(self)@.init_error() == Some(e),
            },
            old(self)@.wf() ==> final(self)@.wf(),
    {
        if self.ab_init.is_none() || self.ab_wasm.is_none() {
            return Err(InitError::BuffersTaken);
        }
        match self.atw_th.send_request() {
            Ok(_) => {},
            Err(e) => {
                return Err(InitError::Bridge(e));
            },
        }
        let ab_init = self.ab_init.take().unwrap();
        let ab_wasm = self.ab_wasm.take().unwrap();
        self.booting = true;
        Ok(BootstrapPayload { ab_init, ab_wasm })
    }

    /// Starts to bring the worker up, as `init` does, and gives the thread
    /// back with what has to be posted.
    pub fn and_init(self) -> (started: Result<(Self, BootstrapPayload), InitError>)
        ensures
            match started {
                Ok((thread, p)) => {
                    &&& self@.init_error() is None
                    &&& thread@ == self@.after_init()
                    &&& self@.buffers == Some((p.ab_init@, p.ab_wasm@))
                },
                Err(e) => self@.init_error() == Some(e),
            },
    {
        let mut thread = self;
        match thread.init() {
            Ok(payload) => Ok((thread, payload)),
            Err(e) => Err(e),
        }
    }

    /// Takes in one message from the worker.
    pub fn on_message(&mut self, msg: ResultMessage) -> (settled: Result<Settlement, MalformedChunk>)
        ensures
            final(self)@ == old(self)@.after_message(msg@),
            match settled {
                Ok(s) => !old(self)@.bridge.malformed(msg@) && s@ == old(self)@.bridge.settlement(
                    msg@,
                ),
                Err(_) => old(self)@.bridge.malformed(msg@),
            },
            old(self)@.wf() ==> final(self)@.wf(),
    {
        let settled = self.atw_th.on_message(msg);
        match &settled {
            Ok(Settlement::Resolved(_)) => {
                if self.booting {
                    self.booting = false;
                    self.is_initialized = true;
                }
            },
            Ok(Settlement::Rejected(_)) => {
                self.booting = false;
            },
            _ => {},
        }
        settled
    }

    /// Takes note that the worker stopped without a message.
    pub fn on_error(&mut self) -> (settled: Settlement)
        ensures
            final(self)@ == old(self)@.after_crash(),
            settled@ == if old(self)@.bridge.pending {
                SettlementView::Rejected(super::atw::RejectionView::Crashed)
            } else {
                SettlementView::Unsettled
            },
            old(self)@.wf() ==> final(self)@.wf(),
    {
        let settled = self.atw_th.on_error();
        match &settled {
            Settlement::Rejected(_) => {
                self.booting = false;
            },
            _ => {},
        }
        settled
    }

    /// Registers a job as the new request and gives the task message that the
    /// caller posts to the worker.
    pub fn exec_lang(&mut self, lang: &str, pgm: &str, input: &str, args: &str) -> (task: Result<
        TaskMessage,
        SendError,
    >)
        ensures
            final(self)@ == old(self)@.after_exec(),
            match task {
                Ok(msg) => old(self)@.bridge.send_error() is None && msg@ == job_task(
                    JobRequestView { language: lang@, program: pgm@, stdin: input@, arguments: args@ },
                ),
                Err(e) => old(self)@.bridge.send_error() == Some(e),
            },
            old(self)@.wf() ==> final(self)@.wf(),
    {
        match self.atw_th.send_request() {
            Ok(_) => {},
            Err(e) => {
                return Err(e);
            },
        }
        let data = JobRequest {
            language: lang.to_owned(),
            program: pgm.to_owned(),
            stdin: input.to_owned(),
            arguments: args.to_owned(),
        };
        Ok(encode_task_msg(JOB_LANG, Some(data)))
    }

    /// Tears the bridge down and says what that asks of the caller.
    pub fn terminate(&mut self) -> (todo: Teardown)
        ensures
            final(self)@ == old(self)@.after_terminate(),
            todo == old(self)@.bridge.teardown(),
            old(self)@.wf() ==> final(self)@.wf(),
    {
        let todo = self.atw_th.terminate();
        if todo.destroy_worker {
            self.booting = false;
        }
        todo
    }

    /// Hands over what arrived on standard output since it was last
    /// collected.
    pub fn stdout(&mut self) -> (bytes: Vec<u8>)
        ensures
            bytes@ == old(self)@.bridge.streams.stdout,
            final(self)@ == (ThreadStatus {
                bridge: ThreadView {
                    streams: super::accumulator::Streams {
                        stdout: Seq::empty(),
                        stderr: old(self)@.bridge.streams.stderr,
                    },
                    ..old(self)@.bridge
                },
                ..old(self)@
            }),
    {
        self.atw_th.stdout()
    }

    /// Hands over what arrived on standard error since it was last
    /// collected.
    pub fn stderr(&mut self) -> (bytes: Vec<u8>)
        ensures
            bytes@ == old(self)@.bridge.streams.stderr,
            final(self)@ == (ThreadStatus {
                bridge: ThreadView {
                    streams: super::accumulator::Streams {
                        stdout: old(self)@.bridge.streams.stdout,
                        stderr: Seq::empty(),
                    },
                    ..old(self)@.bridge
                },
                ..old(self)@
            }),
    {
        self.atw_th.stderr()
    }
}

/// No operation takes a thread out of its well-formed states.
pub proof fn thread_stays_well_formed(thread: ThreadStatus, msg: ResultMessageView)
    requires
        thread.wf(),
    ensures
        thread.after_init().wf(),
        thread.after_message(msg).wf(),
        thread.after_crash().wf(),
        thread.after_exec().wf(),
        thread.after_terminate().wf(),
{
}

} // verus!
