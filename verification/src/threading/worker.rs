//! The worker's side: the greeting it sends once it is up, and the one entry
//! point for what the host posts to it.

use vstd::prelude::*;
use super::atw::{MessagePort, Payload, PayloadView, ResultMessageView, ThreadWorker};
use super::job::{messages_of, run_job_lang};
use super::{decode_task_msg, TaskMessage, TaskMessageView};
use crate::lang::{job_signals, STEP_LIMIT};
use crate::text::str_eq;

verus! {

/// The name of the one task a worker runs.
pub const JOB_LANG: &'static str = "job-lang";

/// What a worker says once it is up.
pub const BOOTSTRAP_COMPLETE: &'static str = "bootstrap COMPLETE";

/// Why a task message was not run.
#[derive(Debug, PartialEq, Eq)]
pub enum DispatchError {
    /// The task goes by a name that the worker does not know.
    UnknownTask(String),
    /// The task is a job, but the message carries none.
    MissingJob,
}

/// A `DispatchError` as plain text.
pub enum DispatchErrorView {
    UnknownTask(Seq<char>),
    MissingJob,
}

impl View for DispatchError {
    type V = DispatchErrorView;

    open spec fn view(&self) -> DispatchErrorView {
        match self {
            DispatchError::UnknownTask(name) => DispatchErrorView::UnknownTask(name@),
            DispatchError::MissingJob => DispatchErrorView::MissingJob,
        }
    }
}

/// What is wrong with the task message `msg`, if anything.
pub open spec fn dispatch_error(msg: TaskMessageView) -> Option<DispatchErrorView> {
    if msg.task != JOB_LANG@ {
        Some(DispatchErrorView::UnknownTask(msg.task))
    } else if msg.data is None {
        Some(DispatchErrorView::MissingJob)
    } else {
        None
    }
}

/// Says why a worker cannot run `task_msg`, if it cannot.
pub fn refusal(task_msg: &TaskMessage) -> (refused: Option<DispatchError>)
    ensures
        match refused {
            Some(e) => dispatch_error(task_msg@) == Some(e@),
            None => dispatch_error(task_msg@) is None,
        },
{
    if !str_eq(task_msg.task.as_str(), JOB_LANG) {
        Some(DispatchError::UnknownTask(task_msg.task.clone()))
    } else if task_msg.data.is_none() {
        Some(DispatchError::MissingJob)
    } else {
        None
    }
}

/// The greeting: a final success that carries `BOOTSTRAP_COMPLETE`.
pub open spec fn greeting() -> ResultMessageView {
    ResultMessageView {
        payload: PayloadView::Text(BOOTSTRAP_COMPLETE@),
        is_ok: true,
        cont: false,
    }
}

/// A worker that is up and waits for tasks.
pub struct Worker<P: MessagePort> {
    atw_thw: ThreadWorker<P>,
}

impl<P: MessagePort> Worker<P> {
    /// What the worker has posted since it came up or since its last task
    /// began, whichever was later.
    pub closed spec fn posted(&self) -> Seq<ResultMessageView> {
        self.atw_thw.posted()
    }

    /// The port that the worker posts on, as it is now.
    pub closed spec fn port(&self) -> P {
        self.atw_thw.port()
    }

    /// A worker on the port `wgs`.
    pub fn new(wgs: P) -> (worker: Self)
        ensures
            worker.port() == wgs,
            worker.posted() == Seq::<ResultMessageView>::empty(),
    {
        Worker { atw_thw: ThreadWorker::new(wgs) }
    }

    /// Runs the task that `task_msg` names. The only task there is runs a
    /// job: its messages are posted as the job produces them, and the worker
    /// comes back when the job is over. A task by any other name, and a job
    /// task that carries no job, mean that host and worker do not fit
    /// together; there is nothing to run then, and the worker is not to be
    /// asked. `refusal` tells.
    pub fn on_request_inner(self, task_msg: TaskMessage) -> (worker: Self)
        requires
            dispatch_error(task_msg@) is None,
        ensures
            worker.posted() == messages_of(
                job_signals(
                    task_msg.data->0.language@,
                    task_msg.data->0.program@,
                    task_msg.data->0.stdin@,
                    task_msg.data->0.arguments@,
                    STEP_LIMIT as nat,
                ),
            ),
    {
        let (_name, data) = decode_task_msg(task_msg);
        let job = data.unwrap();
        Worker { atw_thw: run_job_lang(&job, self.atw_thw) }
    }

    /// Gives the port back, as the messages posted on it have left it.
    pub fn into_port(self) -> (port: P)
        ensures
            port == self.port(),
    {
        self.atw_thw.into_port()
    }
}

/// Brings a worker up on the port `wgs` and greets the host.
pub fn wmt_bootstrap<P: MessagePort>(wgs: P) -> (worker: Worker<P>)
    ensures
        worker.posted() == seq![greeting()],
{
    let mut worker = Worker::new(wgs);
    worker.atw_thw.send_response(Payload::Text(BOOTSTRAP_COMPLETE.to_owned()), false);
    assert(worker.posted() =~= seq![greeting()]);
    worker
}

} // verus!
