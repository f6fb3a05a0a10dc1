//! The bridge to one isolated worker, as a state machine. The host side
//! (`Thread`) keeps the pending request and the two bounded output streams;
//! the worker side (`ThreadWorker`) hands each message to its port at once.
//! Whoever owns the real channel feeds in what arrives and carries out what
//! comes back.

use vstd::prelude::*;
use vstd::utf8::encode_utf8;
use super::accumulator::{appended, overflows, StreamAccumulator, Streams};
use super::OUT_LIMIT;

verus! {

/// What a message carries: a pair of output chunks, or a single text.
#[derive(Debug, PartialEq, Eq)]
pub enum Payload {
    Streams { out: String, err: String },
    Text(String),
}

/// A `Payload` as plain text.
pub enum PayloadView {
    Streams { out: Seq<char>, err: Seq<char> },
    Text(Seq<char>),
}

impl View for Payload {
    type V = PayloadView;

    open spec fn view(&self) -> PayloadView {
        match self {
            Payload::Streams { out, err } => PayloadView::Streams { out: out@, err: err@ },
            Payload::Text(text) => PayloadView::Text(text@),
        }
    }
}

/// The one unit that crosses from the worker to the host. `cont` says that
/// more messages follow for the same request; a message without it is final.
#[derive(Debug, PartialEq, Eq)]
pub struct ResultMessage {
    pub payload: Payload,
    pub is_ok: bool,
    pub cont: bool,
}

/// A `ResultMessage` as plain values.
pub struct ResultMessageView {
    pub payload: PayloadView,
    pub is_ok: bool,
    pub cont: bool,
}

impl View for ResultMessage {
    type V = ResultMessageView;

    open spec fn view(&self) -> ResultMessageView {
        ResultMessageView { payload: self.payload@, is_ok: self.is_ok, cont: self.cont }
    }
}

/// Puts a result, its verdict and its continuation flag into one message.
pub fn atw_encode_result_msg(result: Payload, is_ok: bool, cont: bool) -> (msg: ResultMessage)
    ensures
        msg.payload == result,
        msg.is_ok == is_ok,
        msg.cont == cont,
{
    ResultMessage { payload: result, is_ok, cont }
}

/// Takes a message apart into its result, its verdict and its continuation flag.
pub fn atw_decode_result_msg(msg: ResultMessage) -> (parts: (Payload, bool, bool))
    ensures
        parts.0 == msg.payload,
        parts.1 == msg.is_ok,
        parts.2 == msg.cont,
{
    (msg.payload, msg.is_ok, msg.cont)
}

/// The messages of `msgs`, each as plain values.
pub open spec fn views_of(msgs: Seq<ResultMessage>) -> Seq<ResultMessageView> {
    msgs.map_values(|m: ResultMessage| m@)
}

/// The channel from the worker to the host, as whoever owns the real one
/// implements it.
///
/// `taken` is all that the port was handed so far, oldest first; a post adds
/// its message and leaves the earlier ones alone. A port that is written in
/// ordinary Rust cannot say what `taken` is, and does not have to: for it the
/// contract is the promise that every message handed to it is on its way, in
/// the order in which it came.
pub trait MessagePort: Sized {
    /// The messages handed to this port so far, oldest first.
    open spec fn taken(&self) -> Seq<ResultMessageView> {
        arbitrary()
    }

    /// Takes one message for the host.
    fn post_message(&mut self, msg: ResultMessage)
        ensures
            final(self).taken() == old(self).taken().push(msg@),
    ;
}

/// A port that keeps what it takes, for a job that runs where its messages
/// are read.
pub struct Outbox {
    msgs: Vec<ResultMessage>,
}

impl Outbox {
    /// A port that has taken nothing.
    pub fn new() -> (port: Outbox)
        ensures
            port.taken() == Seq::<ResultMessageView>::empty(),
    {
        let port = Outbox { msgs: Vec::new() };
        assert(port.taken() =~= Seq::<ResultMessageView>::empty());
        port
    }

    /// Gives up what the port has taken, oldest first.
    pub fn into_messages(self) -> (msgs: Vec<ResultMessage>)
        ensures
            views_of(msgs@) == self.taken(),
    {
        self.msgs
    }
}

impl MessagePort for Outbox {
    closed spec fn taken(&self) -> Seq<ResultMessageView> {
        views_of(self.msgs@)
    }

    fn post_message(&mut self, msg: ResultMessage) {
        proof {
            self.msgs@.lemma_push_map_commute(|m: ResultMessage| m@, msg);
        }
        self.msgs.push(msg);
    }
}

/// The worker's end of the bridge. Every message is handed to the port at
/// once. What the worker end has posted is what its port has taken since the
/// worker end was made.
pub struct ThreadWorker<P: MessagePort> {
    wgs: P,
    start: Ghost<nat>,
}

impl<P: MessagePort> ThreadWorker<P> {
    /// The port that this worker end posts on, as it is now.
    pub closed spec fn port(&self) -> P {
        self.wgs
    }

    /// The messages that this worker end has handed to its port, oldest
    /// first: what the port has taken since the worker end was made.
    pub closed spec fn posted(&self) -> Seq<ResultMessageView> {
        if self.start@ <= self.wgs.taken().len() {
            self.wgs.taken().skip(self.start@ as int)
        } else {
            Seq::empty()
        }
    }

    /// A worker end on the port `wgs` that has posted nothing yet.
    pub fn new(wgs: P) -> (worker: Self)
        ensures
            worker.port() == wgs,
            worker.posted() == Seq::<ResultMessageView>::empty(),
    {
        let worker = ThreadWorker { start: Ghost(wgs.taken().len()), wgs };
        assert(worker.posted() =~= Seq::<ResultMessageView>::empty());
        worker
    }

    /// Hands `msg` to the port.
    fn post(&mut self, msg: ResultMessage)
        ensures
            final(self).posted() == old(self).posted().push(msg@),
    {
        let ghost before = self.wgs.taken();
        self.start = Ghost(
            if self.start@ > before.len() {
                before.len()
            } else {
                self.start@
            },
        );
        self.wgs.post_message(msg);
        assert(self.posted() =~= old(self).posted().push(msg@));
    }

    /// Posts a successful message; `cont` says whether more will follow.
    pub fn send_response(&mut self, payload: Payload, cont: bool)
        ensures
            final(self).posted() == old(self).posted().push(
                ResultMessageView { payload: payload@, is_ok: true, cont },
            ),
    {
        self.post(atw_encode_result_msg(payload, true, cont));
    }

    /// Posts a failure. A failure is always final.
    pub fn send_error(&mut self, error: Payload)
        ensures
            final(self).posted() == old(self).posted().push(
                ResultMessageView { payload: error@, is_ok: false, cont: false },
            ),
    {
        self.post(atw_encode_result_msg(error, false, false));
    }

    /// Gives the port back, as the messages posted on it have left it.
    pub fn into_port(self) -> (port: P)
        ensures
            port == self.port(),
    {
        self.wgs
    }
}

/// What a worker end has posted is the last of what its port has taken.
pub proof fn posted_is_taken<P: MessagePort>(worker: ThreadWorker<P>)
    ensures
        worker.posted().len() <= worker.port().taken().len(),
        worker.port().taken().skip(worker.port().taken().len() - worker.posted().len())
            == worker.posted(),
{
    let taken = worker.port().taken();
    if worker.start@ > taken.len() {
        assert(taken.skip(taken.len() as int) =~= Seq::<ResultMessageView>::empty());
    }
}

/// Why a request failed.
#[derive(Debug, PartialEq, Eq)]
pub enum Rejection {
    /// The worker itself reported a failure, with this payload.
    Worker(Payload),
    /// The job wrote more to standard output than a stream may hold.
    StdoutLimit,
    /// The job wrote more to standard error than a stream may hold.
    StderrLimit,
    /// The bridge was torn down while the request was pending.
    Canceled,
    /// The worker stopped without saying anything.
    Crashed,
}

/// A `Rejection` as plain values.
pub enum RejectionView {
    Worker(PayloadView),
    StdoutLimit,
    StderrLimit,
    Canceled,
    Crashed,
}

impl View for Rejection {
    type V = RejectionView;

    open spec fn view(&self) -> RejectionView {
        match self {
            Rejection::Worker(payload) => RejectionView::Worker(payload@),
            Rejection::StdoutLimit => RejectionView::StdoutLimit,
            Rejection::StderrLimit => RejectionView::StderrLimit,
            Rejection::Canceled => RejectionView::Canceled,
            Rejection::Crashed => RejectionView::Crashed,
        }
    }
}

impl RejectionView {
    /// Whether the request failed because a stream overflowed.
    pub open spec fn is_limit(self) -> bool {
        self is StdoutLimit || self is StderrLimit
    }

    /// The text that goes with a failure the bridge itself found; a failure
    /// that the worker reported brings its own.
    pub open spec fn reason(self) -> Option<Seq<char>> {
        match self {
            RejectionView::Worker(_) => None,
            RejectionView::StdoutLimit => Some("Stdout limit exceeded"@),
            RejectionView::StderrLimit => Some("Stderr limit exceeded"@),
            RejectionView::Canceled => Some("Thread: last req canceled"@),
            RejectionView::Crashed => Some("Thread: worker terminated unexpectedly"@),
        }
    }
}

impl Rejection {
    /// The text that goes with this failure, if the bridge itself found it.
    pub fn reason(&self) -> (text: Option<&'static str>)
        ensures
            match text {
                Some(t) => self@.reason() == Some(t@),
                None => self@.reason() is None,
            },
    {
        match self {
            Rejection::Worker(_) => None,
            Rejection::StdoutLimit => Some("Stdout limit exceeded"),
            Rejection::StderrLimit => Some("Stderr limit exceeded"),
            Rejection::Canceled => Some("Thread: last req canceled"),
            Rejection::Crashed => Some("Thread: worker terminated unexpectedly"),
        }
    }
}

/// What an event did to the pending request.
#[derive(Debug, PartialEq, Eq)]
pub enum Settlement {
    /// Nothing: the request is still pending, or there was none.
    Unsettled,
    /// The request succeeded with this payload.
    Resolved(Payload),
    /// The request failed.
    Rejected(Rejection),
}

/// A `Settlement` as plain values.
pub enum SettlementView {
    Unsettled,
    Resolved(PayloadView),
    Rejected(RejectionView),
}

impl View for Settlement {
    type V = SettlementView;

    open spec fn view(&self) -> SettlementView {
        match self {
            Settlement::Unsettled => SettlementView::Unsettled,
            Settlement::Resolved(payload) => SettlementView::Resolved(payload@),
            Settlement::Rejected(rejection) => SettlementView::Rejected(rejection@),
        }
    }
}

/// Why a request could not be sent.
#[derive(Clone, Copy, Debug, PartialEq, Eq, Structural)]
pub enum SendError {
    /// The bridge was torn down before.
    AlreadyTerminated,
    /// An earlier request has not been settled yet.
    RequestPending,
}

impl SendError {
    /// The text that goes with this refusal.
    pub open spec fn reason_text(self) -> Seq<char> {
        match self {
            SendError::AlreadyTerminated => "worker already terminated"@,
            SendError::RequestPending => "Thread: last req still pending"@,
        }
    }

    /// The text that goes with this refusal.
    pub fn reason(&self) -> (text: &'static str)
        ensures
            text@ == self.reason_text(),
    {
        match self {
            SendError::AlreadyTerminated => "worker already terminated",
            SendError::RequestPending => "Thread: last req still pending",
        }
    }
}

/// A continuation message whose payload is not a pair of output chunks.
#[derive(Clone, Copy, Debug, PartialEq, Eq, Structural)]
pub struct MalformedChunk;

/// What tearing the bridge down asks of whoever owns the worker.
#[derive(Clone, Copy, Debug, PartialEq, Eq, Structural)]
pub struct Teardown {
    /// The pending request has to be rejected as canceled.
    pub reject_pending: bool,
    /// The worker has to be destroyed.
    pub destroy_worker: bool,
}

impl Teardown {
    /// How the pending request fails where it has to be rejected: as
    /// canceled.
    pub fn rejection(&self) -> (rejection: Option<Rejection>)
        ensures
            match rejection {
                Some(r) => self.reject_pending && r@ == RejectionView::Canceled,
                None => !self.reject_pending,
            },
    {
        if self.reject_pending {
            Some(Rejection::Canceled)
        } else {
            None
        }
    }
}

/// The host's end of the bridge as plain values.
pub struct ThreadView {
    /// The bridge was torn down; it takes no more requests.
    pub terminated: bool,
    /// A request is waiting for its final message.
    pub pending: bool,
    /// What the pending or last request has written and nobody has collected.
    pub streams: Streams,
}

impl ThreadView {
    /// A bridge that has seen nothing yet.
    pub open spec fn fresh() -> ThreadView {
        ThreadView { terminated: false, pending: false, streams: Streams::empty() }
    }

    /// The streams are within their limit, and a bridge that was torn down
    /// has no request pending.
    pub open spec fn wf(self) -> bool {
        self.streams.within_limit() && (self.terminated ==> !self.pending)
    }

    /// Why a request cannot be sent now, if it cannot.
    pub open spec fn send_error(self) -> Option<SendError> {
        if self.terminated {
            Some(SendError::AlreadyTerminated)
        } else if self.pending {
            Some(SendError::RequestPending)
        } else {
            None
        }
    }

    /// The bridge after an attempt to send a request: where it can be sent, it
    /// is now pending and both streams start empty.
    pub open spec fn after_send(self) -> ThreadView {
        if self.send_error() is None {
            ThreadView { terminated: false, pending: true, streams: Streams::empty() }
        } else {
            self
        }
    }

    /// Whether `msg` is a continuation for the pending request that does not
    /// carry a pair of chunks.
    pub open spec fn malformed(self, msg: ResultMessageView) -> bool {
        self.pending && msg.cont && !(msg.payload is Streams)
    }

    /// Whether the chunks of `msg`, a continuation for the pending request,
    /// are more than the streams can take.
    pub open spec fn overflown_by(self, msg: ResultMessageView) -> bool {
        &&& self.pending
        &&& msg.cont
        &&& msg.payload matches PayloadView::Streams { out, err }
        &&& (overflows(self.streams.stdout, encode_utf8(out)) || overflows(
            self.streams.stderr,
            encode_utf8(err),
        ))
    }

    /// The bridge after `msg` arrives. Without a pending request the message
    /// is ignored. A continuation adds its chunks to the streams, and ends the
    /// request if one of them did not fit. A final message ends the request.
    pub open spec fn after_message(self, msg: ResultMessageView) -> ThreadView {
        if !self.pending {
            self
        } else if msg.cont {
            match msg.payload {
                PayloadView::Streams { out, err } => ThreadView {
                    terminated: self.terminated,
                    pending: !self.overflown_by(msg),
                    streams: self.streams.received(encode_utf8(out), encode_utf8(err)),
                },
                PayloadView::Text(_) => self,
            }
        } else {
            ThreadView { terminated: self.terminated, pending: false, streams: self.streams }
        }
    }

    /// The bridge after the messages `msgs` arrive, one after the other.
    pub open spec fn after_messages(self, msgs: Seq<ResultMessageView>) -> ThreadView
        decreases msgs.len(),
    {
        if msgs.len() == 0 {
            self
        } else {
            self.after_messages(msgs.drop_last()).after_message(msgs.last())
        }
    }

    /// What the arrival of `msg` means for the pending request.
    pub open spec fn settlement(self, msg: ResultMessageView) -> SettlementView {
        if !self.pending {
            SettlementView::Unsettled
        } else if msg.cont {
            match msg.payload {
                PayloadView::Streams { out, err } => {
                    if overflows(self.streams.stdout, encode_utf8(out)) {
                        SettlementView::Rejected(RejectionView::StdoutLimit)
                    } else if overflows(self.streams.stderr, encode_utf8(err)) {
                        SettlementView::Rejected(RejectionView::StderrLimit)
                    } else {
                        SettlementView::Unsettled
                    }
                },
                PayloadView::Text(_) => SettlementView::Unsettled,
            }
        } else if msg.is_ok {
            SettlementView::Resolved(msg.payload)
        } else {
            SettlementView::Rejected(RejectionView::Worker(msg.payload))
        }
    }

    /// The bridge after the worker stopped without a message.
    pub open spec fn after_crash(self) -> ThreadView {
        ThreadView { terminated: self.terminated, pending: false, streams: self.streams }
    }

    /// The bridge after it was torn down. Tearing it down again changes
    /// nothing.
    pub open spec fn after_terminate(self) -> ThreadView {
        if self.terminated {
            self
        } else {
            ThreadView { terminated: true, pending: false, streams: self.streams }
        }
    }

    /// What tearing the bridge down asks for: nothing if it was torn down
    /// before; else the worker goes, and with it the pending request.
    pub open spec fn teardown(self) -> Teardown {
        Teardown { reject_pending: !self.terminated && self.pending, destroy_worker: !self.terminated }
    }
}

/// The host's end of the bridge to one worker.
pub struct Thread {
    resrej: bool,
    messages: StreamAccumulator,
    is_terminated: bool,
}

impl View for Thread {
    type V = ThreadView;

    closed spec fn view(&self) -> ThreadView {
        ThreadView { terminated: self.is_terminated, pending: self.resrej, streams: self.messages@ }
    }
}

impl Thread {
    /// The bridge to a worker that was just created.
    pub fn new() -> (thread: Thread)
        ensures
            thread@ == ThreadView::fresh(),
    {
        Thread { resrej: false, messages: StreamAccumulator::new(), is_terminated: false }
    }

    /// Whether the bridge was torn down.
    pub fn is_terminated(&self) -> (yes: bool)
        ensures
            yes == self@.terminated,
    {
        self.is_terminated
    }

    /// Whether a request is waiting for its final message.
    pub fn is_pending(&self) -> (yes: bool)
        ensures
            yes == self@.pending,
    {
        self.resrej
    }

    /// Registers a new request. It is refused on a bridge that was torn down
    /// and while an earlier request is pending. Otherwise the request is now
    /// pending, both streams are empty, and the caller posts the payload.
    pub fn send_request(&mut self) -> (sent: Result<(), SendError>)
        ensures
            final(self)@ == old(self)@.after_send(),
            match sent {
                Ok(_) => old(self)@.send_error() is None,
                Err(e) => old(self)@.send_error() == Some(e),
            },
            old(self)@.wf() ==> final(self)@.wf(),
    {
        if self.is_terminated {
            return Err(SendError::AlreadyTerminated);
        }
        if self.resrej {
            return Err(SendError::RequestPending);
        }
        self.resrej = true;
        self.messages.clear();
        Ok(())
    }

    /// Takes in one message from the worker and says what it means for the
    /// pending request. A continuation that carries no pair of chunks is
    /// refused and changes nothing.
    pub fn on_message(&mut self, msg: ResultMessage) -> (settled: Result<Settlement, MalformedChunk>)
        ensures
            final(self)@ == old(self)@.after_message(msg@),
            match settled {
                Ok(s) => !old(self)@.malformed(msg@) && s@ == old(self)@.settlement(msg@),
                Err(_) => old(self)@.malformed(msg@),
            },
            old(self)@.wf() ==> final(self)@.wf(),
    {
        if !self.resrej {
            return Ok(Settlement::Unsettled);
        }
        let (result, is_ok, cont) = atw_decode_result_msg(msg);
        if cont {
            match result {
                Payload::Streams { out, err } => {
                    let overflow = self.messages.append(out.as_str().as_bytes(), err.as_str().as_bytes());
                    if overflow.stdout {
                        self.resrej = false;
                        Ok(Settlement::Rejected(Rejection::StdoutLimit))
                    } else if overflow.stderr {
                        self.resrej = false;
                        Ok(Settlement::Rejected(Rejection::StderrLimit))
                    } else {
                        Ok(Settlement::Unsettled)
                    }
                },
                Payload::Text(_) => Err(MalformedChunk),
            }
        } else {
            self.resrej = false;
            if is_ok {
                Ok(Settlement::Resolved(result))
            } else {
                Ok(Settlement::Rejected(Rejection::Worker(result)))
            }
        }
    }

    /// Takes note that the worker stopped without a message. A pending
    /// request fails as crashed.
    pub fn on_error(&mut self) -> (settled: Settlement)
        ensures
            final(self)@ == old(self)@.after_crash(),
            settled@ == if old(self)@.pending {
                SettlementView::Rejected(RejectionView::Crashed)
            } else {
                SettlementView::Unsettled
            },
            old(self)@.wf() ==> final(self)@.wf(),
    {
        if self.resrej {
            self.resrej = false;
            Settlement::Rejected(Rejection::Crashed)
        } else {
            Settlement::Unsettled
        }
    }

    /// Tears the bridge down and says what that asks of the caller. A second
    /// call changes nothing and asks for nothing.
    pub fn terminate(&mut self) -> (todo: Teardown)
        ensures
            final(self)@ == old(self)@.after_terminate(),
            todo == old(self)@.teardown(),
            old(self)@.wf() ==> final(self)@.wf(),
    {
        if self.is_terminated {
            Teardown { reject_pending: false, destroy_worker: false }
        } else {
            let reject_pending = self.resrej;
            self.is_terminated = true;
            self.resrej = false;
            Teardown { reject_pending, destroy_worker: true }
        }
    }

    /// Hands over what arrived on standard output since it was last
    /// collected.
    pub fn stdout(&mut self) -> (bytes: Vec<u8>)
        ensures
            bytes@ == old(self)@.streams.stdout,
            final(self)@ == (ThreadView {
                terminated: old(self)@.terminated,
                pending: old(self)@.pending,
                streams: Streams { stdout: Seq::empty(), stderr: old(self)@.streams.stderr },
            }),
    {
        self.messages.take_stdout()
    }

    /// Hands over what arrived on standard error since it was last
    /// collected.
    pub fn stderr(&mut self) -> (bytes: Vec<u8>)
        ensures
            bytes@ == old(self)@.streams.stderr,
            final(self)@ == (ThreadView {
                terminated: old(self)@.terminated,
                pending: old(self)@.pending,
                streams: Streams { stdout: old(self)@.streams.stdout, stderr: Seq::empty() },
            }),
    {
        self.messages.take_stderr()
    }
}

/// A stream that overflows is filled exactly.
pub proof fn overflow_fills_exactly(buf: Seq<u8>, chunk: Seq<u8>)
    requires
        buf.len() <= OUT_LIMIT,
        overflows(buf, chunk),
    ensures
        appended(buf, chunk).len() == OUT_LIMIT,
        appended(buf, chunk) == buf + chunk.take(OUT_LIMIT - buf.len()),
{
}

/// No operation takes a bridge out of its well-formed states: neither stream
/// grows over `OUT_LIMIT`, and a bridge that was torn down has nothing
/// pending.
pub proof fn bridge_stays_well_formed(bridge: ThreadView, msg: ResultMessageView)
    requires
        bridge.wf(),
    ensures
        bridge.after_send().wf(),
        bridge.after_message(msg).wf(),
        bridge.after_crash().wf(),
        bridge.after_terminate().wf(),
{
}

/// A continuation that brings more standard output than the stream can take
/// fills the stream to exactly `OUT_LIMIT` bytes with the start of the chunk,
/// fails the request as over the limit, and leaves nothing pending: whatever
/// arrives afterwards is ignored.
pub proof fn stdout_overflow_fails_request(
    bridge: ThreadView,
    out: Seq<char>,
    err: Seq<char>,
    later: ResultMessageView,
)
    requires
        bridge.wf(),
        bridge.pending,
        overflows(bridge.streams.stdout, encode_utf8(out)),
    ensures
        ({
            let msg = ResultMessageView {
                payload: PayloadView::Streams { out, err },
                is_ok: true,
                cont: true,
            };
            let after = bridge.after_message(msg);
            &&& after.streams.stdout.len() == OUT_LIMIT
            &&& after.streams.stdout == bridge.streams.stdout + encode_utf8(out).take(
                OUT_LIMIT - bridge.streams.stdout.len(),
            )
            &&& after.streams.stderr.len() <= OUT_LIMIT
            &&& bridge.settlement(msg) == SettlementView::Rejected(RejectionView::StdoutLimit)
            &&& !after.pending
            &&& after.after_message(later) == after
            &&& after.settlement(later) == SettlementView::Unsettled
        }),
{
}

/// Tearing a bridge down twice is the same as tearing it down once, and the
/// second time asks nothing of the caller.
pub proof fn terminate_is_idempotent(bridge: ThreadView)
    ensures
        bridge.after_terminate().after_terminate() == bridge.after_terminate(),
        bridge.after_terminate().teardown() == (Teardown {
            reject_pending: false,
            destroy_worker: false,
        }),
{
}

/// Tearing a bridge down rejects the request that is pending, if there is
/// one, and leaves none pending; no request can be sent on it afterwards.
pub proof fn terminate_rejects_pending(bridge: ThreadView)
    requires
        !bridge.terminated,
    ensures
        bridge.teardown().reject_pending == bridge.pending,
        bridge.teardown().destroy_worker,
        !bridge.after_terminate().pending,
        bridge.after_terminate().send_error() == Some(SendError::AlreadyTerminated),
        bridge.after_terminate().after_send() == bridge.after_terminate(),
{
}

/// A worker that stops without a message fails the pending request as
/// crashed, and leaves none pending.
pub proof fn crash_rejects_pending(bridge: ThreadView)
    ensures
        !bridge.after_crash().pending,
        bridge.after_crash().after_crash() == bridge.after_crash(),
{
}

} // verus!
