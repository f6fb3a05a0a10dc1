//! The job runner's writer: it turns every call of an interpreter into a
//! message and posts it at once, and sees to it that a job has one final
//! message and nothing after it.

use vstd::prelude::*;
use vstd::utf8::encode_utf8;
use super::accumulator::Streams;
use super::atw::{
    MessagePort, Payload, PayloadView, ResultMessageView, SettlementView, ThreadView, ThreadWorker,
};
use super::{JobRequest, OUT_LIMIT};
use crate::lang::{
    interpret2, job_signals, unknown_lang_text, Lang, LangWriter, Signal, STEP_LIMIT,
};

verus! {

/// Whether one of `signals` ends the job.
pub open spec fn ended(signals: Seq<Signal>) -> bool
    decreases signals.len(),
{
    signals.len() > 0 && (ended(signals.drop_last()) || signals.last().is_terminal())
}

/// The continuation that carries `out` for standard output and `err` for
/// standard error.
pub open spec fn chunk(out: Seq<char>, err: Seq<char>) -> ResultMessageView {
    ResultMessageView { payload: PayloadView::Streams { out, err }, is_ok: true, cont: true }
}

/// The final message of a job that ran to its end: a success with two empty
/// chunks.
pub open spec fn success() -> ResultMessageView {
    ResultMessageView {
        payload: PayloadView::Streams { out: Seq::empty(), err: Seq::empty() },
        is_ok: true,
        cont: false,
    }
}

/// The final message of a job that was stopped by the error `msg`: a failure
/// that carries the text.
pub open spec fn failure(msg: Seq<char>) -> ResultMessageView {
    ResultMessageView { payload: PayloadView::Text(msg), is_ok: false, cont: false }
}

/// The messages that stand for `signal`. Output goes out as a continuation.
/// The normal end is a final success. A fatal error goes out twice: as a
/// chunk for standard error, so that it shows up with the rest of the output,
/// and as the final failure.
pub open spec fn messages_for(signal: Signal) -> Seq<ResultMessageView> {
    match signal {
        Signal::Write { out, err } => seq![chunk(out, err)],
        Signal::Terminate => seq![success()],
        Signal::TerminateWithError { msg } => seq![chunk(Seq::empty(), msg), failure(msg)],
    }
}

/// The messages that go out for `signals`: those of each, up to and with the
/// first that ends the job. What an interpreter says after that is dropped.
pub open spec fn messages_of(signals: Seq<Signal>) -> Seq<ResultMessageView>
    decreases signals.len(),
{
    if signals.len() == 0 {
        Seq::empty()
    } else if ended(signals.drop_last()) {
        messages_of(signals.drop_last())
    } else {
        messages_of(signals.drop_last()) + messages_for(signals.last())
    }
}

/// A pair of chunks, as a result that succeeded.
pub fn pass_encode(out: &str, err: &str) -> (result: Result<Payload, Payload>)
    ensures
        result matches Ok(payload) && payload@ == (PayloadView::Streams { out: out@, err: err@ }),
{
    Ok(Payload::Streams { out: out.to_owned(), err: err.to_owned() })
}

/// An error text, as a result that failed.
pub fn err_encode(err: &str) -> (result: Result<Payload, Payload>)
    ensures
        result matches Err(payload) && payload@ == PayloadView::Text(err@),
{
    Err(Payload::Text(err.to_owned()))
}

/// The message that `send_result` posts for `result`.
pub open spec fn result_message(result: Result<Payload, Payload>, cont: bool) -> ResultMessageView {
    match result {
        Ok(payload) => ResultMessageView { payload: payload@, is_ok: true, cont },
        Err(payload) => ResultMessageView { payload: payload@, is_ok: false, cont: false },
    }
}

/// Posts `result`: a success as a response that is final or not as `cont`
/// says, a failure as an error, which is always final.
pub fn send_result<P: MessagePort>(
    result: Result<Payload, Payload>,
    atw_thw: &mut ThreadWorker<P>,
    cont: bool,
)
    ensures
        final(atw_thw).posted() == old(atw_thw).posted().push(result_message(result, cont)),
{
    match result {
        Ok(ret) => atw_thw.send_response(ret, cont),
        Err(ret) => atw_thw.send_error(ret),
    }
}

/// The writer of a job that runs in a worker.
pub struct AtwThreadWriter<P: MessagePort> {
    atw_thw: ThreadWorker<P>,
    terminated: bool,
    signals: Ghost<Seq<Signal>>,
}

impl<P: MessagePort> AtwThreadWriter<P> {
    /// What this writer has posted.
    pub closed spec fn posted(&self) -> Seq<ResultMessageView> {
        self.atw_thw.posted()
    }

    /// A writer that posts on the port of `atw_thw`, for a job that has
    /// written nothing yet. The account of what is posted starts anew.
    pub fn new(atw_thw: ThreadWorker<P>) -> (writer: Self)
        ensures
            writer.inv(),
            writer.signals() == Seq::<Signal>::empty(),
            writer.posted() == Seq::<ResultMessageView>::empty(),
    {
        AtwThreadWriter {
            atw_thw: ThreadWorker::new(atw_thw.into_port()),
            terminated: false,
            signals: Ghost(Seq::empty()),
        }
    }

    /// Gives the worker end back. It has posted the messages of the job.
    pub fn into_worker(self) -> (atw_thw: ThreadWorker<P>)
        requires
            self.inv(),
        ensures
            atw_thw.posted() == messages_of(self.signals()),
    {
        self.atw_thw
    }
}

impl<P: MessagePort> LangWriter for AtwThreadWriter<P> {
    closed spec fn signals(&self) -> Seq<Signal> {
        self.signals@
    }

    closed spec fn inv(&self) -> bool {
        &&& self.terminated == ended(self.signals@)
        &&& self.atw_thw.posted() == messages_of(self.signals@)
    }

    fn write_both(&mut self, out: &str, err: &str)
        ensures
            final(self).posted() == messages_of(final(self).signals()),
    {
        let ghost signal = Signal::Write { out: out@, err: err@ };
        proof {
            assert(self.signals@.push(signal).drop_last() =~= self.signals@);
        }
        if !self.terminated {
            send_result(pass_encode(out, err), &mut self.atw_thw, true);
        }
        self.signals = Ghost(self.signals@.push(signal));
        assert(self.atw_thw.posted() =~= messages_of(self.signals@));
    }

    fn terminate(&mut self)
        ensures
            final(self).posted() == messages_of(final(self).signals()),
    {
        proof {
            assert(self.signals@.push(Signal::Terminate).drop_last() =~= self.signals@);
        }
        if !self.terminated {
            send_result(pass_encode("", ""), &mut self.atw_thw, false);
            self.terminated = true;
        }
        self.signals = Ghost(self.signals@.push(Signal::Terminate));
        proof {
            reveal_strlit("");
            assert(""@ =~= Seq::<char>::empty());
            assert(self.atw_thw.posted() =~= messages_of(self.signals@));
        }
    }

    fn terminate_with_error(&mut self, msg: &str)
        ensures
            final(self).posted() == messages_of(final(self).signals()),
    {
        let ghost signal = Signal::TerminateWithError { msg: msg@ };
        proof {
            assert(self.signals@.push(signal).drop_last() =~= self.signals@);
        }
        if !self.terminated {
            send_result(pass_encode("", msg), &mut self.atw_thw, true);
            send_result(err_encode(msg), &mut self.atw_thw, false);
            self.terminated = true;
        }
        self.signals = Ghost(self.signals@.push(signal));
        proof {
            reveal_strlit("");
            assert(""@ =~= Seq::<char>::empty());
            assert(self.atw_thw.posted() =~= messages_of(self.signals@));
        }
    }
}

/// Runs the job `job` and posts its messages on the port of `atw_thw`: a
/// continuation for each write, as it happens, and then one final message.
/// The worker end that comes back holds the account of this job.
pub fn run_job_lang<P: MessagePort>(job: &JobRequest, atw_thw: ThreadWorker<P>) -> (worker:
    ThreadWorker<P>)
    ensures
        worker.posted() == messages_of(
            job_signals(
                job.language@,
                job.program@,
                job.stdin@,
                job.arguments@,
                STEP_LIMIT as nat,
            ),
        ),
{
    let mut writer = AtwThreadWriter::new(atw_thw);
    interpret2(
        job.language.as_str(),
        job.program.as_str(),
        job.stdin.as_str(),
        job.arguments.as_str(),
        &mut writer,
    );
    assert(writer.signals() =~= job_signals(
        job.language@,
        job.program@,
        job.stdin@,
        job.arguments@,
        STEP_LIMIT as nat,
    ));
    writer.into_worker()
}

/// Whether every message of `msgs` but the last is a continuation.
pub open spec fn continues_to_last(msgs: Seq<ResultMessageView>) -> bool {
    forall|i: int| 0 <= i < msgs.len() - 1 ==> (#[trigger] msgs[i]).cont
}

/// The messages of a job are zero or more continuations and then, once the
/// job has ended, exactly one final message. Nothing follows the final
/// message, whatever the interpreter goes on to say.
pub proof fn one_final_message(signals: Seq<Signal>)
    ensures
        continues_to_last(messages_of(signals)),
        ended(signals) ==> messages_of(signals).len() > 0 && !messages_of(signals).last().cont,
        !ended(signals) ==> messages_of(signals).len() == signals.len() && forall|i: int|
            0 <= i < signals.len() ==> (#[trigger] messages_of(signals)[i]).cont,
    decreases signals.len(),
{
    if signals.len() > 0 {
        one_final_message(signals.drop_last());
    }
}

/// A job in a language that is not known posts the same three messages,
/// whatever its program, input and arguments: the error text as a chunk for
/// standard error, once as it is written and once more as the job ends, and
/// then exactly one final failure that carries the same text. The text ends
/// with the name that was asked for.
pub proof fn unknown_language_is_reported(
    lang: Seq<char>,
    pgm: Seq<char>,
    input: Seq<char>,
    args: Seq<char>,
    limit: nat,
)
    requires
        Lang::named(lang) is None,
    ensures
        job_signals(lang, pgm, input, args, limit) == seq![
            Signal::err(unknown_lang_text(lang)),
            Signal::TerminateWithError { msg: unknown_lang_text(lang) },
        ],
        messages_of(job_signals(lang, pgm, input, args, limit)) == seq![
            chunk(Seq::empty(), unknown_lang_text(lang)),
            chunk(Seq::empty(), unknown_lang_text(lang)),
            failure(unknown_lang_text(lang)),
        ],
        unknown_lang_text(lang).skip(unknown_lang_text(lang).len() - lang.len()) == lang,
{
    let text = unknown_lang_text(lang);
    let signals = job_signals(lang, pgm, input, args, limit);
    let first = seq![Signal::err(text)];
    assert(signals.drop_last() =~= first);
    assert(first.drop_last() =~= Seq::<Signal>::empty());
    assert(!ended(first.drop_last()));
    assert(messages_of(first.drop_last()) =~= Seq::<ResultMessageView>::empty());
    assert(messages_of(first) =~= seq![chunk(Seq::empty(), text)]);
    assert(!ended(first));
    assert(messages_of(signals) =~= messages_of(first) + messages_for(signals.last()));
    assert(text.skip(text.len() - lang.len()) =~= lang);
}

/// A job with the argument `-h` in a language that is known posts exactly two
/// messages, whatever its program and input: the help text of the language
/// as a chunk for standard output, and then one final success.
pub proof fn help_is_shown(
    lang: Seq<char>,
    pgm: Seq<char>,
    input: Seq<char>,
    args: Seq<char>,
    limit: nat,
)
    requires
        Lang::named(lang) is Some,
        args == "-h"@,
    ensures
        job_signals(lang, pgm, input, args, limit) == seq![
            Signal::out(Lang::named(lang)->0.help()),
            Signal::Terminate,
        ],
        messages_of(job_signals(lang, pgm, input, args, limit)) == seq![
            chunk(Lang::named(lang)->0.help(), Seq::empty()),
            success(),
        ],
{
    let help = Lang::named(lang)->0.help();
    let signals = job_signals(lang, pgm, input, args, limit);
    let first = seq![Signal::out(help)];
    assert(signals.drop_last() =~= first);
    assert(first.drop_last() =~= Seq::<Signal>::empty());
    assert(!ended(first.drop_last()));
    assert(messages_of(first.drop_last()) =~= Seq::<ResultMessageView>::empty());
    assert(messages_of(first) =~= seq![chunk(help, Seq::empty())]);
    assert(!ended(first));
    assert(messages_of(signals) =~= messages_of(first) + messages_for(signals.last()));
}

/// Every job ends: the calls that it makes on its writer hold one that ends
/// it, so its messages close with exactly one final message.
pub proof fn every_job_ends(
    lang: Seq<char>,
    pgm: Seq<char>,
    input: Seq<char>,
    args: Seq<char>,
    limit: nat,
)
    ensures
        ended(job_signals(lang, pgm, input, args, limit)),
        messages_of(job_signals(lang, pgm, input, args, limit)).len() > 0,
        !messages_of(job_signals(lang, pgm, input, args, limit)).last().cont,
        continues_to_last(messages_of(job_signals(lang, pgm, input, args, limit))),
{
    let signals = job_signals(lang, pgm, input, args, limit);
    assert(signals.len() > 0 && signals.last().is_terminal());
    one_final_message(signals);
}

/// Whether every one of `signals` is a write.
pub open spec fn all_writes(signals: Seq<Signal>) -> bool {
    forall|i: int| 0 <= i < signals.len() ==> #[trigger] signals[i] is Write
}

/// Writes alone do not end a job, and each has a message of its own.
pub proof fn writes_end_nothing(writes: Seq<Signal>)
    requires
        all_writes(writes),
    ensures
        !ended(writes),
        messages_of(writes).len() == writes.len(),
        writes.len() > 0 ==> all_writes(writes.drop_last()) && messages_of(writes) == messages_of(
            writes.drop_last(),
        ).push(chunk(writes.last()->out, writes.last()->err)),
    decreases writes.len(),
{
    if writes.len() > 0 {
        let fewer = writes.drop_last();
        assert(all_writes(fewer)) by {
            assert forall|i: int| 0 <= i < fewer.len() implies #[trigger] fewer[i] is Write by {
                assert(writes[i] is Write);
            }
        }
        assert(writes.last() is Write);
        writes_end_nothing(fewer);
        assert(messages_of(writes) =~= messages_of(fewer).push(
            chunk(writes.last()->out, writes.last()->err),
        ));
    }
}

/// The bytes that `signals` write to standard output, in the order of the
/// writes.
pub open spec fn written_out(signals: Seq<Signal>) -> Seq<u8>
    decreases signals.len(),
{
    if signals.len() == 0 {
        Seq::empty()
    } else {
        written_out(signals.drop_last()) + match signals.last() {
            Signal::Write { out, err } => encode_utf8(out),
            _ => Seq::empty(),
        }
    }
}

/// The bytes that `signals` write to standard error, in the order of the
/// writes.
pub open spec fn written_err(signals: Seq<Signal>) -> Seq<u8>
    decreases signals.len(),
{
    if signals.len() == 0 {
        Seq::empty()
    } else {
        written_err(signals.drop_last()) + match signals.last() {
            Signal::Write { out, err } => encode_utf8(err),
            _ => Seq::empty(),
        }
    }
}

/// A bridge with a request pending that holds `stdout` and `stderr`.
pub open spec fn running_with(stdout: Seq<u8>, stderr: Seq<u8>) -> ThreadView {
    ThreadView { terminated: false, pending: true, streams: Streams { stdout, stderr } }
}

/// What a job writes arrives in the order in which it was written. Where the
/// writes of a job stay within the limit of each stream, a bridge that has
/// taken in their messages holds exactly what they wrote, one write after the
/// other, and its request is still pending.
#[verifier::rlimit(50)]
pub proof fn writes_arrive_in_order(writes: Seq<Signal>)
    requires
        all_writes(writes),
        written_out(writes).len() <= OUT_LIMIT,
        written_err(writes).len() <= OUT_LIMIT,
    ensures
        !ended(writes),
        ThreadView::fresh().after_send().after_messages(messages_of(writes)) == running_with(
            written_out(writes),
            written_err(writes),
        ),
    decreases writes.len(),
{
    let start = ThreadView::fresh().after_send();
    if writes.len() == 0 {
        assert(start.after_messages(messages_of(writes)) == start);
    } else {
        let before = writes.drop_last();
        assert(all_writes(before)) by {
            assert forall|i: int| 0 <= i < before.len() implies #[trigger] before[i] is Write by {
                assert(writes[i] is Write);
            }
        }
        assert(writes.last() is Write);
        writes_arrive_in_order(before);
        let msgs = messages_of(writes);
        assert(msgs =~= messages_of(before).push(messages_for(writes.last())[0]));
        assert(msgs.drop_last() =~= messages_of(before));
    }
}

/// The request of a job is settled only after everything the job wrote has
/// arrived. Where the writes stay within the limit of each stream and the
/// job then ends normally, the bridge holds exactly what was written, and it
/// is the final message, not one before it, that resolves the request and
/// leaves nothing pending.
pub proof fn job_settles_after_its_writes(writes: Seq<Signal>)
    requires
        all_writes(writes),
        written_out(writes).len() <= OUT_LIMIT,
        written_err(writes).len() <= OUT_LIMIT,
    ensures
        ThreadView::fresh().after_send().after_messages(messages_of(writes)).pending,
        ThreadView::fresh().after_send().after_messages(
            messages_of(writes.push(Signal::Terminate)),
        ) == (ThreadView {
            pending: false,
            ..running_with(written_out(writes), written_err(writes))
        }),
        running_with(written_out(writes), written_err(writes)).settlement(success())
            == SettlementView::Resolved(success().payload),
{
    writes_arrive_in_order(writes);
    let all = writes.push(Signal::Terminate);
    assert(all.drop_last() =~= writes);
    assert(messages_of(all) =~= messages_of(writes).push(success()));
    assert(messages_of(all).drop_last() =~= messages_of(writes));
}

} // verus!
