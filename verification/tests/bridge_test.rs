use try_in_browser::threading::accumulator::{Overflow, StreamAccumulator};
use try_in_browser::threading::atw::{
    atw_decode_result_msg, atw_encode_result_msg, MalformedChunk, Payload, Rejection,
    ResultMessage, SendError, Settlement, Teardown, Thread,
};
use try_in_browser::threading::OUT_LIMIT;

fn chunk(out: &str, err: &str) -> ResultMessage {
    atw_encode_result_msg(
        Payload::Streams {
            out: out.to_string(),
            err: err.to_string(),
        },
        true,
        true,
    )
}

fn success() -> ResultMessage {
    atw_encode_result_msg(
        Payload::Streams {
            out: String::new(),
            err: String::new(),
        },
        true,
        false,
    )
}

fn failure(text: &str) -> ResultMessage {
    atw_encode_result_msg(Payload::Text(text.to_string()), false, false)
}

const NOTHING: Teardown = Teardown {
    reject_pending: false,
    destroy_worker: false,
};

#[test]
fn out_limit_is_128_kib() {
    assert_eq!(OUT_LIMIT, 131072);
}

#[test]
fn result_message_round_trip() {
    let msg = atw_encode_result_msg(Payload::Text("x".to_string()), false, true);
    assert_eq!(
        msg,
        ResultMessage {
            payload: Payload::Text("x".to_string()),
            is_ok: false,
            cont: true
        }
    );
    assert_eq!(
        atw_decode_result_msg(msg),
        (Payload::Text("x".to_string()), false, true)
    );
}

#[test]
fn accumulator_appends_and_drains() {
    let mut acc = StreamAccumulator::new();
    let overflow = acc.append(b"ab", b"1");
    assert_eq!(
        overflow,
        Overflow {
            stdout: false,
            stderr: false
        }
    );
    assert!(!overflow.any());
    acc.append(b"cd", b"");
    assert_eq!(acc.stdout(), b"abcd");
    assert_eq!(acc.stderr(), b"1");
    assert_eq!(acc.take_stdout(), b"abcd".to_vec());
    assert_eq!(acc.stdout(), b"");
    assert_eq!(acc.stderr(), b"1");
    assert_eq!(acc.take_stderr(), b"1".to_vec());
    acc.append(b"x", b"y");
    acc.clear();
    assert_eq!(acc.stdout(), b"");
    assert_eq!(acc.stderr(), b"");
}

#[test]
fn accumulator_cuts_at_the_limit() {
    let mut acc = StreamAccumulator::new();
    let first = vec![b'a'; OUT_LIMIT - 3];
    assert!(!acc.append(&first, b"").any());
    let overflow = acc.append(b"bcdef", b"e");
    assert_eq!(
        overflow,
        Overflow {
            stdout: true,
            stderr: false
        }
    );
    assert!(overflow.any());
    assert_eq!(acc.stdout().len(), OUT_LIMIT);
    assert_eq!(&acc.stdout()[OUT_LIMIT - 3..], b"bcd");
    assert_eq!(acc.stderr(), b"e");
    // A full stream takes nothing more, and an empty chunk always fits.
    let overflow = acc.append(b"z", b"");
    assert!(overflow.stdout);
    assert_eq!(acc.stdout().len(), OUT_LIMIT);
    let overflow = acc.append(b"", b"");
    assert!(!overflow.any());
    // Exactly filling a stream is no overflow.
    let mut acc = StreamAccumulator::new();
    let all = vec![b'x'; OUT_LIMIT];
    assert!(!acc.append(b"", &all).any());
    assert_eq!(acc.stderr().len(), OUT_LIMIT);
}

#[test]
fn bridge_streams_in_order_and_settles_last() {
    let mut thread = Thread::new();
    assert!(!thread.is_pending());
    assert_eq!(thread.send_request(), Ok(()));
    assert!(thread.is_pending());
    assert_eq!(thread.on_message(chunk("W1", "e1")), Ok(Settlement::Unsettled));
    assert!(thread.is_pending());
    assert_eq!(thread.on_message(chunk("W2", "")), Ok(Settlement::Unsettled));
    assert_eq!(thread.on_message(chunk("", "e3")), Ok(Settlement::Unsettled));
    assert_eq!(thread.on_message(chunk("W4", "e4")), Ok(Settlement::Unsettled));
    assert!(thread.is_pending());
    assert_eq!(
        thread.on_message(success()),
        Ok(Settlement::Resolved(Payload::Streams {
            out: String::new(),
            err: String::new()
        }))
    );
    assert!(!thread.is_pending());
    assert_eq!(thread.stdout(), b"W1W2W4".to_vec());
    assert_eq!(thread.stderr(), b"e1e3e4".to_vec());
    assert_eq!(thread.stdout(), b"".to_vec());
}

#[test]
fn bridge_can_be_drained_between_messages() {
    let mut thread = Thread::new();
    thread.send_request().unwrap();
    thread.on_message(chunk("ab", "1")).unwrap();
    assert_eq!(thread.stdout(), b"ab".to_vec());
    thread.on_message(chunk("cd", "2")).unwrap();
    assert_eq!(thread.stdout(), b"cd".to_vec());
    assert_eq!(thread.stderr(), b"12".to_vec());
}

#[test]
fn bridge_counts_bytes_not_characters() {
    let mut thread = Thread::new();
    thread.send_request().unwrap();
    thread.on_message(chunk("\u{e9}", "\u{20ac}")).unwrap();
    assert_eq!(thread.stdout(), vec![0xc3, 0xa9]);
    assert_eq!(thread.stderr(), vec![0xe2, 0x82, 0xac]);
}

#[test]
fn bridge_failure_rejects_with_the_payload() {
    let mut thread = Thread::new();
    thread.send_request().unwrap();
    thread.on_message(chunk("partial", "")).unwrap();
    assert_eq!(
        thread.on_message(failure("boom")),
        Ok(Settlement::Rejected(Rejection::Worker(Payload::Text(
            "boom".to_string()
        ))))
    );
    assert!(!thread.is_pending());
    assert_eq!(thread.stdout(), b"partial".to_vec());
}

#[test]
fn bridge_ignores_messages_without_a_request() {
    let mut thread = Thread::new();
    assert_eq!(thread.on_message(chunk("x", "y")), Ok(Settlement::Unsettled));
    assert_eq!(thread.on_message(success()), Ok(Settlement::Unsettled));
    assert_eq!(
        thread.on_message(atw_encode_result_msg(
            Payload::Text("odd".to_string()),
            true,
            true
        )),
        Ok(Settlement::Unsettled)
    );
    assert_eq!(thread.stdout(), b"".to_vec());
    thread.send_request().unwrap();
    thread.on_message(success()).unwrap();
    // The request is settled: what arrives now belongs to nothing.
    assert_eq!(thread.on_message(chunk("late", "")), Ok(Settlement::Unsettled));
    assert_eq!(thread.on_message(failure("late")), Ok(Settlement::Unsettled));
    assert_eq!(thread.stdout(), b"".to_vec());
}

#[test]
fn bridge_refuses_malformed_continuation() {
    let mut thread = Thread::new();
    thread.send_request().unwrap();
    thread.on_message(chunk("a", "")).unwrap();
    assert_eq!(
        thread.on_message(atw_encode_result_msg(
            Payload::Text("odd".to_string()),
            true,
            true
        )),
        Err(MalformedChunk)
    );
    assert!(thread.is_pending());
    assert_eq!(thread.stdout(), b"a".to_vec());
}

#[test]
fn bridge_stdout_overflow_rejects_at_exactly_the_limit() {
    let mut thread = Thread::new();
    thread.send_request().unwrap();
    let big = "a".repeat(OUT_LIMIT - 1);
    assert_eq!(thread.on_message(chunk(&big, "")), Ok(Settlement::Unsettled));
    assert_eq!(
        thread.on_message(chunk("bcd", "e")),
        Ok(Settlement::Rejected(Rejection::StdoutLimit))
    );
    assert!(!thread.is_pending());
    // Later messages of the job are ignored.
    assert_eq!(thread.on_message(chunk("more", "more")), Ok(Settlement::Unsettled));
    assert_eq!(thread.on_message(success()), Ok(Settlement::Unsettled));
    let stdout = thread.stdout();
    assert_eq!(stdout.len(), OUT_LIMIT);
    assert_eq!(stdout[OUT_LIMIT - 1], b'b');
    assert_eq!(thread.stderr(), b"e".to_vec());
}

#[test]
fn bridge_stderr_overflow_rejects() {
    let mut thread = Thread::new();
    thread.send_request().unwrap();
    let big = "e".repeat(OUT_LIMIT + 1);
    assert_eq!(
        thread.on_message(chunk("fine", &big)),
        Ok(Settlement::Rejected(Rejection::StderrLimit))
    );
    assert_eq!(thread.stderr().len(), OUT_LIMIT);
    assert_eq!(thread.stdout(), b"fine".to_vec());
}

#[test]
fn bridge_overflow_of_both_streams_reports_stdout() {
    let mut thread = Thread::new();
    thread.send_request().unwrap();
    let big = "x".repeat(OUT_LIMIT + 5);
    assert_eq!(
        thread.on_message(chunk(&big, &big)),
        Ok(Settlement::Rejected(Rejection::StdoutLimit))
    );
    assert_eq!(thread.stdout().len(), OUT_LIMIT);
    assert_eq!(thread.stderr().len(), OUT_LIMIT);
}

#[test]
fn bridge_exactly_full_is_no_overflow() {
    let mut thread = Thread::new();
    thread.send_request().unwrap();
    let big = "a".repeat(OUT_LIMIT);
    assert_eq!(thread.on_message(chunk(&big, "")), Ok(Settlement::Unsettled));
    assert!(thread.is_pending());
    assert_eq!(
        thread.on_message(chunk("b", "")),
        Ok(Settlement::Rejected(Rejection::StdoutLimit))
    );
    assert_eq!(thread.stdout().len(), OUT_LIMIT);
}

#[test]
fn bridge_new_request_clears_the_streams() {
    let mut thread = Thread::new();
    thread.send_request().unwrap();
    thread.on_message(chunk("old", "old")).unwrap();
    thread.on_message(success()).unwrap();
    assert_eq!(thread.send_request(), Ok(()));
    thread.on_message(chunk("new", "")).unwrap();
    assert_eq!(thread.stdout(), b"new".to_vec());
    assert_eq!(thread.stderr(), b"".to_vec());
}

#[test]
fn bridge_refuses_a_second_request_while_one_is_pending() {
    let mut thread = Thread::new();
    thread.send_request().unwrap();
    thread.on_message(chunk("kept", "")).unwrap();
    assert_eq!(thread.send_request(), Err(SendError::RequestPending));
    assert!(thread.is_pending());
    assert_eq!(thread.stdout(), b"kept".to_vec());
}

#[test]
fn bridge_terminate_is_idempotent_and_rejects_pending() {
    let mut thread = Thread::new();
    thread.send_request().unwrap();
    assert_eq!(
        thread.terminate(),
        Teardown {
            reject_pending: true,
            destroy_worker: true
        }
    );
    assert!(thread.is_terminated());
    assert!(!thread.is_pending());
    assert_eq!(thread.terminate(), NOTHING);
    assert_eq!(thread.terminate(), NOTHING);
    assert!(thread.is_terminated());
    assert_eq!(thread.send_request(), Err(SendError::AlreadyTerminated));
    assert_eq!(thread.on_message(success()), Ok(Settlement::Unsettled));
}

#[test]
fn teardown_rejects_as_canceled() {
    let mut thread = Thread::new();
    thread.send_request().unwrap();
    let todo = thread.terminate();
    assert_eq!(todo.rejection(), Some(Rejection::Canceled));
    assert_eq!(thread.terminate().rejection(), None);
    assert_eq!(NOTHING.rejection(), None);
}

#[test]
fn bridge_terminate_without_a_request_is_safe() {
    let mut thread = Thread::new();
    assert_eq!(
        thread.terminate(),
        Teardown {
            reject_pending: false,
            destroy_worker: true
        }
    );
    assert_eq!(thread.terminate(), NOTHING);
}

#[test]
fn bridge_crash_rejects_pending() {
    let mut thread = Thread::new();
    assert_eq!(thread.on_error(), Settlement::Unsettled);
    thread.send_request().unwrap();
    thread.on_message(chunk("partial", "")).unwrap();
    assert_eq!(thread.on_error(), Settlement::Rejected(Rejection::Crashed));
    assert!(!thread.is_pending());
    assert_eq!(thread.on_error(), Settlement::Unsettled);
    assert_eq!(thread.stdout(), b"partial".to_vec());
}

#[test]
fn send_error_reasons() {
    assert_eq!(
        SendError::AlreadyTerminated.reason(),
        "worker already terminated"
    );
    assert_eq!(
        SendError::RequestPending.reason(),
        "Thread: last req still pending"
    );
}

#[test]
fn rejection_reasons() {
    assert_eq!(Rejection::StdoutLimit.reason(), Some("Stdout limit exceeded"));
    assert_eq!(Rejection::StderrLimit.reason(), Some("Stderr limit exceeded"));
    assert_eq!(Rejection::Canceled.reason(), Some("Thread: last req canceled"));
    assert_eq!(
        Rejection::Crashed.reason(),
        Some("Thread: worker terminated unexpectedly")
    );
    assert_eq!(
        Rejection::Worker(Payload::Text("x".to_string())).reason(),
        None
    );
}
