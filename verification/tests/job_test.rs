use try_in_browser::threading::atw::{MessagePort, Outbox, Payload, ResultMessage, ThreadWorker};
use try_in_browser::threading::job::{
    err_encode, pass_encode, run_job_lang, send_result, AtwThreadWriter,
};
use try_in_browser::threading::worker::{refusal, wmt_bootstrap, DispatchError, Worker};
use try_in_browser::threading::{decode_task_msg, encode_task_msg, JobRequest, TaskMessage};
use try_in_browser::lang::{interpret2, LangWriter};

struct Collect {
    msgs: Vec<ResultMessage>,
}

impl MessagePort for Collect {
    fn post_message(&mut self, msg: ResultMessage) {
        self.msgs.push(msg);
    }
}

fn port() -> Collect {
    Collect { msgs: vec![] }
}

fn job(language: &str, program: &str, stdin: &str, arguments: &str) -> JobRequest {
    JobRequest {
        language: language.to_string(),
        program: program.to_string(),
        stdin: stdin.to_string(),
        arguments: arguments.to_string(),
    }
}

fn chunk(out: &str, err: &str) -> ResultMessage {
    ResultMessage {
        payload: Payload::Streams {
            out: out.to_string(),
            err: err.to_string(),
        },
        is_ok: true,
        cont: true,
    }
}

fn success() -> ResultMessage {
    ResultMessage {
        payload: Payload::Streams {
            out: String::new(),
            err: String::new(),
        },
        is_ok: true,
        cont: false,
    }
}

fn failure(text: &str) -> ResultMessage {
    ResultMessage {
        payload: Payload::Text(text.to_string()),
        is_ok: false,
        cont: false,
    }
}

fn messages_of_job(language: &str, program: &str, stdin: &str, arguments: &str) -> Vec<ResultMessage> {
    let worker = run_job_lang(
        &job(language, program, stdin, arguments),
        ThreadWorker::new(port()),
    );
    worker.into_port().msgs
}

#[test]
fn deadfish_job_posts_output_and_one_success() {
    let msgs = messages_of_job("Deadfish", "iiisiiiso", "", "");
    assert_eq!(msgs, vec![chunk("144\n", ""), success()]);
    let msgs = messages_of_job("Deadfish", "iiisodso", "", "");
    assert_eq!(msgs, vec![chunk("9\n", ""), chunk("64\n", ""), success()]);
    let stdout: String = msgs
        .iter()
        .map(|m| match &m.payload {
            Payload::Streams { out, .. } => out.clone(),
            Payload::Text(_) => String::new(),
        })
        .collect();
    assert_eq!(stdout, "9\n64\n");
}

#[test]
fn unknown_language_job_posts_one_error_terminal_message() {
    let msgs = messages_of_job("Whitespace", "  \n", "", "");
    assert_eq!(
        msgs,
        vec![
            chunk("", "Unknown lang: Whitespace"),
            chunk("", "Unknown lang: Whitespace"),
            failure("Unknown lang: Whitespace"),
        ]
    );
    let finals: Vec<&ResultMessage> = msgs.iter().filter(|m| !m.cont).collect();
    assert_eq!(finals.len(), 1);
    assert!(!finals[0].is_ok);
    match &finals[0].payload {
        Payload::Text(text) => assert!(text.contains("Whitespace")),
        Payload::Streams { .. } => panic!("an error carries a text"),
    }
}

#[test]
fn help_job_posts_help_and_one_success() {
    let msgs = messages_of_job("brainfuck", "+[.]", "", "-h");
    assert_eq!(
        msgs,
        vec![chunk(try_in_browser::lang::brainfuck::HELP, ""), success()]
    );
}

#[test]
fn failing_job_posts_only_the_failure_as_final() {
    // The interpreter ends the job with an error, which goes to standard error
    // too; the end that the job runner adds afterwards is not posted.
    let msgs = messages_of_job("brainfuck", "+.<", "", "");
    assert_eq!(
        msgs,
        vec![
            chunk("\u{1}", ""),
            chunk("", "Error on `<` at index 3: Reached left end of tape"),
            failure("Error on `<` at index 3: Reached left end of tape"),
        ]
    );
}

#[test]
fn job_that_ends_itself_posts_one_final_message() {
    // S10K says that it is done, and the job runner says so again.
    let msgs = messages_of_job("S10K", "", "", "");
    assert_eq!(msgs.len(), 2);
    assert!(msgs[0].cont);
    assert_eq!(msgs[1], success());
}

#[test]
fn writer_drops_everything_after_the_end() {
    let mut writer = AtwThreadWriter::new(ThreadWorker::new(port()));
    writer.write_both("a", "b");
    writer.write_out("c");
    writer.write_err("d");
    writer.terminate_with_error("boom");
    writer.write_out("late");
    writer.terminate();
    writer.terminate_with_error("again");
    let msgs = writer.into_worker().into_port().msgs;
    assert_eq!(
        msgs,
        vec![
            chunk("a", "b"),
            chunk("c", ""),
            chunk("", "d"),
            chunk("", "boom"),
            failure("boom"),
        ]
    );
}

#[test]
fn writer_posts_each_call_at_once() {
    let mut writer = AtwThreadWriter::new(ThreadWorker::new(port()));
    interpret2("Deadfish", "ioio", "", "", &mut writer);
    let msgs = writer.into_worker().into_port().msgs;
    assert_eq!(msgs, vec![chunk("1\n", ""), chunk("2\n", ""), success()]);
}

#[test]
fn writer_starts_a_new_account_on_a_used_worker() {
    let mut worker = ThreadWorker::new(port());
    worker.send_response(Payload::Text("hello".to_string()), false);
    let mut writer = AtwThreadWriter::new(worker);
    writer.terminate();
    let msgs = writer.into_worker().into_port().msgs;
    assert_eq!(
        msgs,
        vec![
            ResultMessage {
                payload: Payload::Text("hello".to_string()),
                is_ok: true,
                cont: false
            },
            success(),
        ]
    );
}

#[test]
fn outbox_keeps_what_it_takes() {
    let mut port = Outbox::new();
    port.post_message(chunk("a", ""));
    port.post_message(success());
    assert_eq!(port.into_messages(), vec![chunk("a", ""), success()]);
    assert_eq!(Outbox::new().into_messages(), vec![]);

    let worker = run_job_lang(
        &job("Deadfish", "iiisodso", "", ""),
        ThreadWorker::new(Outbox::new()),
    );
    assert_eq!(
        worker.into_port().into_messages(),
        vec![chunk("9\n", ""), chunk("64\n", ""), success()]
    );
}

#[test]
fn encoders_and_send_result() {
    assert_eq!(
        pass_encode("o", "e"),
        Ok(Payload::Streams {
            out: "o".to_string(),
            err: "e".to_string()
        })
    );
    assert_eq!(err_encode("bad"), Err(Payload::Text("bad".to_string())));
    let mut worker = ThreadWorker::new(port());
    send_result(pass_encode("o", "e"), &mut worker, true);
    send_result(pass_encode("", ""), &mut worker, false);
    // A failure is final whatever the flag says.
    send_result(err_encode("bad"), &mut worker, true);
    worker.send_error(Payload::Text("worse".to_string()));
    assert_eq!(
        worker.into_port().msgs,
        vec![chunk("o", "e"), success(), failure("bad"), failure("worse")]
    );
}

#[test]
fn task_messages_round_trip() {
    let msg = encode_task_msg("job-lang", Some(job("S10K", "p", "i", "a")));
    assert_eq!(
        msg,
        TaskMessage {
            task: "job-lang".to_string(),
            data: Some(job("S10K", "p", "i", "a"))
        }
    );
    let (name, data) = decode_task_msg(msg);
    assert_eq!(name, "job-lang");
    assert_eq!(data, Some(job("S10K", "p", "i", "a")));
    let (name, data) = decode_task_msg(encode_task_msg("ping", None));
    assert_eq!(name, "ping");
    assert_eq!(data, None);
}

#[test]
fn worker_greets_and_runs_jobs() {
    let worker = wmt_bootstrap(port());
    let task = encode_task_msg("job-lang", Some(job("Deadfish", "iio", "", "")));
    assert_eq!(refusal(&task), None);
    let worker = worker.on_request_inner(task);
    let msgs = worker.into_port().msgs;
    assert_eq!(
        msgs,
        vec![
            ResultMessage {
                payload: Payload::Text("bootstrap COMPLETE".to_string()),
                is_ok: true,
                cont: false
            },
            chunk("2\n", ""),
            success(),
        ]
    );
}

#[test]
fn worker_refuses_unknown_tasks() {
    let task = encode_task_msg("job-other", Some(job("Deadfish", "iio", "", "")));
    assert_eq!(
        refusal(&task),
        Some(DispatchError::UnknownTask("job-other".to_string()))
    );
    assert_eq!(
        refusal(&encode_task_msg("", None)),
        Some(DispatchError::UnknownTask(String::new()))
    );
    assert_eq!(
        refusal(&encode_task_msg("job-lang", None)),
        Some(DispatchError::MissingJob)
    );
    let worker = Worker::new(port());
    let task = encode_task_msg("job-lang", Some(job("S10K", "", "", "-h")));
    assert_eq!(refusal(&task), None);
    assert_eq!(worker.on_request_inner(task).into_port().msgs.len(), 2);
}
