use try_in_browser::runner::{
    get_elapsed_time, get_th_crashed, get_th_finished, init, on_error, on_message, poll_mt_init,
    reset, reset_all_flags, run, set_mt, stop, take_result_from_thread, update_state, Completion,
    Outcome, RunError, RunnerState, ThreadState, Update, PKG_JS,
};
use try_in_browser::threading::atw::{MalformedChunk, Payload, ResultMessage, Teardown};
use try_in_browser::threading::thread::{BootstrapPayload, InitError, Thread};
use try_in_browser::threading::{JobRequest, MtError, TaskMessage, WasmMt, OUT_LIMIT};

const NOTHING: Teardown = Teardown {
    reject_pending: false,
    destroy_worker: false,
};

const IDLE: Update = Update {
    completion: None,
    teardown: NOTHING,
};

fn chunk(out: &str, err: &str) -> ResultMessage {
    ResultMessage {
        payload: Payload::Streams {
            out: out.to_string(),
            err: err.to_string(),
        },
        is_ok: true,
        cont: true,
    }
}

fn success() -> ResultMessage {
    ResultMessage {
        payload: Payload::Streams {
            out: String::new(),
            err: String::new(),
        },
        is_ok: true,
        cont: false,
    }
}

fn failure(text: &str) -> ResultMessage {
    ResultMessage {
        payload: Payload::Text(text.to_string()),
        is_ok: false,
        cont: false,
    }
}

fn greeting() -> ResultMessage {
    ResultMessage {
        payload: Payload::Text("bootstrap COMPLETE".to_string()),
        is_ok: true,
        cont: false,
    }
}

fn package() -> WasmMt {
    let mut mt = init();
    mt.init().unwrap();
    mt.set_ab_init(vec![1, 2, 3]);
    mt.set_ab_wasm(vec![4, 5]);
    mt
}

fn ready() -> RunnerState {
    let mut state = RunnerState::new();
    set_mt(&mut state, package());
    update_state(&mut state, 0);
    state
}

/// A supervisor whose job was sent to a worker that came up.
fn running(now: u64) -> RunnerState {
    let mut state = ready();
    run(&mut state, "Deadfish", "iio", "", "", now).unwrap();
    on_message(&mut state, greeting()).unwrap().unwrap();
    state
}

#[test]
fn supervisor_becomes_ready_once_the_package_is_set_up() {
    let mut state = RunnerState::new();
    assert_eq!(state.thread_state(), ThreadState::NotReady);
    assert!(!poll_mt_init(&mut state));
    assert_eq!(update_state(&mut state, 5), IDLE);
    assert_eq!(state.thread_state(), ThreadState::NotReady);
    assert_eq!(
        run(&mut state, "S10K", "", "", "", 6),
        Err(RunError::NotReady)
    );
    set_mt(&mut state, package());
    assert_eq!(state.thread_state(), ThreadState::NotReady);
    assert_eq!(update_state(&mut state, 7), IDLE);
    assert_eq!(state.thread_state(), ThreadState::Ready);
    assert!(poll_mt_init(&mut state));
}

#[test]
fn package_lies_where_expected() {
    assert_eq!(PKG_JS, "./pkg/package.js");
    let mut mt = init();
    let plan = mt.init().unwrap();
    assert_eq!(plan.pkg_js, Some("./pkg/package.js".to_string()));
    assert_eq!(plan.pkg_wasm, "./pkg/package_bg.wasm");
}

#[test]
fn run_needs_a_package_with_both_buffers() {
    let mut state = RunnerState::new();
    let mut mt = init();
    mt.init().unwrap();
    mt.set_ab_init(vec![1]);
    set_mt(&mut state, mt);
    update_state(&mut state, 0);
    assert_eq!(state.thread_state(), ThreadState::Ready);
    assert_eq!(
        run(&mut state, "S10K", "", "", "", 1),
        Err(RunError::Package(MtError::MissingBuffers))
    );
    assert_eq!(state.thread_state(), ThreadState::Ready);

    let mut state = RunnerState::new();
    set_mt(&mut state, init());
    update_state(&mut state, 0);
    assert_eq!(
        run(&mut state, "S10K", "", "", "", 1),
        Err(RunError::Package(MtError::NotInitialized))
    );
}

#[test]
fn job_runs_from_launch_to_finish() {
    let mut state = ready();
    let launch = run(&mut state, "Deadfish", "iio", "in", "-n", 1_000_000).unwrap();
    assert_eq!(launch.retire, NOTHING);
    assert_eq!(
        launch.payload,
        BootstrapPayload {
            ab_init: vec![1, 2, 3],
            ab_wasm: vec![4, 5]
        }
    );
    assert_eq!(state.thread_state(), ThreadState::Running);
    // Nothing has happened yet: a look finds the job running.
    assert_eq!(update_state(&mut state, 1_000_100), IDLE);
    // The worker comes up, and the job is sent to it.
    let task = on_message(&mut state, greeting()).unwrap();
    assert_eq!(
        task,
        Some(TaskMessage {
            task: "job-lang".to_string(),
            data: Some(JobRequest {
                language: "Deadfish".to_string(),
                program: "iio".to_string(),
                stdin: "in".to_string(),
                arguments: "-n".to_string(),
            }),
        })
    );
    assert_eq!(update_state(&mut state, 1_000_200), IDLE);
    assert_eq!(state.thread_state(), ThreadState::Running);
    // Output arrives and is collected by the next look.
    assert_eq!(on_message(&mut state, chunk("2", "")), Ok(None));
    assert_eq!(state.stdout(), b"");
    assert_eq!(update_state(&mut state, 1_000_300), IDLE);
    assert_eq!(state.stdout(), b"2");
    assert_eq!(on_message(&mut state, chunk("\n", "warn")), Ok(None));
    assert_eq!(on_message(&mut state, success()), Ok(None));
    // Still running until somebody looks.
    assert_eq!(state.thread_state(), ThreadState::Running);
    assert_eq!(
        update_state(&mut state, 3_500_000),
        Update {
            completion: Some(Completion {
                outcome: Outcome::Finished,
                elapsed: 2_500_000
            }),
            teardown: NOTHING,
        }
    );
    assert_eq!(state.thread_state(), ThreadState::Ready);
    assert_eq!(state.stdout(), b"2\n");
    assert_eq!(state.stderr(), b"warn");
    // The end is reported once.
    assert_eq!(update_state(&mut state, 4_000_000), IDLE);
}

#[test]
fn next_job_retires_the_worker_of_the_last() {
    let mut state = running(0);
    on_message(&mut state, chunk("old", "old")).unwrap();
    on_message(&mut state, success()).unwrap();
    update_state(&mut state, 10);
    assert_eq!(state.stdout(), b"old");
    let launch = run(&mut state, "S10K", "", "", "", 20).unwrap();
    assert_eq!(
        launch.retire,
        Teardown {
            reject_pending: false,
            destroy_worker: true
        }
    );
    assert_eq!(state.stdout(), b"");
    assert_eq!(state.stderr(), b"");
    assert_eq!(state.thread_state(), ThreadState::Running);
    assert_eq!(
        run(&mut state, "S10K", "", "", "", 30),
        Err(RunError::NotReady)
    );
}

#[test]
fn failed_job_is_reported_as_crashed_with_its_output() {
    let mut state = running(100);
    on_message(&mut state, chunk("partial", "trace")).unwrap();
    on_message(&mut state, failure("boom")).unwrap();
    assert_eq!(
        update_state(&mut state, 350),
        Update {
            completion: Some(Completion {
                outcome: Outcome::Crashed,
                elapsed: 250
            }),
            teardown: NOTHING,
        }
    );
    assert_eq!(state.thread_state(), ThreadState::Ready);
    assert_eq!(state.stdout(), b"partial");
    assert_eq!(state.stderr(), b"trace");
}

#[test]
fn crash_of_the_worker_is_reported_as_crashed() {
    let mut state = running(0);
    on_message(&mut state, chunk("so far", "")).unwrap();
    assert_eq!(on_error(&mut state), None);
    let update = update_state(&mut state, 9);
    assert_eq!(
        update.completion,
        Some(Completion {
            outcome: Outcome::Crashed,
            elapsed: 9
        })
    );
    assert_eq!(state.stdout(), b"so far");
    assert_eq!(state.thread_state(), ThreadState::Ready);
    // A new job starts on a new worker.
    assert!(run(&mut state, "S10K", "", "", "", 10).is_ok());
}

#[test]
fn worker_that_fails_to_greet_fails_the_job() {
    let mut state = ready();
    run(&mut state, "S10K", "", "", "", 0).unwrap();
    assert_eq!(on_message(&mut state, failure("no module")), Ok(None));
    assert_eq!(state.thread_state(), ThreadState::Running);
    assert_eq!(
        update_state(&mut state, 5),
        Update {
            completion: Some(Completion {
                outcome: Outcome::Crashed,
                elapsed: 5
            }),
            teardown: NOTHING,
        }
    );
    assert_eq!(state.thread_state(), ThreadState::Ready);
    // A greeting that comes after all sends nothing.
    assert_eq!(on_message(&mut state, greeting()), Ok(None));
    assert!(run(&mut state, "S10K", "", "", "", 6).is_ok());
}

#[test]
fn worker_that_crashes_while_coming_up_fails_the_job() {
    let mut state = ready();
    run(&mut state, "S10K", "", "", "", 0).unwrap();
    assert_eq!(on_error(&mut state), None);
    assert_eq!(
        update_state(&mut state, 3).completion,
        Some(Completion {
            outcome: Outcome::Crashed,
            elapsed: 3
        })
    );
    assert_eq!(state.thread_state(), ThreadState::Ready);
}

#[test]
fn overflow_at_the_bridge_ends_the_job_over_the_limit() {
    let mut state = running(0);
    let big = "S".repeat(OUT_LIMIT + 1);
    assert_eq!(on_message(&mut state, chunk(&big, "")), Ok(None));
    // The job goes on writing; none of it counts any more.
    assert_eq!(on_message(&mut state, chunk("more", "")), Ok(None));
    let update = update_state(&mut state, 77);
    assert_eq!(
        update,
        Update {
            completion: Some(Completion {
                outcome: Outcome::OutputLimitExceeded,
                elapsed: 77
            }),
            teardown: Teardown {
                reject_pending: false,
                destroy_worker: true
            },
        }
    );
    assert_eq!(state.stdout().len(), OUT_LIMIT);
    assert_eq!(state.thread_state(), ThreadState::Ready);
    // The next job runs on a fresh worker and succeeds.
    let launch = run(&mut state, "Deadfish", "o", "", "", 100).unwrap();
    assert_eq!(launch.retire, NOTHING);
    on_message(&mut state, greeting()).unwrap().unwrap();
    on_message(&mut state, chunk("0\n", "")).unwrap();
    on_message(&mut state, success()).unwrap();
    assert_eq!(
        update_state(&mut state, 130).completion,
        Some(Completion {
            outcome: Outcome::Finished,
            elapsed: 30
        })
    );
    assert_eq!(state.stdout(), b"0\n");
}

#[test]
fn overflow_at_the_supervisor_ends_the_job_over_the_limit() {
    let mut state = running(0);
    // Each batch fits into the bridge; together they do not fit here.
    let half = "a".repeat(OUT_LIMIT / 2 + 1);
    on_message(&mut state, chunk(&half, "")).unwrap();
    assert_eq!(update_state(&mut state, 1), IDLE);
    assert_eq!(state.stdout().len(), OUT_LIMIT / 2 + 1);
    on_message(&mut state, chunk(&half, "e")).unwrap();
    let update = update_state(&mut state, 2);
    assert_eq!(
        update,
        Update {
            completion: Some(Completion {
                outcome: Outcome::OutputLimitExceeded,
                elapsed: 2
            }),
            teardown: Teardown {
                reject_pending: true,
                destroy_worker: true
            },
        }
    );
    assert_eq!(state.stdout().len(), OUT_LIMIT);
    assert_eq!(state.stderr(), b"e");
    assert_eq!(state.thread_state(), ThreadState::Ready);
    // What the old worker still sends reaches nobody.
    assert_eq!(on_message(&mut state, chunk("late", "")), Ok(None));
    assert_eq!(update_state(&mut state, 3), IDLE);
    assert_eq!(state.stdout().len(), OUT_LIMIT);
}

#[test]
fn stop_cancels_and_a_new_job_can_run() {
    let mut state = running(1_000);
    on_message(&mut state, chunk("going", "")).unwrap();
    update_state(&mut state, 1_500);
    let update = stop(&mut state, 4_000);
    assert_eq!(
        update,
        Update {
            completion: Some(Completion {
                outcome: Outcome::Aborted,
                elapsed: 3_000
            }),
            teardown: Teardown {
                reject_pending: true,
                destroy_worker: true
            },
        }
    );
    assert_eq!(state.thread_state(), ThreadState::Ready);
    assert_eq!(state.stdout(), b"going");
    // Stopping again does nothing.
    assert_eq!(stop(&mut state, 5_000), IDLE);
    assert_eq!(stop(&mut state, 6_000), IDLE);
    assert_eq!(state.thread_state(), ThreadState::Ready);
    assert_eq!(reset(&mut state), NOTHING);
    // A new job runs.
    assert!(run(&mut state, "S10K", "", "", "", 7_000).is_ok());
    assert_eq!(state.thread_state(), ThreadState::Running);
}

#[test]
fn stop_while_the_worker_comes_up() {
    let mut state = ready();
    run(&mut state, "S10K", "", "", "", 0).unwrap();
    let update = stop(&mut state, 10);
    assert_eq!(
        update.teardown,
        Teardown {
            reject_pending: true,
            destroy_worker: true
        }
    );
    // The greeting of the old worker sends no job.
    assert_eq!(on_message(&mut state, greeting()), Ok(None));
    assert_eq!(state.thread_state(), ThreadState::Ready);
}

#[test]
fn stop_when_nothing_runs_does_nothing() {
    let mut state = RunnerState::new();
    assert_eq!(stop(&mut state, 1), IDLE);
    assert_eq!(state.thread_state(), ThreadState::NotReady);
    assert_eq!(reset(&mut state), NOTHING);
    let mut state = ready();
    assert_eq!(stop(&mut state, 1), IDLE);
    assert_eq!(state.thread_state(), ThreadState::Ready);
}

#[test]
fn malformed_continuation_is_refused_and_changes_nothing() {
    let mut state = running(0);
    on_message(&mut state, chunk("a", "")).unwrap();
    let odd = ResultMessage {
        payload: Payload::Text("odd".to_string()),
        is_ok: true,
        cont: true,
    };
    assert_eq!(on_message(&mut state, odd), Err(MalformedChunk));
    on_message(&mut state, chunk("b", "")).unwrap();
    assert_eq!(update_state(&mut state, 1), IDLE);
    assert_eq!(state.stdout(), b"ab");
}

#[test]
fn flags_are_read_once() {
    let mut state = running(0);
    on_message(&mut state, success()).unwrap();
    assert!(get_th_finished(&mut state));
    assert!(!get_th_finished(&mut state));
    assert!(!get_th_crashed(&mut state));

    let mut state = running(0);
    on_message(&mut state, failure("x")).unwrap();
    assert!(get_th_crashed(&mut state));
    assert!(!get_th_crashed(&mut state));

    let mut state = running(0);
    on_message(&mut state, failure("x")).unwrap();
    reset_all_flags(&mut state);
    assert!(!get_th_crashed(&mut state));
    assert!(!get_th_finished(&mut state));
    assert_eq!(update_state(&mut state, 1), IDLE);
}

#[test]
fn elapsed_time_is_now_minus_start() {
    let state = running(1_000_000);
    assert_eq!(get_elapsed_time(&state, 1_000_000), 0);
    assert_eq!(get_elapsed_time(&state, 3_250_000), 2_250_000);
    // A clock that went backwards gives no time.
    assert_eq!(get_elapsed_time(&state, 999_999), 0);
}

#[test]
fn results_are_taken_from_the_worker() {
    let mut state = RunnerState::new();
    assert_eq!(take_result_from_thread(&mut state), (vec![], vec![]));
    let mut state = running(0);
    on_message(&mut state, chunk("out", "err")).unwrap();
    assert_eq!(
        take_result_from_thread(&mut state),
        (b"out".to_vec(), b"err".to_vec())
    );
    assert_eq!(take_result_from_thread(&mut state), (vec![], vec![]));
}

#[test]
fn thread_is_brought_up_once() {
    let mut thread = Thread::new(vec![9], vec![8, 7]);
    assert!(!thread.is_initialized());
    let payload = thread.init().unwrap();
    assert_eq!(
        payload,
        BootstrapPayload {
            ab_init: vec![9],
            ab_wasm: vec![8, 7]
        }
    );
    assert!(thread.is_booting());
    assert_eq!(thread.init(), Err(InitError::BuffersTaken));
    thread.on_message(greeting()).unwrap();
    assert!(thread.is_initialized());
    assert!(!thread.is_booting());
    let task = thread.exec_lang("///", "p", "i", "a").unwrap();
    assert_eq!(task.task, "job-lang");
    assert_eq!(
        thread.exec_lang("///", "p", "i", "a"),
        Err(try_in_browser::threading::atw::SendError::RequestPending)
    );
    thread.on_message(chunk("x", "y")).unwrap();
    assert_eq!(thread.stdout(), b"x".to_vec());
    assert_eq!(thread.stderr(), b"y".to_vec());
    assert_eq!(
        thread.terminate(),
        Teardown {
            reject_pending: true,
            destroy_worker: true
        }
    );
    assert_eq!(thread.terminate(), NOTHING);

    let (thread, payload) = Thread::new(vec![1], vec![2]).and_init().ok().unwrap();
    assert_eq!(payload.ab_wasm, vec![2]);
    assert!(thread.is_booting());
}

#[test]
fn thread_that_was_torn_down_cannot_be_brought_up() {
    let mut thread = Thread::new(vec![1], vec![2]);
    thread.terminate();
    assert_eq!(
        thread.init(),
        Err(InitError::Bridge(
            try_in_browser::threading::atw::SendError::AlreadyTerminated
        ))
    );
    assert!(!thread.is_booting());
    assert_eq!(
        thread.exec_lang("S10K", "", "", ""),
        Err(try_in_browser::threading::atw::SendError::AlreadyTerminated)
    );
}

#[test]
fn thread_that_fails_to_come_up_is_not_up() {
    let mut thread = Thread::new(vec![], vec![]);
    thread.init().unwrap();
    thread.on_error();
    assert!(!thread.is_initialized());
    assert!(!thread.is_booting());
    let mut thread = Thread::new(vec![], vec![]);
    thread.init().unwrap();
    thread.on_message(failure("no module")).unwrap();
    assert!(!thread.is_initialized());
    assert!(!thread.is_booting());
}

#[test]
fn package_setup() {
    let mut mt = WasmMt::new("app/pkg.js");
    assert_eq!(mt.thread().err(), Some(MtError::NotInitialized));
    let plan = mt.init().unwrap();
    assert_eq!(plan.pkg_js, Some("app/pkg.js".to_string()));
    assert_eq!(plan.pkg_wasm, "app/pkg_bg.wasm");
    assert_eq!(mt.init().err(), Some(MtError::AlreadyInitialized));
    assert_eq!(mt.thread().err(), Some(MtError::MissingBuffers));
    mt.set_ab_init(vec![1]);
    assert_eq!(mt.thread().err(), Some(MtError::MissingBuffers));
    mt.set_ab_wasm(vec![2]);
    let mut thread = mt.thread().ok().unwrap();
    assert_eq!(
        thread.init().unwrap(),
        BootstrapPayload {
            ab_init: vec![1],
            ab_wasm: vec![2]
        }
    );
    // Every worker gets its own copy.
    let mut second = mt.thread().ok().unwrap();
    assert_eq!(second.init().unwrap().ab_init, vec![1]);

    // A test harness names the package without an ending.
    let mut mt = WasmMt::new("pkg/wasm-bindgen-test");
    let plan = mt.init().unwrap();
    assert_eq!(plan.pkg_js, None);
    assert_eq!(plan.pkg_wasm, "pkg/wasm-bindgen-test_bg.wasm");

    // Every ".js" in the path is replaced.
    let mut mt = WasmMt::new("a.js/b.js");
    assert_eq!(mt.init().unwrap().pkg_wasm, "a_bg.wasm/b_bg.wasm");

    // A path that is no script gives no module, and counts as set up.
    let mut mt = WasmMt::new("pkg/package.mjs");
    assert_eq!(mt.init().err(), Some(MtError::UnresolvedWasmUri));
    assert_eq!(mt.init().err(), Some(MtError::AlreadyInitialized));

    let (mt, plan) = WasmMt::new("x.js").and_init().ok().unwrap();
    assert_eq!(plan.pkg_wasm, "x_bg.wasm");
    assert_eq!(plan.pkg_js, Some("x.js".to_string()));
    assert_eq!(mt.thread().err(), Some(MtError::MissingBuffers));
}

#[test]
fn init_script_wraps_the_package() {
    assert_eq!(
        WasmMt::ab_init_from("let x = 1;"),
        b"return () => { let x = 1; return wasm_bindgen; };".to_vec()
    );
    assert_eq!(
        try_in_browser::threading::ab_from_text("h\u{e9}"),
        vec![b'h', 0xc3, 0xa9]
    );
}

#[test]
fn footer_reports_time_and_outcome() {
    let done = Completion {
        outcome: Outcome::Finished,
        elapsed: 2_500_000,
    };
    assert_eq!(done.footer(), "\n\nElapsed time: 2.500000 sec\nfinished");
    let done = Completion {
        outcome: Outcome::Crashed,
        elapsed: 42,
    };
    assert_eq!(done.footer(), "\n\nElapsed time: 0.000042 sec\ninterpreter crashed");
    let done = Completion {
        outcome: Outcome::OutputLimitExceeded,
        elapsed: 0,
    };
    assert_eq!(
        done.footer(),
        "\n\nElapsed time: 0.000000 sec\noutput limit exceeded"
    );
    let done = Completion {
        outcome: Outcome::Aborted,
        elapsed: 123_456_789_012,
    };
    assert_eq!(done.footer(), "\n\nElapsed time: 123456.789012 sec\naborted");
    assert_eq!(Outcome::Aborted.describe(), "aborted");
}
