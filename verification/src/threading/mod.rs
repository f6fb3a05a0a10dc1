//! The protocol between the host and an isolated worker: what a job is, how a
//! task is addressed to the worker, and how much output a job may produce.

use vstd::prelude::*;
use vstd::slice::slice_to_vec;
use vstd::string::StringExecFns;
use vstd::utf8::encode_utf8;
use crate::text::{chars_of, ends_with, occurs_at, replace, replace_all, string_of};
use thread::{Thread, ThreadStatus};

pub mod accumulator;
pub mod atw;
pub mod job;
pub mod thread;
pub mod worker;

verus! {

/// The most bytes a job may write to one stream. Standard output and standard
/// error are limited separately.
pub const OUT_LIMIT: usize = 131_072;

/// One run of one interpreter: which language, the program, and its inputs.
#[derive(Debug, PartialEq, Eq)]
pub struct JobRequest {
    pub language: String,
    pub program: String,
    pub stdin: String,
    pub arguments: String,
}

/// A `JobRequest` as plain text.
pub struct JobRequestView {
    pub language: Seq<char>,
    pub program: Seq<char>,
    pub stdin: Seq<char>,
    pub arguments: Seq<char>,
}

impl View for JobRequest {
    type V = JobRequestView;

    open spec fn view(&self) -> JobRequestView {
        JobRequestView {
            language: self.language@,
            program: self.program@,
            stdin: self.stdin@,
            arguments: self.arguments@,
        }
    }
}

/// What the host posts to the worker: a task name and, for a job, its request.
#[derive(Debug, PartialEq, Eq)]
pub struct TaskMessage {
    pub task: String,
    pub data: Option<JobRequest>,
}

/// A `TaskMessage` as plain text.
pub struct TaskMessageView {
    pub task: Seq<char>,
    pub data: Option<JobRequestView>,
}

impl View for TaskMessage {
    type V = TaskMessageView;

    open spec fn view(&self) -> TaskMessageView {
        TaskMessageView {
            task: self.task@,
            data: match self.data {
                Some(job) => Some(job@),
                None => None,
            },
        }
    }
}

/// Builds the task message named `name` that carries `data`.
pub fn encode_task_msg(name: &str, data: Option<JobRequest>) -> (msg: TaskMessage)
    ensures
        msg.task@ == name@,
        msg.data == data,
{
    TaskMessage { task: name.to_owned(), data }
}

/// Takes a task message apart into its name and what it carries.
pub fn decode_task_msg(msg: TaskMessage) -> (parts: (String, Option<JobRequest>))
    ensures
        parts.0 == msg.task,
        parts.1 == msg.data,
{
    (msg.task, msg.data)
}

/// The ending of a package path that marks a test run.
pub const TEST_SUFFIX: &'static str = "wasm-bindgen-test";

/// The ending of the path of a compiled module.
pub const WASM_SUFFIX: &'static str = "_bg.wasm";

/// The ending of the path of a glue script.
pub const JS_SUFFIX: &'static str = ".js";

/// Whether `text` ends with `tail`.
pub open spec fn has_suffix(text: Seq<char>, tail: Seq<char>) -> bool {
    tail.len() <= text.len() && occurs_at(text, tail, text.len() - tail.len())
}

/// Where the compiled module lies that belongs to the glue script at
/// `pkg_js_uri`.
pub open spec fn wasm_uri(pkg_js_uri: Seq<char>) -> Seq<char> {
    if has_suffix(pkg_js_uri, TEST_SUFFIX@) {
        pkg_js_uri + WASM_SUFFIX@
    } else {
        replace_all(pkg_js_uri, JS_SUFFIX@, WASM_SUFFIX@)
    }
}

/// The script a worker runs to get at the package: `pkg_js` inside a function
/// that hands back its entry point.
pub open spec fn init_script(pkg_js: Seq<char>) -> Seq<char> {
    "return () => { "@ + pkg_js + " return wasm_bindgen; };"@
}

/// The bytes of `text`.
pub fn ab_from_text(text: &str) -> (bytes: Vec<u8>)
    ensures
        bytes@ == encode_utf8(text@),
{
    slice_to_vec(text.as_bytes())
}

/// What has to be fetched before workers can be made.
#[derive(Debug, PartialEq, Eq)]
pub struct FetchPlan {
    /// The glue script, unless a test harness supplies it later.
    pub pkg_js: Option<String>,
    /// The compiled module.
    pub pkg_wasm: String,
}

/// Why the package could not be set up, or a worker not be made from it.
#[derive(Clone, Copy, Debug, PartialEq, Eq, Structural)]
pub enum MtError {
    /// `init` was called before.
    AlreadyInitialized,
    /// The path of the glue script gives no path of a compiled module.
    UnresolvedWasmUri,
    /// `init` was not called yet.
    NotInitialized,
    /// One of the two buffers has not been set.
    MissingBuffers,
}

/// A `WasmMt` as plain values.
pub struct WasmMtView {
    pub pkg_js_uri: Seq<char>,
    pub ab_init: Option<Seq<u8>>,
    pub ab_wasm: Option<Seq<u8>>,
    pub initialized: bool,
}

impl WasmMtView {
    /// Why `init` fails, if it does.
    pub open spec fn init_error(self) -> Option<MtError> {
        if self.initialized {
            Some(MtError::AlreadyInitialized)
        } else if !has_suffix(wasm_uri(self.pkg_js_uri), WASM_SUFFIX@) {
            Some(MtError::UnresolvedWasmUri)
        } else {
            None
        }
    }

    /// Why no worker can be made, if none can.
    pub open spec fn thread_error(self) -> Option<MtError> {
        if !self.initialized {
            Some(MtError::NotInitialized)
        } else if self.ab_init is None || self.ab_wasm is None {
            Some(MtError::MissingBuffers)
        } else {
            None
        }
    }
}

/// The package that workers are made from: where it lies, and the two
/// buffers that bring a worker up once they are fetched.
pub struct WasmMt {
    pkg_js_uri: String,
    ab_init: Option<Vec<u8>>,
    ab_wasm: Option<Vec<u8>>,
    is_initialized: bool,
}

impl View for WasmMt {
    type V = WasmMtView;

    closed spec fn view(&self) -> WasmMtView {
        WasmMtView {
            pkg_js_uri: self.pkg_js_uri@,
            ab_init: match self.ab_init {
                Some(ab) => Some(ab@),
                None => None,
            },
            ab_wasm: match self.ab_wasm {
                Some(ab) => Some(ab@),
                None => None,
            },
            initialized: self.is_initialized,
        }
    }
}

impl WasmMt {
    /// The package whose glue script lies at `pkg_js_uri`, with nothing
    /// fetched yet.
    pub fn new(pkg_js_uri: &str) -> (mt: WasmMt)
        ensures
            mt@ == (WasmMtView {
                pkg_js_uri: pkg_js_uri@,
                ab_init: None,
                ab_wasm: None,
                initialized: false,
            }),
    {
        WasmMt {
            pkg_js_uri: pkg_js_uri.to_owned(),
            ab_init: None,
            ab_wasm: None,
            is_initialized: false,
        }
    }

    /// Sets the buffer that holds the glue script.
    pub fn set_ab_init(&mut self, ab: Vec<u8>)
        ensures
            final(self)@ == (WasmMtView { ab_init: Some(ab@), ..old(self)@ }),
    {
        self.ab_init = Some(ab);
    }

    /// Sets the buffer that holds the compiled module.
    pub fn set_ab_wasm(&mut self, ab: Vec<u8>)
        ensures
            final(self)@ == (WasmMtView { ab_wasm: Some(ab@), ..old(self)@ }),
    {
        self.ab_wasm = Some(ab);
    }

    /// Starts the setup and says what has to be fetched. This works once. It
    /// fails where the path of the glue script gives no path of a compiled
    /// module; the package counts as set up all the same.
    pub fn init(&mut self) -> (plan: Result<FetchPlan, MtError>)
        ensures
            final(self)@ == (WasmMtView { initialized: true, ..old(self)@ }),
            match plan {
                Ok(p) => {
                    &&& old(self)@.init_error() is None
                    &&& p.pkg_wasm@ == wasm_uri(old(self)@.pkg_js_uri)
                    &&& match p.pkg_js {
                        Some(uri) => !has_suffix(old(self)@.pkg_js_uri, TEST_SUFFIX@) && uri@ == old(
                            self,
                        )@.pkg_js_uri,
                        None => has_suffix(old(self)@.pkg_js_uri, TEST_SUFFIX@),
                    }
                },
                Err(e) => old(self)@.init_error() == Some(e),
            },
    {
        if self.is_initialized {
            return Err(MtError::AlreadyInitialized);
        }
        self.is_initialized = true;
        let uri = chars_of(self.pkg_js_uri.as_str());
        let wasm_suffix = chars_of(WASM_SUFFIX);
        let is_test = ends_with(&uri, &chars_of(TEST_SUFFIX));
        let pkg_wasm_uri: Vec<char> = if is_test {
            let mut joined: Vec<char> = Vec::new();
            crate::text::copy_from(&mut joined, &uri, 0);
            crate::text::copy_from(&mut joined, &wasm_suffix, 0);
            assert(uri@.skip(0) =~= uri@);
            assert(wasm_suffix@.skip(0) =~= wasm_suffix@);
            assert(joined@ =~= uri@ + wasm_suffix@);
            joined
        } else {
            replace(&uri, &chars_of(JS_SUFFIX), &wasm_suffix)
        };
        if !ends_with(&pkg_wasm_uri, &wasm_suffix) {
            return Err(MtError::UnresolvedWasmUri);
        }
        let pkg_wasm = string_of(&pkg_wasm_uri, 0, pkg_wasm_uri.len());
        assert(pkg_wasm_uri@.subrange(0, pkg_wasm_uri@.len() as int) =~= pkg_wasm_uri@);
        let pkg_js = if is_test {
            None
        } else {
            Some(self.pkg_js_uri.clone())
        };
        Ok(FetchPlan { pkg_js, pkg_wasm })
    }

    /// Starts the setup, as `init` does, and gives the package back with what
    /// has to be fetched.
    pub fn and_init(self) -> (started: Result<(Self, FetchPlan), MtError>)
        ensures
            match started {
                Ok((mt, p)) => {
                    &&& self@.init_error() is None
                    &&& mt@ == (WasmMtView { initialized: true, ..self@ })
                    &&& p.pkg_wasm@ == wasm_uri(self@.pkg_js_uri)
                    &&& match p.pkg_js {
                        Some(uri) => !has_suffix(self@.pkg_js_uri, TEST_SUFFIX@) && uri@
                            == self@.pkg_js_uri,
                        None => has_suffix(self@.pkg_js_uri, TEST_SUFFIX@),
                    }
                },
                Err(e) => self@.init_error() == Some(e),
            },
    {
        let mut mt = self;
        match mt.init() {
            Ok(plan) => Ok((mt, plan)),
            Err(e) => Err(e),
        }
    }

    /// Makes the host's side of a new worker, with its own copy of the two
    /// buffers. This needs a package that is set up and has both.
    pub fn thread(&self) -> (thread: Result<Thread, MtError>)
        ensures
            match thread {
                Ok(t) => self@.thread_error() is None && t@ == ThreadStatus::fresh(
                    self@.ab_init->0,
                    self@.ab_wasm->0,
                ),
                Err(e) => self@.thread_error() == Some(e),
            },
    {
        if !self.is_initialized {
            return Err(MtError::NotInitialized);
        }
        match (&self.ab_init, &self.ab_wasm) {
            (Some(ab_init), Some(ab_wasm)) => Ok(
                Thread::new(slice_to_vec(ab_init.as_slice()), slice_to_vec(ab_wasm.as_slice())),
            ),
            _ => Err(MtError::MissingBuffers),
        }
    }

    /// The buffer that holds the script a worker runs to get at the package
    /// `pkg_js`.
    pub fn ab_init_from(pkg_js: &str) -> (ab: Vec<u8>)
        ensures
            ab@ == encode_utf8(init_script(pkg_js@)),
    {
        let mut init_js = String::new();
        init_js.append("return () => { ");
        init_js.append(pkg_js);
        init_js.append(" return wasm_bindgen; };");
        assert(init_js@ =~= init_script(pkg_js@));
        ab_from_text(init_js.as_str())
    }
}

} // verus!
