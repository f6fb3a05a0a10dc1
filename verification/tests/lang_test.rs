use try_in_browser::lang::{interpret2, Fault, LangWriter};

struct VecWriter {
    stdout: Vec<u8>,
    stderr: Vec<u8>,
}

impl VecWriter {
    fn new() -> Self {
        Self {
            stdout: vec![],
            stderr: vec![],
        }
    }

    fn raw(&self) -> (&[u8], &[u8]) {
        (&self.stdout, &self.stderr)
    }
}

impl LangWriter for VecWriter {
    fn write_both(&mut self, out: &str, err: &str) {
        self.stdout.extend_from_slice(out.as_bytes());
        self.stderr.extend_from_slice(err.as_bytes());
    }
    fn terminate(&mut self) {}
    fn terminate_with_error(&mut self, _msg: &str) {}
}

#[test]
fn test_s10k() {
    let lang = "S10K";
    let mut writer = VecWriter::new();
    let pgm = "ooo";
    interpret2(lang, pgm, "", "", &mut writer);
    let (out, err) = writer.raw();
    assert_eq!(out.len(), 10000);
    assert_eq!(err, b"");
}

#[test]
fn test_deadfish() {
    let lang = "Deadfish";
    let mut writer = VecWriter::new();
    let pgm = "ooo";
    interpret2(lang, pgm, "", "", &mut writer);
    let (out, err) = writer.raw();
    assert_eq!(out, b"0\n0\n0\n");
    assert_eq!(err, b"");

    let mut writer = VecWriter::new();
    let pgm = "iisiiiisiiiiiiiioiiiiiiiiiiiiiiiiiiiiiiiiiiiiioiiiiiiiooiiio\ndddddddddddddddddddddddddddddddddddddddddddddddddddddddddddddddddddddddddddddddo\ndddddddddddddddddddddsddoddddddddoiiioddddddoddddddddo\n";
    interpret2(lang, pgm, "", "-o", &mut writer);
    let (out, err) = writer.raw();
    assert_eq!(out, b"Hello world");
    assert_eq!(err, b"");
}

#[test]
fn test_brainfuck() {
    let lang = "brainfuck";
    let mut writer = VecWriter::new();
    let pgm = ">>>>--<-<<+[+[<+>--->->->-<<<]>]<<--.<++++++.<<-..<<.<+.>>.>>.<<<.+++.>>.>>-.<<<+.";
    interpret2(lang, pgm, "", "", &mut writer);
    let (out, err) = writer.raw();
    assert_eq!(out, b"Hello, World!");
    assert_eq!(err, b"");

    let mut writer = VecWriter::new();
    let pgm = ">>>>>+[-->-[>>+>-----<<]<--<---]>-.>>>+.>>..+++[.>]<<<<.+++.------.<<-.>>>>+.";
    interpret2(lang, pgm, "", "", &mut writer);
    let (out, err) = writer.raw();
    assert_eq!(out, b"Hello, World!");
    assert_eq!(err, b"");

    let mut writer = VecWriter::new();
    let pgm = ",[..,]";
    interpret2(lang, pgm, "", "", &mut writer);
    let (out, err) = writer.raw();
    assert_eq!(out, b"");
    assert_eq!(err, b"");

    let mut writer = VecWriter::new();
    let pgm = ",[..,]";
    interpret2(lang, pgm, "Hello!", "", &mut writer);
    let (out, err) = writer.raw();
    assert_eq!(out, b"HHeelllloo!!");
    assert_eq!(err, b"");
}

#[test]
fn test_slashes() {
    let tests: &[(&str, &[u8])] = &[
        (r#"Hello, world!"#, b"Hello, world!"),
        (
            r#"/ world! world!/Hello,/ world! world! world!"#,
            b"Hello, world!",
        ),
        (
            r#"/a/\//ab/world!/ab world!/Hello, aworld! bworld!"#,
            b"Hello, world!",
        ),
        (
            r#"/1/0*//*0/0**//0//100010"#,
            b"**********************************",
        ),
        (
            r#"/*/>01//1>/1//10/01//011/1\0//01/_1//_///>0/>//>//**********************************"#,
            b"100010",
        ),
    ];

    let lang = "///";
    for (pgm, expected_out) in tests {
        let mut writer = VecWriter::new();
        interpret2(lang, pgm, "", "", &mut writer);
        let (out, err) = writer.raw();
        assert_eq!(out, *expected_out);
        assert_eq!(err, b"");
    }
}

#[derive(Debug, PartialEq, Eq, Clone)]
enum Call {
    Write(String, String),
    Terminate,
    TerminateWithError(String),
}

struct CallLog {
    calls: Vec<Call>,
}

impl CallLog {
    fn new() -> Self {
        Self { calls: vec![] }
    }
}

impl LangWriter for CallLog {
    fn write_both(&mut self, out: &str, err: &str) {
        self.calls.push(Call::Write(out.to_string(), err.to_string()));
    }
    fn terminate(&mut self) {
        self.calls.push(Call::Terminate);
    }
    fn terminate_with_error(&mut self, msg: &str) {
        self.calls.push(Call::TerminateWithError(msg.to_string()));
    }
}

fn calls_of(lang: &str, pgm: &str, input: &str, args: &str) -> Vec<Call> {
    let mut log = CallLog::new();
    interpret2(lang, pgm, input, args, &mut log);
    log.calls
}

fn out(text: &str) -> Call {
    Call::Write(text.to_string(), String::new())
}

#[test]
fn unknown_language_writes_error_then_fails() {
    let calls = calls_of("Befunge", "iiso", "", "");
    assert_eq!(
        calls,
        vec![
            Call::Write(String::new(), "Unknown lang: Befunge".to_string()),
            Call::TerminateWithError("Unknown lang: Befunge".to_string()),
        ]
    );
}

#[test]
fn unknown_language_with_help_argument_is_still_unknown() {
    let calls = calls_of("ExampleLang", "lang", "", "-h");
    assert_eq!(
        calls,
        vec![
            Call::Write(String::new(), "Unknown lang: ExampleLang".to_string()),
            Call::TerminateWithError("Unknown lang: ExampleLang".to_string()),
        ]
    );
}

#[test]
fn help_argument_shows_help_and_runs_nothing() {
    let calls = calls_of("Deadfish", "iiisoooo", "", "-h");
    assert_eq!(
        calls,
        vec![out(try_in_browser::lang::deadfish::HELP), Call::Terminate]
    );
    let calls = calls_of("brainfuck", "+[.]", "", "-h");
    assert_eq!(
        calls,
        vec![out(try_in_browser::lang::brainfuck::HELP), Call::Terminate]
    );
    let calls = calls_of("S10K", "", "", "-h");
    assert_eq!(
        calls,
        vec![out(try_in_browser::lang::s10k::HELP), Call::Terminate]
    );
    let calls = calls_of("///", "/a/a/a", "", "-h");
    assert_eq!(
        calls,
        vec![out(try_in_browser::lang::slashes::HELP), Call::Terminate]
    );
}

#[test]
fn help_texts_start_as_documented() {
    assert!(try_in_browser::lang::deadfish::HELP
        .starts_with("Deadfish (https://esolangs.org/wiki/Deadfish)\nAccepted arguments:\n"));
    assert!(try_in_browser::lang::deadfish::HELP.ends_with("-n    Output as number (default)\n"));
    assert!(try_in_browser::lang::brainfuck::HELP.ends_with("]    End of loop\n"));
    assert_eq!(
        try_in_browser::lang::s10k::HELP,
        "S10K, the first TIB-original language.\nPrints 10,000 copies of \"S\" and halts.\n"
    );
    assert!(try_in_browser::lang::slashes::HELP.ends_with("you can use `\\`.\n"));
}

#[test]
fn language_table_lists_four_languages() {
    let names = try_in_browser::lang::get_lang_names();
    assert_eq!(names, vec!["Deadfish", "brainfuck", "S10K", "///"]);
    assert_eq!(
        try_in_browser::lang::get_homepage2("Deadfish"),
        Some("https://esolangs.org/wiki/Deadfish")
    );
    assert_eq!(
        try_in_browser::lang::get_homepage2("brainfuck"),
        Some("https://esolangs.org/wiki/Brainfuck")
    );
    assert_eq!(
        try_in_browser::lang::get_homepage2("S10K"),
        Some("https://try-in-browser.netlify.app/")
    );
    assert_eq!(
        try_in_browser::lang::get_homepage2("///"),
        Some("https://esolangs.org/wiki////")
    );
    assert_eq!(try_in_browser::lang::get_homepage2("deadfish"), None);
    assert_eq!(try_in_browser::lang::get_help2("nope"), None);
    assert_eq!(
        try_in_browser::lang::get_help2("S10K"),
        Some(try_in_browser::lang::s10k::HELP)
    );
}

#[test]
fn deadfish_squares_and_prints() {
    // i i i -> 3, s -> 9, i i i -> 12, s -> 144, o prints it.
    let calls = calls_of("Deadfish", "iiisiiiso", "", "");
    assert_eq!(calls, vec![out("144\n"), Call::Terminate, Call::Terminate]);
    // The same counter printed twice on the way: 9, then 8 squared.
    let calls = calls_of("Deadfish", "iiisodso", "", "");
    assert_eq!(
        calls,
        vec![out("9\n"), out("64\n"), Call::Terminate, Call::Terminate]
    );
}

#[test]
fn deadfish_wraps_at_256_and_below_zero() {
    // 16 squared is 256, which is zero.
    let calls = calls_of("Deadfish", "iissso", "", "");
    assert_eq!(calls[0], out("0\n"));
    // Decrement at zero stays zero.
    let calls = calls_of("Deadfish", "do", "", "");
    assert_eq!(calls[0], out("0\n"));
    // 255 incremented is zero.
    let pgm = format!("{}o", "i".repeat(256));
    let calls = calls_of("Deadfish", &pgm, "", "");
    assert_eq!(calls[0], out("0\n"));
    // 257 decremented is zero: 17 squared is 289, minus 32 is 257.
    let pgm = format!("{}s{}odo", "i".repeat(17), "d".repeat(32));
    let calls = calls_of("Deadfish", &pgm, "", "");
    assert_eq!(calls[0], out("257\n"));
    assert_eq!(calls[1], out("0\n"));
}

#[test]
fn deadfish_char_output_is_modulo_256() {
    // 17 squared is 289; 289 modulo 256 is 33, an exclamation mark.
    let pgm = format!("{}so", "i".repeat(17));
    let calls = calls_of("Deadfish", &pgm, "", "-o");
    assert_eq!(calls[0], out("!"));
    // 15 squared is 225, a character beyond ASCII.
    let pgm = format!("{}so", "i".repeat(15));
    let calls = calls_of("Deadfish", &pgm, "", "-o");
    assert_eq!(calls[0], out("\u{e1}"));
}

#[test]
fn deadfish_counter_overflow_is_a_fault() {
    // 3, 9, 81, 6561, 43046721, and the next square does not fit.
    let calls = calls_of("Deadfish", "iiisssosso", "", "");
    assert_eq!(
        calls,
        vec![
            out("6561\n"),
            Call::TerminateWithError("interpreter fault: arithmetic overflow".to_string()),
        ]
    );
    let mut log = CallLog::new();
    let done = try_in_browser::lang::deadfish::interpret(
        "iiisssss",
        "",
        "",
        &mut log,
    );
    assert_eq!(done, Err(try_in_browser::lang::Fault::ArithmeticOverflow));
    assert_eq!(log.calls, vec![]);
    let mut log = CallLog::new();
    let done =
        try_in_browser::lang::deadfish::interpret("iiissss", "", "", &mut log);
    assert_eq!(done, Ok(()));
    assert_eq!(log.calls, vec![Call::Terminate]);
}

#[test]
fn brainfuck_reports_extra_close() {
    let calls = calls_of("brainfuck", "+.[-]]+.", "", "");
    assert_eq!(
        calls,
        vec![
            Call::TerminateWithError("Extra `]` found at index 5".to_string()),
            Call::Terminate,
        ]
    );
}

#[test]
fn brainfuck_reports_unclosed_loops() {
    let calls = calls_of("brainfuck", "[+[-]+[[", "", "");
    assert_eq!(
        calls,
        vec![
            Call::TerminateWithError(
                "Error: Missing closing `]`'s to correspond with `[`'s at indices [0, 6, 7]"
                    .to_string()
            ),
            Call::Terminate,
        ]
    );
    let calls = calls_of("brainfuck", "[", "", "");
    assert_eq!(
        calls[0],
        Call::TerminateWithError(
            "Error: Missing closing `]`'s to correspond with `[`'s at indices [0]".to_string()
        )
    );
}

#[test]
fn brainfuck_reports_left_end_of_tape() {
    let calls = calls_of("brainfuck", "+.><<", "", "");
    assert_eq!(
        calls,
        vec![
            out("\u{1}"),
            Call::TerminateWithError(
                "Error on `<` at index 5: Reached left end of tape".to_string()
            ),
            Call::Terminate,
        ]
    );
}

#[test]
fn brainfuck_cells_wrap_and_tape_grows() {
    // 0 - 1 is 255; 255 + 1 is 0.
    let calls = calls_of("brainfuck", "-.+.", "", "");
    assert_eq!(calls, vec![out("\u{ff}"), out("\u{0}"), Call::Terminate]);
    // Walk 250 cells to the right, past the first blocks of the tape.
    let pgm = format!("{}+.", ">".repeat(250));
    let calls = calls_of("brainfuck", &pgm, "", "");
    assert_eq!(calls, vec![out("\u{1}"), Call::Terminate]);
}

#[test]
fn brainfuck_reads_bytes_and_zero_at_end() {
    let calls = calls_of("brainfuck", ",.,.,.", "hi", "");
    assert_eq!(
        calls,
        vec![out("h"), out("i"), out("\u{0}"), Call::Terminate]
    );
}

#[test]
fn brainfuck_skips_nested_loops() {
    // The outer loop is skipped as a whole, with the loop inside it.
    let calls = calls_of("brainfuck", "[+[+]+]+.", "", "");
    assert_eq!(calls, vec![out("\u{1}"), Call::Terminate]);
    // The inner loop runs to zero, then the outer one ends too.
    let calls = calls_of("brainfuck", "++[>+++[-]<-]>.", "", "");
    assert_eq!(calls, vec![out("\u{0}"), Call::Terminate]);
}

#[test]
fn brainfuck_step_limit_is_a_fault() {
    let mut log = CallLog::new();
    let done = try_in_browser::lang::brainfuck::interpret_bounded(
        "+[.]",
        "",
        7,
        &mut log,
    );
    assert_eq!(done, Err(try_in_browser::lang::Fault::StepLimit));
    // +, [, then ., ] twice and . once more: three prints in seven steps.
    assert_eq!(log.calls, vec![out("\u{1}"), out("\u{1}"), out("\u{1}")]);
    let mut log = CallLog::new();
    let done = try_in_browser::lang::brainfuck::interpret_bounded(
        "+.",
        "",
        2,
        &mut log,
    );
    assert_eq!(done, Ok(()));
    let mut log = CallLog::new();
    let done = try_in_browser::lang::brainfuck::interpret_bounded(
        "+.",
        "",
        1,
        &mut log,
    );
    assert_eq!(done, Err(try_in_browser::lang::Fault::StepLimit));
    assert_eq!(log.calls, vec![]);
}

#[test]
fn job_step_limit_ends_with_error() {
    let mut log = CallLog::new();
    try_in_browser::lang::interpret2_bounded(
        "brainfuck",
        "+[]",
        "",
        "",
        100,
        &mut log,
    );
    assert_eq!(
        log.calls,
        vec![Call::TerminateWithError(
            "interpreter fault: step limit exceeded".to_string()
        )]
    );
}

#[test]
fn slashes_escapes_and_lone_backslash() {
    let calls = calls_of("///", "a\\/b\\\\c\\", "", "");
    assert_eq!(
        calls,
        vec![out("a"), out("/"), out("b"), out("\\"), out("c"), Call::Terminate]
    );
}

#[test]
fn slashes_unfinished_substitution_prints_nothing_more() {
    let calls = calls_of("///", "ab/cd/ef", "", "");
    assert_eq!(calls, vec![out("a"), out("b"), Call::Terminate]);
}

#[test]
fn slashes_empty_pattern_never_ends() {
    let mut log = CallLog::new();
    let done = try_in_browser::lang::slashes::interpret_bounded(
        "x//y/z",
        1000,
        &mut log,
    );
    assert_eq!(done, Err(try_in_browser::lang::Fault::StepLimit));
    assert_eq!(log.calls, vec![out("x")]);
}

#[test]
fn slashes_growing_program_hits_step_limit() {
    let mut log = CallLog::new();
    let done = try_in_browser::lang::slashes::interpret_bounded(
        "/a/aa/a",
        20,
        &mut log,
    );
    assert_eq!(done, Err(try_in_browser::lang::Fault::StepLimit));
    assert_eq!(log.calls, vec![]);
}

#[test]
fn slashes_replaces_from_the_left_without_overlap() {
    let text: Vec<char> = "aaaa".chars().collect();
    let patt: Vec<char> = "aa".chars().collect();
    let repl: Vec<char> = "b".chars().collect();
    let replaced = try_in_browser::lang::slashes::repl_if_needed(&text, &patt, &repl);
    assert_eq!(replaced, Some("bb".chars().collect::<Vec<char>>()));
    let text: Vec<char> = "aaa".chars().collect();
    let replaced = try_in_browser::lang::slashes::repl_if_needed(&text, &patt, &repl);
    assert_eq!(replaced, Some("ba".chars().collect::<Vec<char>>()));
    let text: Vec<char> = "xyz".chars().collect();
    let replaced = try_in_browser::lang::slashes::repl_if_needed(&text, &patt, &repl);
    assert_eq!(replaced, None);
    // An empty pattern stands everywhere.
    let none: Vec<char> = Vec::new();
    let replaced = try_in_browser::lang::slashes::repl_if_needed(&text, &none, &repl);
    assert_eq!(replaced, Some("bxbybzb".chars().collect::<Vec<char>>()));
}

#[test]
fn s10k_writes_once_and_halts() {
    let calls = calls_of("S10K", "anything", "ignored", "-x");
    assert_eq!(
        calls,
        vec![out(&"S".repeat(10000)), Call::Terminate, Call::Terminate]
    );
}

#[test]
fn example_lang_fast_program() {
    let mut log = CallLog::new();
    let done = try_in_browser::lang::example_lang::interpret(
        "lang",
        "",
        "",
        &mut log,
    );
    assert_eq!(done, Ok(()));
    assert_eq!(log.calls.len(), 41);
    assert_eq!(log.calls[0], Call::Write("S".to_string(), "0".to_string()));
    assert_eq!(log.calls[17], Call::Write("S".to_string(), "17".to_string()));
    assert_eq!(log.calls[39], Call::Write("S".to_string(), "39".to_string()));
    assert_eq!(log.calls[40], Call::Terminate);
}

#[test]
fn example_lang_slow_program_and_crasher() {
    let mut log = CallLog::new();
    let done = try_in_browser::lang::example_lang::interpret(
        "slow",
        "",
        "",
        &mut log,
    );
    assert_eq!(done, Ok(()));
    assert_eq!(log.calls.len(), 41);
    assert_eq!(log.calls[0], Call::Write("S".to_string(), "0".to_string()));
    assert_eq!(log.calls[13], Call::Write("S".to_string(), "3".to_string()));
    assert_eq!(log.calls[39], Call::Write("S".to_string(), "9".to_string()));
    assert_eq!(log.calls[40], Call::Terminate);

    let mut log = CallLog::new();
    let done = try_in_browser::lang::example_lang::interpret(
        "crasher",
        "",
        "",
        &mut log,
    );
    assert_eq!(done, Err(try_in_browser::lang::Fault::Crashed));
    assert_eq!(log.calls.len(), 40);
    assert_eq!(log.calls[39], Call::Write("S".to_string(), "9".to_string()));
}

#[test]
fn example_lang_looper_is_cut_off() {
    let mut log = CallLog::new();
    let done = try_in_browser::lang::example_lang::interpret_bounded(
        "looper",
        20_000_001,
        &mut log,
    );
    assert_eq!(done, Err(try_in_browser::lang::Fault::StepLimit));
    assert_eq!(
        log.calls,
        vec![
            Call::Write("S".to_string(), "0".to_string()),
            Call::Write("S".to_string(), "1".to_string()),
            Call::Write("S".to_string(), "2".to_string()),
        ]
    );
}

#[test]
fn example_lang_talker_is_cut_off() {
    let mut log = CallLog::new();
    let done = try_in_browser::lang::example_lang::interpret_bounded(
        "talker",
        201,
        &mut log,
    );
    assert_eq!(done, Err(try_in_browser::lang::Fault::StepLimit));
    assert_eq!(
        log.calls,
        vec![
            out("S"),
            Call::Write(String::new(), "0".to_string()),
            out("S"),
            out("S"),
        ]
    );
}

#[test]
fn example_lang_unrecognized_program() {
    let mut log = CallLog::new();
    let done = try_in_browser::lang::example_lang::interpret(
        "other",
        "",
        "",
        &mut log,
    );
    assert_eq!(done, Ok(()));
    assert_eq!(
        log.calls,
        vec![Call::Write(
            String::new(),
            "Unrecognized program: other".to_string()
        )]
    );
}

#[test]
fn fault_messages() {
    assert_eq!(
        Fault::StepLimit.message(),
        "interpreter fault: step limit exceeded"
    );
    assert_eq!(
        Fault::ArithmeticOverflow.message(),
        "interpreter fault: arithmetic overflow"
    );
    assert_eq!(Fault::Crashed.message(), "interpreter fault: crashed");
}
