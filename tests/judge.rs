use executor::classify::{classify, determine_status, JudgeStatus, ResourceUsage};
use executor::metadata::Metadata;
use executor::model::{LanguageConfig, NatsSubmission, SubmissionStatus};
use executor::sandbox::{CompileOutcome, ProgramOutput, Sandbox, SandboxError};

fn lang(name: &str, compile: Option<&str>, run: &str) -> LanguageConfig {
    LanguageConfig {
        name: name.to_string(),
        source_file: format!("main.{}", name),
        file_extension: name.to_string(),
        compile_cmd: compile.map(|c| c.to_string()),
        run_cmd: run.to_string(),
        allow_network: false,
    }
}

fn submission(language: LanguageConfig, source: &str, expected: Option<&str>) -> NatsSubmission {
    NatsSubmission {
        id: "job-1".to_string(),
        source_code: source.to_string(),
        language,
        compiler_options: None,
        command_line_arguments: None,
        stdin: None,
        expected_output: expected.map(|e| e.to_string()),
        cpu_time_limit_ms: None,
        cpu_extra_time_ms: None,
        wall_time_limit_ms: None,
        memory_limit: None,
        stack_limit: None,
        max_processes_and_or_threads: None,
        enable_per_process_and_thread_time_limit: None,
        enable_per_process_and_thread_memory_limit: None,
        max_file_size: None,
        redirect_stderr_to_stdout: None,
        enable_network: None,
        number_of_runs: None,
        additional_files: None,
        callback_url: None,
    }
}

fn output(stdout: &str) -> ProgramOutput {
    Sandbox::read_output(Some(stdout.to_string()), None)
}

fn python() -> LanguageConfig {
    lang("python", None, "python3 main.py")
}

#[test]
fn python_print_sum_accepted() {
    let sub = submission(python(), "print(1+1)", Some("2"));
    let out = output("2\n");
    assert_eq!(out.stdout.as_deref(), Some("2\n"));
    let meta = Metadata::parse("status:OK\ntime:0.010\n");
    assert_eq!(determine_status(&sub, &out, &meta), JudgeStatus::Accepted);
}

#[test]
fn cpp_infinite_loop_time_limit() {
    let mut sub = submission(lang("cpp", Some("g++ %s main.cpp"), "./a.out"), "int main(){while(1);}", None);
    sub.cpu_time_limit_ms = Some(1000);
    let sb = Sandbox::new(3, true, "/var/local/lib/isolate/3\n").unwrap();
    let plan = sb.run(&sub);
    assert_eq!(plan.args[7], "-t");
    assert_eq!(plan.args[8], "1");
    let meta = Metadata::parse("status:TO\ntime:1.02\n");
    assert_eq!(ResourceUsage::from_metadata(&meta).time_ms, Some(1020));
    let v = classify(&sub, &CompileOutcome::Success, &ProgramOutput { stdout: None, stderr: None }, &Ok(meta));
    assert_eq!(v, JudgeStatus::TimeLimitExceeded);
}

#[test]
fn c_null_write_signal() {
    let sub = submission(lang("c", Some("gcc %s main.c"), "./a.out"), "int main(){*(int*)0=0;}", None);
    let meta = Metadata::parse("status:SG\nexitsig:11\n");
    assert_eq!(determine_status(&sub, &output(""), &meta), JudgeStatus::SignalError(11));
}

#[test]
fn signal_without_number_is_zero() {
    let sub = submission(python(), "x", None);
    let meta = Metadata::parse("status:SG\nexitsig:abc\n");
    assert_eq!(determine_status(&sub, &output(""), &meta), JudgeStatus::SignalError(0));
    let meta = Metadata::parse("status:SG\n");
    assert_eq!(determine_status(&sub, &output(""), &meta), JudgeStatus::SignalError(0));
}

#[test]
fn rust_syntax_error_compilation_error() {
    let sub = submission(lang("rust", Some("rustc %s main.rs"), "./main"), "fn main(){", None);
    let compiled = Sandbox::compile_outcome(false, "error: this file contains an unclosed delimiter".to_string());
    match &compiled {
        CompileOutcome::Failed(text) => assert!(text.contains("unclosed delimiter")),
        _ => panic!("compile should have failed"),
    }
    let v = classify(&sub, &compiled, &output(""), &Err(SandboxError::MetadataMissing));
    assert_eq!(v, JudgeStatus::CompilationError);
}

#[test]
fn python_hi_without_stdin_accepted() {
    let sub = submission(python(), "print(\"hi\")", Some("hi\n"));
    assert_eq!(Sandbox::stdin_contents(&sub), "");
    let meta = Metadata::parse("status:OK\n");
    assert_eq!(determine_status(&sub, &output("hi\n"), &meta), JudgeStatus::Accepted);
}

#[test]
fn no_expected_output_accepted() {
    let sub = submission(python(), "print(5)", None);
    let meta = Metadata::parse("exitcode:0\n");
    assert_eq!(determine_status(&sub, &output("anything"), &meta), JudgeStatus::Accepted);
}

#[test]
fn trailing_whitespace_accepted() {
    let sub = submission(python(), "x", Some("1 2 3\n\n  "));
    let meta = Metadata::parse("status:OK\n");
    assert_eq!(determine_status(&sub, &output("1 2 3"), &meta), JudgeStatus::Accepted);
}

#[test]
fn interior_whitespace_wrong_answer() {
    let sub = submission(python(), "x", Some("1 2 3"));
    let meta = Metadata::parse("status:OK\n");
    assert_eq!(determine_status(&sub, &output("1  2 3"), &meta), JudgeStatus::WrongAnswer);
}

#[test]
fn absent_stdout_compares_as_empty() {
    let sub = submission(python(), "x", Some("  \n"));
    let meta = Metadata::parse("status:OK\n");
    let out = ProgramOutput { stdout: None, stderr: None };
    assert_eq!(determine_status(&sub, &out, &meta), JudgeStatus::Accepted);
    let sub = submission(python(), "x", Some("x"));
    assert_eq!(determine_status(&sub, &out, &meta), JudgeStatus::WrongAnswer);
}

#[test]
fn runtime_and_box_errors() {
    let sub = submission(python(), "x", Some("1"));
    assert_eq!(determine_status(&sub, &output("1"), &Metadata::parse("status:RE\n")), JudgeStatus::RuntimeError);
    assert_eq!(determine_status(&sub, &output("1"), &Metadata::parse("status:XX\n")), JudgeStatus::BoxError);
    let v = classify(&sub, &CompileOutcome::Skipped, &output("1"), &Err(SandboxError::MetadataMissing));
    assert_eq!(v, JudgeStatus::BoxError);
}

#[test]
fn classifier_is_deterministic() {
    let sub = submission(python(), "x", Some("7"));
    let meta = Metadata::parse("status:OK\n");
    let a = determine_status(&sub, &output("7 "), &meta);
    let b = determine_status(&sub, &output("7 "), &meta);
    assert_eq!(a, b);
}

#[test]
fn metadata_parse_trims_and_overwrites() {
    let meta = Metadata::parse("  status : RE \nno colon here\nexitcode:1\nstatus:OK\r\nmessage:a:b");
    assert_eq!(meta.get("status").as_deref(), Some("OK"));
    assert_eq!(meta.get("exitcode").as_deref(), Some("1"));
    assert_eq!(meta.get("message").as_deref(), Some("a:b"));
    assert_eq!(meta.get("missing"), None);
    assert_eq!(meta.entries.len(), 4);
    let meta = Metadata::parse("status:\u{a0}OK\u{3000}\n");
    assert_eq!(meta.get("status").as_deref(), Some("OK"));
}

#[test]
fn resource_usage_prefers_cg_mem() {
    let meta = Metadata::parse("max-rss:100\ncg-mem:250\nexitcode:3\nexitsig:x\n");
    let u = ResourceUsage::from_metadata(&meta);
    assert_eq!(u.memory, Some(250));
    assert_eq!(u.exit_code, Some(3));
    assert_eq!(u.exit_signal, None);
    let u = ResourceUsage::from_metadata(&Metadata::parse("max-rss:100\n"));
    assert_eq!(u.memory, Some(100));
    assert_eq!(u.time_ms, None);
    let u = ResourceUsage::from_metadata(&Metadata::parse("time:0.0345\ntime-wall:12\n"));
    assert_eq!(u.time_ms, Some(34));
    assert_eq!(u.wall_time_ms, Some(12000));
    let u = ResourceUsage::from_metadata(&Metadata::parse("time:1.\ntime-wall:.5\n"));
    assert_eq!(u.time_ms, None);
    assert_eq!(u.wall_time_ms, None);
}

#[test]
fn verdicts_map_to_stored_statuses() {
    assert_eq!(JudgeStatus::SignalError(11).submission_status(), SubmissionStatus::RuntimeErrorSigsegv);
    assert_eq!(JudgeStatus::SignalError(25).submission_status(), SubmissionStatus::RuntimeErrorSigxfsz);
    assert_eq!(JudgeStatus::SignalError(8).submission_status(), SubmissionStatus::RuntimeErrorSigfpe);
    assert_eq!(JudgeStatus::SignalError(6).submission_status(), SubmissionStatus::RuntimeErrorSigabrt);
    assert_eq!(JudgeStatus::SignalError(9).submission_status(), SubmissionStatus::RuntimeErrorOther);
    assert_eq!(JudgeStatus::RuntimeError.submission_status(), SubmissionStatus::RuntimeErrorNzec);
    assert_eq!(JudgeStatus::BoxError.submission_status(), SubmissionStatus::InternalError);
    assert_eq!(JudgeStatus::Accepted.submission_status(), SubmissionStatus::Accepted);
    assert_eq!(JudgeStatus::CompilationError.submission_status(), SubmissionStatus::CompilationError);
}

#[test]
fn supervision_timeout() {
    let mut sub = submission(python(), "x", None);
    assert_eq!(Sandbox::supervision_timeout_ms(&sub), 10000);
    sub.wall_time_limit_ms = Some(2500);
    sub.cpu_extra_time_ms = Some(500);
    assert_eq!(Sandbox::supervision_timeout_ms(&sub), 8000);
    sub.wall_time_limit_ms = Some(u64::MAX);
    assert_eq!(Sandbox::supervision_timeout_ms(&sub), u64::MAX);
}
