use executor::box_id::BoxIdManager;
use executor::classify::{JudgeStatus, StepFailure};
use executor::config::{AppConfig, ConfigError, RawLanguage, SubmissionDefaults, WorkerConfig};
use executor::model::{Language, LanguageConfig, NatsSubmission, NewSubmission, StringError, SubmissionStatus};
use executor::sandbox::{format_seconds, join_path, Sandbox, SandboxError};
use executor::text::{format_i32, parse_i32, parse_u64, sanitize, substitute, trim_end_text, trim_text};
use executor::worker::{Phase, Worker, WorkerAction, WorkerEvent};

fn job(language: LanguageConfig) -> NatsSubmission {
    NatsSubmission {
        id: "j".to_string(),
        source_code: "int main(){}".to_string(),
        language,
        compiler_options: Some("-O2; rm -rf / | cat `x` $HOME & <in >out".to_string()),
        command_line_arguments: Some("a;b".to_string()),
        stdin: Some("5 6\n".to_string()),
        expected_output: None,
        cpu_time_limit_ms: Some(1500),
        cpu_extra_time_ms: None,
        wall_time_limit_ms: Some(250),
        memory_limit: None,
        stack_limit: None,
        max_processes_and_or_threads: Some(8),
        enable_per_process_and_thread_time_limit: None,
        enable_per_process_and_thread_memory_limit: None,
        max_file_size: None,
        redirect_stderr_to_stdout: None,
        enable_network: None,
        number_of_runs: None,
        additional_files: None,
        callback_url: None,
    }
}

fn cpp() -> LanguageConfig {
    LanguageConfig {
        name: "cpp".to_string(),
        source_file: "main.cpp".to_string(),
        file_extension: "cpp".to_string(),
        compile_cmd: Some("g++ %s -o main main.cpp".to_string()),
        run_cmd: "./main".to_string(),
        allow_network: false,
    }
}

#[test]
fn sandbox_paths_from_init_output() {
    let sb = Sandbox::new(7, true, "  /var/lib/isolate/7\n").unwrap();
    assert_eq!(sb.box_id, 7);
    assert_eq!(sb.workdir, "/var/lib/isolate/7");
    assert_eq!(sb.boxdir, "/var/lib/isolate/7/box");
    assert_eq!(sb.tmpdir, "/var/lib/isolate/7/tmp");
    assert_eq!(sb.metadata_file, "/var/lib/isolate/7/metadata.txt");
    assert_eq!(sb.stdin_file, "/var/lib/isolate/7/stdin.txt");
    assert_eq!(sb.stdout_file, "/var/lib/isolate/7/stdout.txt");
    assert_eq!(sb.stderr_file, "/var/lib/isolate/7/stderr.txt");
    assert_eq!(sb.source_path(&cpp()), "/var/lib/isolate/7/box/main.cpp");
    assert_eq!(Sandbox::init_args(7), vec!["isolate", "--cg", "-b", "7", "--init"]);
}

#[test]
fn sandbox_init_errors() {
    assert_eq!(Sandbox::new(1, false, "/x").unwrap_err(), SandboxError::InitFailed);
    assert_eq!(Sandbox::new(1, true, "  \n").unwrap_err(), SandboxError::WorkdirUnparseable);
    assert_eq!(Sandbox::new(1, true, "relative/dir").unwrap_err(), SandboxError::WorkdirUnparseable);
    let sb = Sandbox::new(1, true, "/w").unwrap();
    assert_eq!(sb.read_metadata(None).unwrap_err(), SandboxError::MetadataMissing);
}

#[test]
fn compile_plan_substitutes_sanitised_options() {
    let sb = Sandbox::new(12, true, "/w/12/").unwrap();
    let sub = job(cpp());
    let plan = sb.compile(&sub).unwrap();
    assert_eq!(plan.script_file, "/w/12/box/compile.sh");
    assert_eq!(plan.script, "g++ -O2 rm -rf /  cat x HOME  in out -o main main.cpp\n");
    assert_eq!(plan.current_dir, "/w/12/box");
    let expected = vec![
        "isolate", "--cg", "-b", "12", "-M", "/w/12/metadata.txt", "--stderr-to-stdout", "-i",
        "/dev/null", "-t", "2", "-x", "0", "-w", "4", "-k", "67108864", "-m", "262144", "-f",
        "1024", "--run", "--", "/bin/bash", "compile.sh",
    ];
    assert_eq!(plan.args, expected);
    let mut interpreted = job(cpp());
    interpreted.language.compile_cmd = None;
    assert!(sb.compile(&interpreted).is_none());
}

#[test]
fn run_plan_uses_limits_and_defaults() {
    let sb = Sandbox::new(4, true, "/w/4").unwrap();
    let plan = sb.run(&job(cpp()));
    assert_eq!(plan.script_file, "/w/4/box/run.sh");
    assert_eq!(plan.script, "./main ab\n");
    let expected = vec![
        "isolate", "--cg", "--silent", "-b", "4", "-M", "/w/4/metadata.txt", "-t", "1.5", "-x",
        "1", "-w", "0.25", "-k", "67108864", "-p8", "-m", "262144", "-f", "1024", "--run", "--",
        "/bin/bash", "run.sh",
    ];
    assert_eq!(plan.args, expected);
    assert_eq!(plan.stdin_file.as_deref(), Some("/w/4/stdin.txt"));
    assert_eq!(plan.stdout_file.as_deref(), Some("/w/4/stdout.txt"));
    assert_eq!(plan.stderr_file.as_deref(), Some("/w/4/stderr.txt"));
    let compile = sb.compile(&job(cpp())).unwrap();
    assert_eq!(compile.stdin_file, None);
    assert_eq!(compile.stdout_file, None);
}

#[test]
fn stage_writes_source_and_stdin() {
    let sb = Sandbox::new(2, true, "/w/2").unwrap();
    let mut sub = job(cpp());
    let files = sb.stage(&sub);
    assert_eq!(files.len(), 2);
    assert_eq!(files[0], ("/w/2/box/main.cpp".to_string(), "int main(){}".to_string()));
    assert_eq!(files[1], ("/w/2/stdin.txt".to_string(), "5 6\n".to_string()));
    sub.stdin = None;
    let files = sb.stage(&sub);
    assert_eq!(files[1], ("/w/2/stdin.txt".to_string(), String::new()));
    assert_eq!(Some(files[1].0.as_str()), sb.run(&sub).stdin_file.as_deref());
}

#[test]
fn unicode_whitespace_output_is_absent() {
    for blank in ["\u{a0}", "\u{b}", "\u{85}", "\u{3000}", " \u{2028}\n"] {
        let out = Sandbox::read_output(Some(blank.to_string()), Some(blank.to_string()));
        assert_eq!(out.stdout, None);
        assert_eq!(out.stderr, None);
    }
    let out = Sandbox::read_output(Some("\u{a0}x\u{a0}".to_string()), None);
    assert_eq!(out.stdout.as_deref(), Some("\u{a0}x\u{a0}"));
    let sb = Sandbox::new(5, true, "\u{a0}/w/5\u{3000}\n").unwrap();
    assert_eq!(sb.workdir, "/w/5");
    assert_eq!(trim_text("\u{a0}\u{b}a b\u{2003}"), "a b");
    assert_eq!(trim_end_text("cmd\u{a0}\n"), "cmd");
}

#[test]
fn step_failures_have_verdicts() {
    assert_eq!(StepFailure::FileStaging.verdict(), JudgeStatus::InternalError);
    assert_eq!(StepFailure::SandboxInit.verdict(), JudgeStatus::BoxError);
    assert_eq!(StepFailure::JailerLaunch.verdict(), JudgeStatus::BoxError);
    assert_eq!(StepFailure::Timeout.verdict(), JudgeStatus::BoxError);
    assert_eq!(StepFailure::MetadataMissing.verdict(), JudgeStatus::BoxError);
}

#[test]
fn box_ids_wrap_at_configured_max() {
    let mut m = BoxIdManager::with_max(3);
    assert_eq!(m.get_next_id(), Some(0));
    assert_eq!(m.get_next_id(), Some(1));
    assert_eq!(m.get_next_id(), Some(2));
    m.release(0);
    m.release(1);
    m.release(2);
    assert_eq!(m.get_next_id(), Some(3));
    assert_eq!(m.get_next_id(), Some(0));
}

#[test]
fn cleanup_commands() {
    let sb = Sandbox::new(9, true, "/w/9").unwrap();
    let cmds = sb.cleanup();
    assert_eq!(cmds.len(), 4);
    assert_eq!(cmds[0], vec!["rm", "-rf", "/w/9/box"]);
    assert_eq!(cmds[1], vec!["rm", "-rf", "/w/9/tmp"]);
    assert_eq!(cmds[2], vec!["rm", "-rf", "/w/9/metadata.txt"]);
    assert_eq!(cmds[3], vec!["isolate", "--cg", "-b", "9", "--cleanup"]);
}

#[test]
fn empty_stdin_gives_empty_file() {
    let mut sub = job(cpp());
    assert_eq!(Sandbox::stdin_contents(&sub), "5 6\n");
    sub.stdin = None;
    assert_eq!(Sandbox::stdin_contents(&sub), "");
}

#[test]
fn blank_output_is_absent() {
    let out = Sandbox::read_output(Some(" \n\t".to_string()), Some("err".to_string()));
    assert_eq!(out.stdout, None);
    assert_eq!(out.stderr.as_deref(), Some("err"));
    let out = Sandbox::read_output(None, Some(String::new()));
    assert_eq!(out.stdout, None);
    assert_eq!(out.stderr, None);
}

#[test]
fn text_helpers() {
    assert_eq!(sanitize("a$b&c;d<e>f|g`h"), "abcdefgh");
    assert_eq!(substitute("cc %s -o %s%", "-O2"), "cc -O2 -o -O2%");
    assert_eq!(substitute("%%s", "X"), "%X");
    assert_eq!(trim_text(" \t a b \r\n"), "a b");
    assert_eq!(trim_end_text("  cmd \n"), "  cmd");
    assert_eq!(format_i32(-42), "-42");
    assert_eq!(format_i32(i32::MIN), "-2147483648");
    assert_eq!(format_seconds(2000), "2");
    assert_eq!(format_seconds(1020), "1.02");
    assert_eq!(format_seconds(5), "0.005");
    assert_eq!(join_path("/a/", "b"), "/a/b");
    assert_eq!(join_path("/a", "b"), "/a/b");
}

#[test]
fn number_parsing() {
    assert_eq!(parse_i32("11"), Some(11));
    assert_eq!(parse_i32("+7"), Some(7));
    assert_eq!(parse_i32("-2147483648"), Some(i32::MIN));
    assert_eq!(parse_i32("2147483648"), None);
    assert_eq!(parse_i32("-"), None);
    assert_eq!(parse_i32("1a"), None);
    assert_eq!(parse_i32(""), None);
    assert_eq!(parse_u64("18446744073709551615"), Some(u64::MAX));
    assert_eq!(parse_u64("18446744073709551616"), None);
    assert_eq!(parse_u64("+1"), None);
}

#[test]
fn box_ids_wrap_and_skip_held() {
    let mut m = BoxIdManager::with_max(2);
    assert_eq!(m.get_next_id(), Some(0));
    assert_eq!(m.get_next_id(), Some(1));
    assert_eq!(m.get_next_id(), Some(2));
    assert_eq!(m.get_next_id(), None);
    m.release(1);
    assert!(!m.is_held(1));
    assert!(m.is_held(0));
    assert_eq!(m.get_next_id(), Some(1));
    m.release(0);
    m.release(2);
    assert_eq!(m.get_next_id(), Some(2));
    assert_eq!(m.get_next_id(), Some(0));
    let mut d = BoxIdManager::new();
    assert_eq!(d.get_next_id(), Some(0));
}

#[test]
fn worker_handles_one_submission() {
    let mut w = Worker::new();
    assert_eq!(w.step(WorkerEvent::Ready), WorkerAction::Pull);
    assert_eq!(w.step(WorkerEvent::QueueEmpty), WorkerAction::Sleep(100));
    assert_eq!(w.step(WorkerEvent::QueueError), WorkerAction::Sleep(1000));
    assert_eq!(w.step(WorkerEvent::Delivered(true)), WorkerAction::AllocateBox);
    assert!(w.holding);
    assert_eq!(w.step(WorkerEvent::Delivered(true)), WorkerAction::Nothing);
    assert_eq!(w.step(WorkerEvent::Allocated(Some(5))), WorkerAction::InitSandbox(5));
    assert_eq!(w.step(WorkerEvent::Succeeded), WorkerAction::StageFiles);
    assert!(w.sandbox_live);
    assert_eq!(w.step(WorkerEvent::Succeeded), WorkerAction::Compile);
    assert_eq!(w.step(WorkerEvent::Failed), WorkerAction::Cleanup);
    assert_eq!(w.step(WorkerEvent::Succeeded), WorkerAction::Persist);
    assert!(!w.sandbox_live);
    assert_eq!(w.step(WorkerEvent::Succeeded), WorkerAction::Ack);
    assert_eq!(w.step(WorkerEvent::Succeeded), WorkerAction::Release(5));
    assert!(!w.holding);
    assert_eq!(w.step(WorkerEvent::Succeeded), WorkerAction::Pull);
    assert_eq!(w.phase, Phase::Idle);
}

#[test]
fn worker_acks_malformed_payload() {
    let mut w = Worker::new();
    assert_eq!(w.step(WorkerEvent::Ready), WorkerAction::Pull);
    assert_eq!(w.step(WorkerEvent::Delivered(false)), WorkerAction::Ack);
    assert!(!w.sandbox_live);
    assert_eq!(w.box_id, None);
    assert_eq!(w.step(WorkerEvent::Succeeded), WorkerAction::Pull);
    assert_eq!(w, Worker::new());
}

#[test]
fn language_names() {
    assert_eq!(Language::all(), vec![Language::Rust, Language::Python, Language::Cpp, Language::C]);
    assert_eq!(Language::parse("cpp"), Some(Language::Cpp));
    assert_eq!(Language::parse("java"), None);
    for l in Language::all() {
        assert_eq!(Language::parse(l.name()), Some(l));
    }
    assert_eq!(SubmissionStatus::parse("wronganswer"), Some(SubmissionStatus::WrongAnswer));
    assert_eq!(SubmissionStatus::parse("Accepted"), None);
    assert_eq!(SubmissionStatus::RuntimeErrorSigsegv.name(), "runtimeerrorsigsegv");
    assert_eq!(StringError::new("boom").message(), "boom");
}

fn raw(run: Option<&str>, run_file: Option<&str>) -> RawLanguage {
    RawLanguage {
        name: "py".to_string(),
        source_file: "main.py".to_string(),
        file_extension: "py".to_string(),
        compile_cmd: None,
        compile_cmd_file: None,
        run_cmd: run.map(|s| s.to_string()),
        run_cmd_file: run_file.map(|s| s.to_string()),
        allow_network: true,
    }
}

#[test]
fn language_resolution() {
    let l = raw(Some("python3 main.py"), Some("ignored.sh")).into_resolved(None, None).unwrap();
    assert_eq!(l.run_cmd, "python3 main.py");
    assert_eq!(l.compile_cmd, None);
    assert!(l.allow_network);
    let l = raw(None, Some("run.sh")).into_resolved(None, Some("python3 x.py \n\n".to_string())).unwrap();
    assert_eq!(l.run_cmd, "python3 x.py");
    match raw(None, None).into_resolved(None, None) {
        Err(ConfigError::MissingRunCommand(n)) => assert_eq!(n, "py"),
        _ => panic!("a missing run command must be refused"),
    }
    match raw(None, Some("run.sh")).into_resolved(None, None) {
        Err(ConfigError::CommandFileUnreadable(p)) => assert_eq!(p, "run.sh"),
        _ => panic!("an unreadable file must be refused"),
    }
    let mut r = raw(Some("./a"), None);
    r.compile_cmd_file = Some("cc.sh".to_string());
    let l = r.into_resolved(Some("gcc %s\n".to_string()), None).unwrap();
    assert_eq!(l.compile_cmd.as_deref(), Some("gcc %s"));
}

#[test]
fn app_config_lookup() {
    let c = AppConfig {
        submission_defaults: SubmissionDefaults::default(),
        languages: vec![
            raw(Some("a"), None).into_resolved(None, None).unwrap(),
            LanguageConfig { name: "c".to_string(), ..raw(Some("b"), None).into_resolved(None, None).unwrap() },
        ],
    };
    assert_eq!(c.get_language("c").unwrap().run_cmd, "b");
    assert!(c.get_language("rust").is_none());
    assert_eq!(c.get_language_names(), vec!["py", "c"]);
    let d = SubmissionDefaults::default();
    assert_eq!((d.cpu_time_limit_ms, d.wall_time_limit_ms, d.memory_limit, d.number_of_runs, d.enable_network), (2000, 5000, 128000, 1, false));
    assert_eq!(WorkerConfig::default().worker_count(6), 6);
    assert_eq!(WorkerConfig { num_workers: 3 }.worker_count(6), 3);
}

#[test]
fn queued_job_from_new_submission() {
    let ns = NewSubmission {
        source_code: "print(1)".to_string(),
        language: Language::Python,
        compiler_options: None,
        command_line_arguments: Some("-v".to_string()),
        stdin: Some("in".to_string()),
        expected_output: Some("1".to_string()),
        cpu_time_limit_ms: Some(1000),
        cpu_extra_time_ms: None,
        wall_time_limit_ms: Some(3000),
        memory_limit: Some(65536),
        stack_limit: None,
        max_processes_and_or_threads: Some(4),
        enable_per_process_and_thread_time_limit: None,
        enable_per_process_and_thread_memory_limit: None,
        max_file_size: Some(10),
        redirect_stderr_to_stdout: Some(true),
        enable_network: Some(false),
        number_of_runs: Some(1),
        additional_files: None,
        callback_url: Some("http://cb".to_string()),
    };
    let job = NatsSubmission::from_new("id-9".to_string(), ns, cpp());
    assert_eq!(job.id, "id-9");
    assert_eq!(job.language.name, "cpp");
    assert_eq!(job.source_code, "print(1)");
    assert_eq!(job.command_line_arguments.as_deref(), Some("-v"));
    assert_eq!(job.cpu_time_limit_ms, Some(1000));
    assert_eq!(job.wall_time_limit_ms, Some(3000));
    assert_eq!(job.memory_limit, Some(65536));
    assert_eq!(job.max_file_size, Some(10));
    assert_eq!(job.callback_url.as_deref(), Some("http://cb"));
}
