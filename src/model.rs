//! Submissions, languages and statuses.
use vstd::prelude::*;
use crate::text::same_text;

verus! {

/// An error that carries only a message.
pub struct StringError(pub String);

impl StringError {
    pub fn new(e: &str) -> (r: StringError)
        ensures
            r.0@ == e@,
    {
        StringError(e.to_string())
    }

    /// The message, as `Display` would show it.
    pub fn message(&self) -> (r: String)
        ensures
            r@ == self.0@,
    {
        self.0.clone()
    }
}

/// The lifecycle and verdict states of a stored submission.
#[derive(Clone, Copy, Debug, PartialEq, Eq, Structural)]
pub enum SubmissionStatus {
    InQueue,
    Processing,
    Accepted,
    WrongAnswer,
    TimeLimitExceeded,
    CompilationError,
    RuntimeErrorSigsegv,
    RuntimeErrorSigxfsz,
    RuntimeErrorSigfpe,
    RuntimeErrorSigabrt,
    RuntimeErrorNzec,
    RuntimeErrorOther,
    InternalError,
    ExecFormatError,
}

/// The lower-case name under which a status is stored.
pub open spec fn status_name(s: SubmissionStatus) -> Seq<char> {
    match s {
        SubmissionStatus::InQueue => "inqueue"@,
        SubmissionStatus::Processing => "processing"@,
        SubmissionStatus::Accepted => "accepted"@,
        SubmissionStatus::WrongAnswer => "wronganswer"@,
        SubmissionStatus::TimeLimitExceeded => "timelimitexceeded"@,
        SubmissionStatus::CompilationError => "compilationerror"@,
        SubmissionStatus::RuntimeErrorSigsegv => "runtimeerrorsigsegv"@,
        SubmissionStatus::RuntimeErrorSigxfsz => "runtimeerrorsigxfsz"@,
        SubmissionStatus::RuntimeErrorSigfpe => "runtimeerrorsigfpe"@,
        SubmissionStatus::RuntimeErrorSigabrt => "runtimeerrorsigabrt"@,
        SubmissionStatus::RuntimeErrorNzec => "runtimeerrornzec"@,
        SubmissionStatus::RuntimeErrorOther => "runtimeerrorother"@,
        SubmissionStatus::InternalError => "internalerror"@,
        SubmissionStatus::ExecFormatError => "execformaterror"@,
    }
}

/// The status stored under `name`, if any.
pub open spec fn status_named(name: Seq<char>) -> Option<SubmissionStatus> {
    if name == "inqueue"@ {
        Some(SubmissionStatus::InQueue)
    } else if name == "processing"@ {
        Some(SubmissionStatus::Processing)
    } else if name == "accepted"@ {
        Some(SubmissionStatus::Accepted)
    } else if name == "wronganswer"@ {
        Some(SubmissionStatus::WrongAnswer)
    } else if name == "timelimitexceeded"@ {
        Some(SubmissionStatus::TimeLimitExceeded)
    } else if name == "compilationerror"@ {
        Some(SubmissionStatus::CompilationError)
    } else if name == "runtimeerrorsigsegv"@ {
        Some(SubmissionStatus::RuntimeErrorSigsegv)
    } else if name == "runtimeerrorsigxfsz"@ {
        Some(SubmissionStatus::RuntimeErrorSigxfsz)
    } else if name == "runtimeerrorsigfpe"@ {
        Some(SubmissionStatus::RuntimeErrorSigfpe)
    } else if name == "runtimeerrorsigabrt"@ {
        Some(SubmissionStatus::RuntimeErrorSigabrt)
    } else if name == "runtimeerrornzec"@ {
        Some(SubmissionStatus::RuntimeErrorNzec)
    } else if name == "runtimeerrorother"@ {
        Some(SubmissionStatus::RuntimeErrorOther)
    } else if name == "internalerror"@ {
        Some(SubmissionStatus::InternalError)
    } else if name == "execformaterror"@ {
        Some(SubmissionStatus::ExecFormatError)
    } else {
        None
    }
}

impl SubmissionStatus {
    /// The status named `s`; `None` for any other text.
    pub fn parse(s: &str) -> (r: Option<SubmissionStatus>)
        ensures
            r == status_named(s@),
    {
        if same_text(s, "inqueue") {
            Some(SubmissionStatus::InQueue)
        } else if same_text(s, "processing") {
            Some(SubmissionStatus::Processing)
        } else if same_text(s, "accepted") {
            Some(SubmissionStatus::Accepted)
        } else if same_text(s, "wronganswer") {
            Some(SubmissionStatus::WrongAnswer)
        } else if same_text(s, "timelimitexceeded") {
            Some(SubmissionStatus::TimeLimitExceeded)
        } else if same_text(s, "compilationerror") {
            Some(SubmissionStatus::CompilationError)
        } else if same_text(s, "runtimeerrorsigsegv") {
            Some(SubmissionStatus::RuntimeErrorSigsegv)
        } else if same_text(s, "runtimeerrorsigxfsz") {
            Some(SubmissionStatus::RuntimeErrorSigxfsz)
        } else if same_text(s, "runtimeerrorsigfpe") {
            Some(SubmissionStatus::RuntimeErrorSigfpe)
        } else if same_text(s, "runtimeerrorsigabrt") {
            Some(SubmissionStatus::RuntimeErrorSigabrt)
        } else if same_text(s, "runtimeerrornzec") {
            Some(SubmissionStatus::RuntimeErrorNzec)
        } else if same_text(s, "runtimeerrorother") {
            Some(SubmissionStatus::RuntimeErrorOther)
        } else if same_text(s, "internalerror") {
            Some(SubmissionStatus::InternalError)
        } else if same_text(s, "execformaterror") {
            Some(SubmissionStatus::ExecFormatError)
        } else {
            None
        }
    }

    /// The lower-case name under which the status is stored.
    pub fn name(&self) -> (r: &'static str)
        ensures
            r@ == status_name(*self),
    {
        match self {
            SubmissionStatus::InQueue => "inqueue",
            SubmissionStatus::Processing => "processing",
            SubmissionStatus::Accepted => "accepted",
            SubmissionStatus::WrongAnswer => "wronganswer",
            SubmissionStatus::TimeLimitExceeded => "timelimitexceeded",
            SubmissionStatus::CompilationError => "compilationerror",
            SubmissionStatus::RuntimeErrorSigsegv => "runtimeerrorsigsegv",
            SubmissionStatus::RuntimeErrorSigxfsz => "runtimeerrorsigxfsz",
            SubmissionStatus::RuntimeErrorSigfpe => "runtimeerrorsigfpe",
            SubmissionStatus::RuntimeErrorSigabrt => "runtimeerrorsigabrt",
            SubmissionStatus::RuntimeErrorNzec => "runtimeerrornzec",
            SubmissionStatus::RuntimeErrorOther => "runtimeerrorother",
            SubmissionStatus::InternalError => "internalerror",
            SubmissionStatus::ExecFormatError => "execformaterror",
        }
    }
}

/// The languages that the service knows by name.
#[derive(Clone, Copy, Debug, PartialEq, Eq, Structural)]
pub enum Language {
    Rust,
    Python,
    Cpp,
    C,
}

/// The lower-case name of a language.
pub open spec fn language_name(l: Language) -> Seq<char> {
    match l {
        Language::Rust => "rust"@,
        Language::Python => "python"@,
        Language::Cpp => "cpp"@,
        Language::C => "c"@,
    }
}

/// The language named `name`, if any.
pub open spec fn language_named(name: Seq<char>) -> Option<Language> {
    if name == "rust"@ {
        Some(Language::Rust)
    } else if name == "python"@ {
        Some(Language::Python)
    } else if name == "cpp"@ {
        Some(Language::Cpp)
    } else if name == "c"@ {
        Some(Language::C)
    } else {
        None
    }
}

impl Language {
    /// Every language, in a fixed order.
    pub fn all() -> (r: Vec<Language>)
        ensures
            r@ == seq![Language::Rust, Language::Python, Language::Cpp, Language::C],
    {
        vec![Language::Rust, Language::Python, Language::Cpp, Language::C]
    }

    /// The language named `s`; `None` for any other text.
    pub fn parse(s: &str) -> (r: Option<Language>)
        ensures
            r == language_named(s@),
    {
        if same_text(s, "rust") {
            Some(Language::Rust)
        } else if same_text(s, "python") {
            Some(Language::Python)
        } else if same_text(s, "cpp") {
            Some(Language::Cpp)
        } else if same_text(s, "c") {
            Some(Language::C)
        } else {
            None
        }
    }

    /// The lower-case name of the language.
    pub fn name(&self) -> (r: &'static str)
        ensures
            r@ == language_name(*self),
    {
        match self {
            Language::Rust => "rust",
            Language::Python => "python",
            Language::Cpp => "cpp",
            Language::C => "c",
        }
    }
}

/// Parsing the name of a language gives the language back.
pub proof fn lemma_language_name_round_trip(l: Language)
    ensures
        language_named(language_name(l)) == Some(l),
{
    reveal_strlit("rust");
    reveal_strlit("python");
    reveal_strlit("cpp");
    reveal_strlit("c");
    assert("rust"@.len() == 4 && "python"@.len() == 6 && "cpp"@.len() == 3 && "c"@.len() == 1);
}

/// How to build and run programs of one language inside the sandbox.
#[derive(Clone, Debug)]
pub struct LanguageConfig {
    pub name: String,
    /// The file, inside the box, that the source is written to.
    pub source_file: String,
    pub file_extension: String,
    /// A shell line in which `%s` stands for the compiler options.
    pub compile_cmd: Option<String>,
    pub run_cmd: String,
    pub allow_network: bool,
}

/// The job that a worker takes from the queue. Times are in milliseconds,
/// sizes in KiB.
#[derive(Clone, Debug)]
pub struct NatsSubmission {
    pub id: String,
    pub source_code: String,
    pub language: LanguageConfig,
    pub compiler_options: Option<String>,
    pub command_line_arguments: Option<String>,
    pub stdin: Option<String>,
    pub expected_output: Option<String>,
    pub cpu_time_limit_ms: Option<u64>,
    pub cpu_extra_time_ms: Option<u64>,
    pub wall_time_limit_ms: Option<u64>,
    pub memory_limit: Option<u64>,
    pub stack_limit: Option<i32>,
    pub max_processes_and_or_threads: Option<i32>,
    pub enable_per_process_and_thread_time_limit: Option<bool>,
    pub enable_per_process_and_thread_memory_limit: Option<bool>,
    pub max_file_size: Option<i32>,
    pub redirect_stderr_to_stdout: Option<bool>,
    pub enable_network: Option<bool>,
    pub number_of_runs: Option<i32>,
    pub additional_files: Option<String>,
    pub callback_url: Option<String>,
}

/// A submission as a client sends it, before it has an id. Times are in
/// milliseconds, sizes in KiB.
#[derive(Clone, Debug)]
pub struct NewSubmission {
    pub source_code: String,
    pub language: Language,
    pub compiler_options: Option<String>,
    pub command_line_arguments: Option<String>,
    pub stdin: Option<String>,
    pub expected_output: Option<String>,
    pub cpu_time_limit_ms: Option<u64>,
    pub cpu_extra_time_ms: Option<u64>,
    pub wall_time_limit_ms: Option<u64>,
    pub memory_limit: Option<u64>,
    pub stack_limit: Option<i32>,
    pub max_processes_and_or_threads: Option<i32>,
    pub enable_per_process_and_thread_time_limit: Option<bool>,
    pub enable_per_process_and_thread_memory_limit: Option<bool>,
    pub max_file_size: Option<i32>,
    pub redirect_stderr_to_stdout: Option<bool>,
    pub enable_network: Option<bool>,
    pub number_of_runs: Option<i32>,
    pub additional_files: Option<String>,
    pub callback_url: Option<String>,
}

impl NatsSubmission {
    /// The job queued for a stored submission: its id, the language's
    /// descriptor, and every other field as the client sent it.
    pub fn from_new(id: String, ns: NewSubmission, language: LanguageConfig) -> (r: NatsSubmission)
        ensures
            r.id == id,
            r.language == language,
            r.source_code == ns.source_code,
            r.compiler_options == ns.compiler_options,
            r.command_line_arguments == ns.command_line_arguments,
            r.stdin == ns.stdin,
            r.expected_output == ns.expected_output,
            r.cpu_time_limit_ms == ns.cpu_time_limit_ms,
            r.cpu_extra_time_ms == ns.cpu_extra_time_ms,
            r.wall_time_limit_ms == ns.wall_time_limit_ms,
            r.memory_limit == ns.memory_limit,
            r.stack_limit == ns.stack_limit,
            r.max_processes_and_or_threads == ns.max_processes_and_or_threads,
            r.enable_per_process_and_thread_time_limit == ns.enable_per_process_and_thread_time_limit,
            r.enable_per_process_and_thread_memory_limit
                == ns.enable_per_process_and_thread_memory_limit,
            r.max_file_size == ns.max_file_size,
            r.redirect_stderr_to_stdout == ns.redirect_stderr_to_stdout,
            r.enable_network == ns.enable_network,
            r.number_of_runs == ns.number_of_runs,
            r.additional_files == ns.additional_files,
            r.callback_url == ns.callback_url,
    {
        NatsSubmission {
            id,
            source_code: ns.source_code,
            language,
            compiler_options: ns.compiler_options,
            command_line_arguments: ns.command_line_arguments,
            stdin: ns.stdin,
            expected_output: ns.expected_output,
            cpu_time_limit_ms: ns.cpu_time_limit_ms,
            cpu_extra_time_ms: ns.cpu_extra_time_ms,
            wall_time_limit_ms: ns.wall_time_limit_ms,
            memory_limit: ns.memory_limit,
            stack_limit: ns.stack_limit,
            max_processes_and_or_threads: ns.max_processes_and_or_threads,
            enable_per_process_and_thread_time_limit: ns.enable_per_process_and_thread_time_limit,
            enable_per_process_and_thread_memory_limit: ns.enable_per_process_and_thread_memory_limit,
            max_file_size: ns.max_file_size,
            redirect_stderr_to_stdout: ns.redirect_stderr_to_stdout,
            enable_network: ns.enable_network,
            number_of_runs: ns.number_of_runs,
            additional_files: ns.additional_files,
            callback_url: ns.callback_url,
        }
    }
}

} // verus!
