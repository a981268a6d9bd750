//! Configuration: submission defaults, language descriptors and the size
//! of the worker pool.
use vstd::prelude::*;
use crate::model::LanguageConfig;
use crate::text::{same_text, trim_end_text, unicode_trim_end};

verus! {

/// Limits applied where a submission names none. Times are in
/// milliseconds, memory in KiB.
#[derive(Clone, Copy, Debug, PartialEq, Eq, Structural)]
pub struct SubmissionDefaults {
    pub cpu_time_limit_ms: u64,
    pub wall_time_limit_ms: u64,
    pub memory_limit: u64,
    pub number_of_runs: i32,
    pub enable_network: bool,
}

impl Default for SubmissionDefaults {
    fn default() -> (r: SubmissionDefaults)
        ensures
            r.cpu_time_limit_ms == 2000,
            r.wall_time_limit_ms == 5000,
            r.memory_limit == 128000,
            r.number_of_runs == 1,
            !r.enable_network,
    {
        SubmissionDefaults {
            cpu_time_limit_ms: 2000,
            wall_time_limit_ms: 5000,
            memory_limit: 128000,
            number_of_runs: 1,
            enable_network: false,
        }
    }
}

/// Why a language descriptor could not be resolved.
#[derive(Clone, Debug)]
pub enum ConfigError {
    /// The command file at this path could not be read.
    CommandFileUnreadable(String),
    /// The language of this name has neither `run_cmd` nor `run_cmd_file`.
    MissingRunCommand(String),
}

/// A language descriptor as written: each command inline or as a file.
#[derive(Clone, Debug)]
pub struct RawLanguage {
    pub name: String,
    pub source_file: String,
    pub file_extension: String,
    pub compile_cmd: Option<String>,
    pub compile_cmd_file: Option<String>,
    pub run_cmd: Option<String>,
    pub run_cmd_file: Option<String>,
    pub allow_network: bool,
}

/// A command given inline, or read from a file and trimmed at its end;
/// `None` where neither is given, `Err` where the file was not read.
pub open spec fn resolved_cmd(
    inline: Option<String>,
    file: Option<String>,
    file_text: Option<String>,
) -> Option<Result<Seq<char>, Seq<char>>> {
    match inline {
        Some(c) => Some(Ok(c@)),
        None => match file {
            Some(path) => match file_text {
                Some(t) => Some(Ok(unicode_trim_end(t@))),
                None => Some(Err(path@)),
            },
            None => None,
        },
    }
}

fn resolve_cmd(inline: Option<String>, file: Option<String>, file_text: Option<String>) -> (r:
    Option<Result<String, String>>)
    ensures
        resolved_cmd(inline, file, file_text) == match r {
            Some(Ok(s)) => Some(Ok::<Seq<char>, Seq<char>>(s@)),
            Some(Err(p)) => Some(Err(p@)),
            None => None,
        },
{
    match inline {
        Some(c) => Some(Ok(c)),
        None => match file {
            Some(path) => match file_text {
                Some(t) => Some(Ok(trim_end_text(t.as_str()))),
                None => Some(Err(path)),
            },
            None => None,
        },
    }
}

impl RawLanguage {
    /// Whether resolving needs the text of `compile_cmd_file`.
    pub open spec fn needs_compile_file(&self) -> bool {
        self.compile_cmd is None && self.compile_cmd_file is Some
    }

    /// Whether resolving needs the text of `run_cmd_file`.
    pub open spec fn needs_run_file(&self) -> bool {
        self.run_cmd is None && self.run_cmd_file is Some
    }

    /// The descriptor with both commands settled. The inline form wins over
    /// the file form; a file's text (`None` where it could not be read)
    /// is trimmed at its end. The compile command may be absent, the run
    /// command may not.
    pub fn into_resolved(self, compile_file_text: Option<String>, run_file_text: Option<String>) -> (r:
        Result<LanguageConfig, ConfigError>)
        ensures
            ({
                let c = resolved_cmd(self.compile_cmd, self.compile_cmd_file, compile_file_text);
                let run = resolved_cmd(self.run_cmd, self.run_cmd_file, run_file_text);
                match c {
                    Some(Err(p)) => r matches Err(ConfigError::CommandFileUnreadable(q)) && q@ == p,
                    _ => match run {
                        Some(Err(p)) => r matches Err(ConfigError::CommandFileUnreadable(q)) && q@
                            == p,
                        None => r matches Err(ConfigError::MissingRunCommand(n)) && n@ == self.name@,
                        Some(Ok(rc)) => {
                            &&& r is Ok
                            &&& r->Ok_0.name@ == self.name@
                            &&& r->Ok_0.source_file@ == self.source_file@
                            &&& r->Ok_0.file_extension@ == self.file_extension@
                            &&& r->Ok_0.allow_network == self.allow_network
                            &&& r->Ok_0.run_cmd@ == rc
                            &&& match r->Ok_0.compile_cmd {
                                Some(s) => c == Some(Ok::<Seq<char>, Seq<char>>(s@)),
                                None => c is None,
                            }
                        },
                    },
                }
            }),
    {
        let compile_cmd = match resolve_cmd(self.compile_cmd, self.compile_cmd_file, compile_file_text) {
            Some(Ok(s)) => Some(s),
            Some(Err(p)) => {
                return Err(ConfigError::CommandFileUnreadable(p));
            },
            None => None,
        };
        let run_cmd = match resolve_cmd(self.run_cmd, self.run_cmd_file, run_file_text) {
            Some(Ok(s)) => s,
            Some(Err(p)) => {
                return Err(ConfigError::CommandFileUnreadable(p));
            },
            None => {
                return Err(ConfigError::MissingRunCommand(self.name));
            },
        };
        Ok(LanguageConfig {
            name: self.name,
            source_file: self.source_file,
            file_extension: self.file_extension,
            compile_cmd,
            run_cmd,
            allow_network: self.allow_network,
        })
    }
}

impl LanguageConfig {
    /// A field-by-field copy.
    pub fn duplicate(&self) -> (r: LanguageConfig)
        ensures
            r == *self,
    {
        LanguageConfig {
            name: self.name.clone(),
            source_file: self.source_file.clone(),
            file_extension: self.file_extension.clone(),
            compile_cmd: match &self.compile_cmd {
                Some(c) => Some(c.clone()),
                None => None,
            },
            run_cmd: self.run_cmd.clone(),
            allow_network: self.allow_network,
        }
    }
}

/// The service's configuration, once loaded.
#[derive(Clone, Debug)]
pub struct AppConfig {
    pub submission_defaults: SubmissionDefaults,
    pub languages: Vec<LanguageConfig>,
}

impl AppConfig {
    /// The first language named `name`.
    pub fn get_language(&self, name: &str) -> (r: Option<LanguageConfig>)
        ensures
            r is None <==> forall|i: int|
                0 <= i < self.languages@.len() ==> #[trigger] self.languages@[i].name@ != name@,
            r is Some ==> exists|i: int|
                0 <= i < self.languages@.len() && r->Some_0 == self.languages@[i] && (forall|j: int|
                    0 <= j < i ==> #[trigger] self.languages@[j].name@ != name@) && self.languages@[i].name@
                    == name@,
    {
        let mut i: usize = 0;
        while i < self.languages.len()
            invariant
                i <= self.languages@.len(),
                forall|j: int| 0 <= j < i ==> #[trigger] self.languages@[j].name@ != name@,
            decreases self.languages@.len() - i,
        {
            if same_text(self.languages[i].name.as_str(), name) {
                return Some(self.languages[i].duplicate());
            }
            i = i + 1;
        }
        None
    }

    /// The names of the languages, in order.
    pub fn get_language_names(&self) -> (r: Vec<String>)
        ensures
            r@.len() == self.languages@.len(),
            forall|i: int| 0 <= i < r@.len() ==> #[trigger] r@[i]@ == self.languages@[i].name@,
    {
        let mut r: Vec<String> = Vec::new();
        let mut i: usize = 0;
        while i < self.languages.len()
            invariant
                i <= self.languages@.len(),
                r@.len() == i,
                forall|k: int| 0 <= k < i ==> #[trigger] r@[k]@ == self.languages@[k].name@,
            decreases self.languages@.len() - i,
        {
            r.push(self.languages[i].name.clone());
            i = i + 1;
        }
        r
    }
}

/// The worker's configuration.
#[derive(Clone, Copy, Debug, PartialEq, Eq, Structural)]
pub struct WorkerConfig {
    /// The size of the pool; below 1 means one worker per CPU.
    pub num_workers: i32,
}

impl Default for WorkerConfig {
    fn default() -> (r: WorkerConfig)
        ensures
            r.num_workers == -1,
    {
        WorkerConfig { num_workers: -1 }
    }
}

impl WorkerConfig {
    /// How many workers to spawn on a machine with `cpus` CPUs.
    pub fn worker_count(&self, cpus: usize) -> (r: usize)
        ensures
            self.num_workers >= 1 ==> r == self.num_workers,
            self.num_workers < 1 ==> r == cpus,
    {
        if self.num_workers >= 1 {
            self.num_workers as usize
        } else {
            cpus
        }
    }
}

} // verus!
