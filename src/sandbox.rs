//! One jail instance: its paths, and the commands and files that drive it.
use vstd::prelude::*;
use crate::metadata::{opt_view, Metadata};
use crate::model::{LanguageConfig, NatsSubmission};
use crate::text::{
    chars_blank, chars_of, decimal, digit_char, digit_of, format_i32, format_u64, is_unicode_blank,
    push_decimal, sanitize, sanitized, signed_decimal, string_of, substitute, substituted,
    unicode_trim, unicode_trim_chars,
};

verus! {

/// Why a sandbox step could not go on.
#[derive(Clone, Copy, Debug, PartialEq, Eq, Structural)]
pub enum SandboxError {
    /// The jailer's `--init` exited with a failure.
    InitFailed,
    /// The jailer's `--init` printed no absolute directory.
    WorkdirUnparseable,
    /// The jailer wrote no report.
    MetadataMissing,
}

/// The views of a sequence of strings.
pub open spec fn texts(v: Seq<String>) -> Seq<Seq<char>> {
    v.map_values(|s: String| s@)
}

/// `dir` and `name` joined by one `/`.
pub open spec fn joined(dir: Seq<char>, name: Seq<char>) -> Seq<char> {
    if dir.len() > 0 && dir.last() == '/' {
        dir + name
    } else {
        dir + seq!['/'] + name
    }
}

/// The text of an optional string, empty where it is absent.
pub open spec fn or_empty(o: Option<String>) -> Seq<char> {
    match o {
        Some(s) => s@,
        None => Seq::empty(),
    }
}

/// A duration in milliseconds written in seconds, as the jailer reads it:
/// whole seconds alone, or a fraction without trailing zeros.
pub open spec fn seconds_text(ms: nat) -> Seq<char> {
    let f = ms % 1000;
    if f == 0 {
        decimal(ms / 1000)
    } else if f % 100 == 0 {
        decimal(ms / 1000) + seq!['.', digit_char(f / 100)]
    } else if f % 10 == 0 {
        decimal(ms / 1000) + seq!['.', digit_char(f / 100), digit_char((f / 10) % 10)]
    } else {
        decimal(ms / 1000) + seq!['.', digit_char(f / 100), digit_char((f / 10) % 10), digit_char(f % 10)]
    }
}

pub open spec fn u64_or(o: Option<u64>, d: u64) -> nat {
    match o {
        Some(v) => v as nat,
        None => d as nat,
    }
}

pub open spec fn i32_or(o: Option<i32>, d: i32) -> int {
    match o {
        Some(v) => v as int,
        None => d as int,
    }
}

/// One jail instance, identified by its box-id, and the paths derived from
/// the directory that the jailer handed out.
#[derive(Clone, Debug)]
pub struct Sandbox {
    pub box_id: u32,
    pub workdir: String,
    pub boxdir: String,
    pub tmpdir: String,
    pub metadata_file: String,
    pub source_file: String,
    pub stdin_file: String,
    pub stdout_file: String,
    pub stderr_file: String,
}

/// What to run for one step: a script to write first, and the arguments
/// of the privileged `sudo` call that runs it in `current_dir`. Where a
/// stream file is given, the call's standard stream is that file (stdin
/// read from it, stdout and stderr written to it); where it is absent,
/// the stream is captured in memory.
#[derive(Clone, Debug)]
pub struct CommandPlan {
    pub script_file: String,
    pub script: String,
    pub args: Vec<String>,
    pub current_dir: String,
    pub stdin_file: Option<String>,
    pub stdout_file: Option<String>,
    pub stderr_file: Option<String>,
}

/// What the compile step came to.
#[derive(Clone, Debug)]
pub enum CompileOutcome {
    /// The language has no compile step.
    Skipped,
    Success,
    /// The compiler failed; its combined output.
    Failed(String),
}

/// The captured streams of a run; blank ones are absent.
#[derive(Clone, Debug)]
pub struct ProgramOutput {
    pub stdout: Option<String>,
    pub stderr: Option<String>,
}

/// A captured stream as the classifier sees it: absent where it is empty
/// or all Unicode whitespace.
pub open spec fn captured(o: Option<String>) -> Option<String> {
    match o {
        Some(s) => if is_unicode_blank(s@) { None } else { Some(s) },
        None => None,
    }
}

fn owned(s: &str) -> (r: String)
    ensures
        r@ == s@,
{
    s.to_string()
}

/// `dir` and `name` joined by one `/`.
pub fn join_path(dir: &str, name: &str) -> (r: String)
    ensures
        r@ == joined(dir@, name@),
{
    let d = chars_of(dir);
    let n = chars_of(name);
    let mut out = d.clone();
    if !(d.len() > 0 && d[d.len() - 1] == '/') {
        out.push('/');
    }
    let ghost before = out@;
    let mut i: usize = 0;
    while i < n.len()
        invariant
            i <= n@.len(),
            out@ == before + n@.subrange(0, i as int),
        decreases n@.len() - i,
    {
        out.push(n[i]);
        i = i + 1;
        assert(out@ =~= before + n@.subrange(0, i as int));
    }
    assert(n@.subrange(0, n@.len() as int) =~= n@);
    assert(out@ =~= joined(dir@, name@));
    string_of(&out)
}

/// A duration in milliseconds, written in seconds.
pub fn format_seconds(ms: u64) -> (r: String)
    ensures
        r@ == seconds_text(ms as nat),
{
    let mut out: Vec<char> = Vec::new();
    push_decimal(&mut out, ms / 1000);
    let f = ms % 1000;
    if f != 0 {
        out.push('.');
        out.push(digit_of(f / 100));
        if f % 100 != 0 {
            out.push(digit_of((f / 10) % 10));
            if f % 10 != 0 {
                out.push(digit_of(f % 10));
            }
        }
    }
    assert(out@ =~= seconds_text(ms as nat));
    string_of(&out)
}

/// The text of `o`, empty where it is absent.
pub fn text_or_empty(o: &Option<String>) -> (r: String)
    ensures
        r@ == or_empty(*o),
{
    match o {
        Some(s) => s.clone(),
        None => String::new(),
    }
}

/// The jailer arguments of the compile step, caps fixed.
pub open spec fn compile_args(box_id: u32, metadata_file: Seq<char>) -> Seq<Seq<char>> {
    seq![
        "isolate"@, "--cg"@, "-b"@, decimal(box_id as nat), "-M"@, metadata_file,
        "--stderr-to-stdout"@, "-i"@, "/dev/null"@, "-t"@, "2"@, "-x"@, "0"@, "-w"@, "4"@,
        "-k"@, "67108864"@, "-m"@, "262144"@, "-f"@, "1024"@, "--run"@, "--"@, "/bin/bash"@,
        "compile.sh"@,
    ]
}

/// The jailer arguments of the run step, caps drawn from the submission
/// with their defaults.
pub open spec fn run_args(box_id: u32, metadata_file: Seq<char>, sub: NatsSubmission) -> Seq<
    Seq<char>,
> {
    seq![
        "isolate"@, "--cg"@, "--silent"@, "-b"@, decimal(box_id as nat), "-M"@, metadata_file,
        "-t"@, seconds_text(u64_or(sub.cpu_time_limit_ms, 2000)),
        "-x"@, seconds_text(u64_or(sub.cpu_extra_time_ms, 1000)),
        "-w"@, seconds_text(u64_or(sub.wall_time_limit_ms, 4000)),
        "-k"@, signed_decimal(i32_or(sub.stack_limit, 67108864)),
        "-p"@ + signed_decimal(i32_or(sub.max_processes_and_or_threads, 50)),
        "-m"@, decimal(u64_or(sub.memory_limit, 262144)),
        "-f"@, signed_decimal(i32_or(sub.max_file_size, 1024)),
        "--run"@, "--"@, "/bin/bash"@, "run.sh"@,
    ]
}

impl Sandbox {
    /// The arguments of the `sudo` call that initialises box `box_id`.
    pub fn init_args(box_id: u32) -> (r: Vec<String>)
        ensures
            texts(r@) == seq!["isolate"@, "--cg"@, "-b"@, decimal(box_id as nat), "--init"@],
    {
        let r = vec![owned("isolate"), owned("--cg"), owned("-b"), format_u64(box_id as u64), owned("--init")];
        assert(texts(r@) =~= seq!["isolate"@, "--cg"@, "-b"@, decimal(box_id as nat), "--init"@]);
        r
    }

    /// The sandbox of box `box_id`, from what its `--init` reported: whether
    /// it succeeded and what it printed. The printed text, trimmed, must be
    /// an absolute directory.
    pub fn new(box_id: u32, init_succeeded: bool, init_stdout: &str) -> (r: Result<Sandbox, SandboxError>)
        ensures
            !init_succeeded ==> r == Err::<Sandbox, SandboxError>(SandboxError::InitFailed),
            init_succeeded && (unicode_trim(init_stdout@).len() == 0 || unicode_trim(init_stdout@)[0] != '/')
                ==> r == Err::<Sandbox, SandboxError>(SandboxError::WorkdirUnparseable),
            init_succeeded && unicode_trim(init_stdout@).len() > 0 && unicode_trim(init_stdout@)[0] == '/' ==> ({
                let w = unicode_trim(init_stdout@);
                &&& r is Ok
                &&& r->Ok_0.box_id == box_id
                &&& r->Ok_0.workdir@ == w
                &&& r->Ok_0.boxdir@ == joined(w, "box"@)
                &&& r->Ok_0.tmpdir@ == joined(w, "tmp"@)
                &&& r->Ok_0.metadata_file@ == joined(w, "metadata.txt"@)
                &&& r->Ok_0.source_file@ == joined(joined(w, "box"@), "source"@)
                &&& r->Ok_0.stdin_file@ == joined(w, "stdin.txt"@)
                &&& r->Ok_0.stdout_file@ == joined(w, "stdout.txt"@)
                &&& r->Ok_0.stderr_file@ == joined(w, "stderr.txt"@)
            }),
    {
        if !init_succeeded {
            return Err(SandboxError::InitFailed);
        }
        let w = unicode_trim_chars(&chars_of(init_stdout));
        if w.len() == 0 || w[0] != '/' {
            return Err(SandboxError::WorkdirUnparseable);
        }
        let workdir = string_of(&w);
        let boxdir = join_path(workdir.as_str(), "box");
        let source_file = join_path(boxdir.as_str(), "source");
        Ok(Sandbox {
            box_id,
            tmpdir: join_path(workdir.as_str(), "tmp"),
            metadata_file: join_path(workdir.as_str(), "metadata.txt"),
            stdin_file: join_path(workdir.as_str(), "stdin.txt"),
            stdout_file: join_path(workdir.as_str(), "stdout.txt"),
            stderr_file: join_path(workdir.as_str(), "stderr.txt"),
            source_file,
            boxdir,
            workdir,
        })
    }

    /// Where the submission's source goes: `boxdir/<source_file>`.
    pub fn source_path(&self, lang: &LanguageConfig) -> (r: String)
        ensures
            r@ == joined(self.boxdir@, lang.source_file@),
    {
        join_path(self.boxdir.as_str(), lang.source_file.as_str())
    }

    /// What `stdin.txt` holds: the submission's stdin, or nothing, so that
    /// the file exists either way.
    pub fn stdin_contents(sub: &NatsSubmission) -> (r: String)
        ensures
            r@ == or_empty(sub.stdin),
    {
        text_or_empty(&sub.stdin)
    }

    /// The files to write before compiling, in order: the source to
    /// `boxdir/<source_file>`, and the stdin text, empty where the
    /// submission has none, to `stdin_file`.
    pub fn stage(&self, sub: &NatsSubmission) -> (r: Vec<(String, String)>)
        ensures
            r@.len() == 2,
            r@[0].0@ == joined(self.boxdir@, sub.language.source_file@),
            r@[0].1@ == sub.source_code@,
            r@[1].0@ == self.stdin_file@,
            r@[1].1@ == or_empty(sub.stdin),
    {
        vec![
            (self.source_path(&sub.language), sub.source_code.clone()),
            (self.stdin_file.clone(), Self::stdin_contents(sub)),
        ]
    }

    /// The compile step of `sub`: `None` where its language has no compile
    /// command; else `compile.sh` holding the command with `%s` replaced by
    /// the sanitised compiler options, run under the fixed compile caps.
    pub fn compile(&self, sub: &NatsSubmission) -> (r: Option<CommandPlan>)
        ensures
            sub.language.compile_cmd is None ==> r is None,
            sub.language.compile_cmd is Some ==> ({
                let p = r->Some_0;
                &&& r is Some
                &&& p.script_file@ == joined(self.boxdir@, "compile.sh"@)
                &&& p.script@ == substituted(
                    sub.language.compile_cmd->Some_0@,
                    sanitized(or_empty(sub.compiler_options)),
                ).push('\n')
                &&& texts(p.args@) == compile_args(self.box_id, self.metadata_file@)
                &&& p.current_dir@ == self.boxdir@
                &&& p.stdin_file is None && p.stdout_file is None && p.stderr_file is None
            }),
    {
        match &sub.language.compile_cmd {
            None => None,
            Some(cmd) => {
                let opts = sanitize(text_or_empty(&sub.compiler_options).as_str());
                let line = substitute(cmd.as_str(), opts.as_str());
                let mut script = chars_of(line.as_str());
                script.push('\n');
                let args = vec![
                    owned("isolate"), owned("--cg"), owned("-b"), format_u64(self.box_id as u64),
                    owned("-M"), self.metadata_file.clone(), owned("--stderr-to-stdout"),
                    owned("-i"), owned("/dev/null"), owned("-t"), owned("2"), owned("-x"),
                    owned("0"), owned("-w"), owned("4"), owned("-k"), owned("67108864"),
                    owned("-m"), owned("262144"), owned("-f"), owned("1024"), owned("--run"),
                    owned("--"), owned("/bin/bash"), owned("compile.sh"),
                ];
                assert(texts(args@) =~= compile_args(self.box_id, self.metadata_file@));
                Some(CommandPlan {
                    script_file: join_path(self.boxdir.as_str(), "compile.sh"),
                    script: string_of(&script),
                    args,
                    current_dir: self.boxdir.clone(),
                    stdin_file: None,
                    stdout_file: None,
                    stderr_file: None,
                })
            },
        }
    }

    /// The outcome of a compile step that ran: `Success` where the jailer
    /// exited with success, else `Failed` with the combined output.
    pub fn compile_outcome(exit_success: bool, output: String) -> (r: CompileOutcome)
        ensures
            exit_success ==> r is Success,
            !exit_success ==> r is Failed && r->Failed_0@ == output@,
    {
        if exit_success {
            CompileOutcome::Success
        } else {
            CompileOutcome::Failed(output)
        }
    }

    /// The run step of `sub`: `run.sh` holding the run command and the
    /// sanitised arguments, run under the submission's caps; its standard
    /// streams are `stdin_file`, `stdout_file` and `stderr_file`.
    pub fn run(&self, sub: &NatsSubmission) -> (r: CommandPlan)
        ensures
            r.script_file@ == joined(self.boxdir@, "run.sh"@),
            r.script@ == (sub.language.run_cmd@ + seq![' '] + sanitized(
                or_empty(sub.command_line_arguments),
            )).push('\n'),
            texts(r.args@) == run_args(self.box_id, self.metadata_file@, *sub),
            r.current_dir@ == self.boxdir@,
            opt_view(r.stdin_file) == Some(self.stdin_file@),
            opt_view(r.stdout_file) == Some(self.stdout_file@),
            opt_view(r.stderr_file) == Some(self.stderr_file@),
    {
        let args_text = sanitize(text_or_empty(&sub.command_line_arguments).as_str());
        let mut script = chars_of(sub.language.run_cmd.as_str());
        script.push(' ');
        let a = chars_of(args_text.as_str());
        let ghost before = script@;
        let mut i: usize = 0;
        while i < a.len()
            invariant
                i <= a@.len(),
                script@ == before + a@.subrange(0, i as int),
            decreases a@.len() - i,
        {
            script.push(a[i]);
            i = i + 1;
            assert(script@ =~= before + a@.subrange(0, i as int));
        }
        assert(a@.subrange(0, a@.len() as int) =~= a@);
        script.push('\n');
        let cpu = match sub.cpu_time_limit_ms { Some(v) => v, None => 2000 };
        let extra = match sub.cpu_extra_time_ms { Some(v) => v, None => 1000 };
        let wall = match sub.wall_time_limit_ms { Some(v) => v, None => 4000 };
        let stack = match sub.stack_limit { Some(v) => v, None => 67108864 };
        let procs = match sub.max_processes_and_or_threads { Some(v) => v, None => 50 };
        let mem = match sub.memory_limit { Some(v) => v, None => 262144 };
        let fsize = match sub.max_file_size { Some(v) => v, None => 1024 };
        let mut p = chars_of("-p");
        let pd = chars_of(format_i32(procs).as_str());
        let ghost p0 = p@;
        let mut k: usize = 0;
        while k < pd.len()
            invariant
                k <= pd@.len(),
                p@ == p0 + pd@.subrange(0, k as int),
            decreases pd@.len() - k,
        {
            p.push(pd[k]);
            k = k + 1;
            assert(p@ =~= p0 + pd@.subrange(0, k as int));
        }
        assert(pd@.subrange(0, pd@.len() as int) =~= pd@);
        let args = vec![
            owned("isolate"), owned("--cg"), owned("--silent"), owned("-b"),
            format_u64(self.box_id as u64), owned("-M"), self.metadata_file.clone(),
            owned("-t"), format_seconds(cpu), owned("-x"), format_seconds(extra),
            owned("-w"), format_seconds(wall), owned("-k"), format_i32(stack),
            string_of(&p), owned("-m"), format_u64(mem), owned("-f"), format_i32(fsize),
            owned("--run"), owned("--"), owned("/bin/bash"), owned("run.sh"),
        ];
        assert(texts(args@) =~= run_args(self.box_id, self.metadata_file@, *sub));
        CommandPlan {
            script_file: join_path(self.boxdir.as_str(), "run.sh"),
            script: string_of(&script),
            args,
            current_dir: self.boxdir.clone(),
            stdin_file: Some(self.stdin_file.clone()),
            stdout_file: Some(self.stdout_file.clone()),
            stderr_file: Some(self.stderr_file.clone()),
        }
    }

    /// The bound on a whole pipeline, past which the child is killed and
    /// the verdict is `BoxError`: the wall-time limit plus the extra CPU
    /// time (defaults 4000 and 1000) plus 5000 milliseconds.
    pub fn supervision_timeout_ms(sub: &NatsSubmission) -> (r: u64)
        ensures
            r == (if u64_or(sub.wall_time_limit_ms, 4000) + u64_or(sub.cpu_extra_time_ms, 1000)
                + 5000 > u64::MAX {
                u64::MAX as nat
            } else {
                u64_or(sub.wall_time_limit_ms, 4000) + u64_or(sub.cpu_extra_time_ms, 1000) + 5000
            }),
    {
        let wall = match sub.wall_time_limit_ms { Some(v) => v, None => 4000 };
        let extra = match sub.cpu_extra_time_ms { Some(v) => v, None => 1000 };
        wall.saturating_add(extra).saturating_add(5000)
    }

    /// The report, from the text of the metadata file; `MetadataMissing`
    /// where there was no file to read.
    pub fn read_metadata(&self, contents: Option<String>) -> (r: Result<Metadata, SandboxError>)
        ensures
            contents is None ==> r == Err::<Metadata, SandboxError>(SandboxError::MetadataMissing),
            contents is Some ==> r is Ok && r->Ok_0@ == crate::metadata::report_entries(
                contents->Some_0@,
            ),
    {
        match contents {
            Some(text) => Ok(Metadata::parse(text.as_str())),
            None => Err(SandboxError::MetadataMissing),
        }
    }

    /// The program's output, from the texts of the stdout and stderr files
    /// (`None` where a file could not be read); blank streams are absent.
    pub fn read_output(stdout: Option<String>, stderr: Option<String>) -> (r: ProgramOutput)
        ensures
            r.stdout == captured(stdout),
            r.stderr == captured(stderr),
    {
        ProgramOutput { stdout: Self::non_blank(stdout), stderr: Self::non_blank(stderr) }
    }

    fn non_blank(o: Option<String>) -> (r: Option<String>)
        ensures
            r == captured(o),
    {
        match o {
            Some(s) => {
                if chars_blank(&chars_of(s.as_str())) {
                    None
                } else {
                    Some(s)
                }
            },
            None => None,
        }
    }

    /// The `sudo` calls of teardown, in order: remove boxdir, tmpdir and the
    /// metadata file, then the jailer's `--cleanup` of the box.
    pub fn cleanup(&self) -> (r: Vec<Vec<String>>)
        ensures
            r@.len() == 4,
            texts(r@[0]@) == seq!["rm"@, "-rf"@, self.boxdir@],
            texts(r@[1]@) == seq!["rm"@, "-rf"@, self.tmpdir@],
            texts(r@[2]@) == seq!["rm"@, "-rf"@, self.metadata_file@],
            texts(r@[3]@) == seq!["isolate"@, "--cg"@, "-b"@, decimal(self.box_id as nat), "--cleanup"@],
    {
        let a = vec![owned("rm"), owned("-rf"), self.boxdir.clone()];
        let b = vec![owned("rm"), owned("-rf"), self.tmpdir.clone()];
        let c = vec![owned("rm"), owned("-rf"), self.metadata_file.clone()];
        let d = vec![owned("isolate"), owned("--cg"), owned("-b"), format_u64(self.box_id as u64), owned("--cleanup")];
        assert(texts(a@) =~= seq!["rm"@, "-rf"@, self.boxdir@]);
        assert(texts(b@) =~= seq!["rm"@, "-rf"@, self.tmpdir@]);
        assert(texts(c@) =~= seq!["rm"@, "-rf"@, self.metadata_file@]);
        assert(texts(d@) =~= seq!["isolate"@, "--cg"@, "-b"@, decimal(self.box_id as nat), "--cleanup"@]);
        vec![a, b, c, d]
    }
}

/// Without stdin text the run still reads a file: staging writes an empty
/// text to the very file that the run plan takes its standard input from.
pub proof fn lemma_empty_stdin_is_empty_file(
    sb: Sandbox,
    sub: NatsSubmission,
    staged: Seq<(String, String)>,
    plan: CommandPlan,
)
    requires
        sub.stdin is None,
        staged.len() == 2,
        staged[1].0@ == sb.stdin_file@,
        staged[1].1@ == or_empty(sub.stdin),
        opt_view(plan.stdin_file) == Some(sb.stdin_file@),
    ensures
        plan.stdin_file is Some,
        staged[1].0@ == plan.stdin_file->Some_0@,
        staged[1].1@.len() == 0,
{
}

} // verus!
