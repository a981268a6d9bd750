//! The verdict of a run, from the submission, the program's output and the
//! jailer's report.
use vstd::prelude::*;
use crate::metadata::{lookup, opt_view, EntryView, Metadata};
use crate::model::{NatsSubmission, SubmissionStatus};
use crate::sandbox::{or_empty, text_or_empty, CompileOutcome, ProgramOutput, SandboxError};
use crate::text::{
    all_digits, chars_of, digits_value, is_blank, is_ws, millis_of, parse_i32, parse_millis,
    parse_u64, parsed_i32, same_chars, same_text, trim, trim_chars, trim_end, trim_start,
};

verus! {

/// The verdict of a submission.
#[derive(Clone, Copy, Debug, PartialEq, Eq, Structural)]
pub enum JudgeStatus {
    Accepted,
    WrongAnswer,
    TimeLimitExceeded,
    RuntimeError,
    /// Killed by the signal with this number.
    SignalError(i32),
    CompilationError,
    BoxError,
    InternalError,
}

/// The signal in the report's `exitsig`, or 0 where it is absent or not a
/// number.
pub open spec fn exit_signal(meta: Seq<EntryView>) -> i32 {
    match lookup(meta, "exitsig"@) {
        Some(v) => match parsed_i32(v) {
            Some(n) => n,
            None => 0,
        },
        None => 0,
    }
}

/// The verdict of a run that compiled, given its report, its expected
/// output and its standard output.
pub open spec fn verdict(
    meta: Seq<EntryView>,
    expected: Option<Seq<char>>,
    stdout: Option<Seq<char>>,
) -> JudgeStatus {
    let status = lookup(meta, "status"@);
    if status == Some("TO"@) {
        JudgeStatus::TimeLimitExceeded
    } else if status == Some("SG"@) {
        JudgeStatus::SignalError(exit_signal(meta))
    } else if status == Some("RE"@) {
        JudgeStatus::RuntimeError
    } else if status == Some("XX"@) {
        JudgeStatus::BoxError
    } else {
        match expected {
            None => JudgeStatus::Accepted,
            Some(e) => {
                let out = match stdout {
                    Some(s) => s,
                    None => Seq::empty(),
                };
                if trim(out) == trim(e) {
                    JudgeStatus::Accepted
                } else {
                    JudgeStatus::WrongAnswer
                }
            },
        }
    }
}

/// The verdict of a whole pipeline: a failed compile first, then a
/// missing report, then the run itself.
pub open spec fn pipeline_verdict(
    compile_failed: bool,
    meta: Option<Seq<EntryView>>,
    expected: Option<Seq<char>>,
    stdout: Option<Seq<char>>,
) -> JudgeStatus {
    if compile_failed {
        JudgeStatus::CompilationError
    } else {
        match meta {
            None => JudgeStatus::BoxError,
            Some(m) => verdict(m, expected, stdout),
        }
    }
}

/// The status under which a verdict is stored. SIGSEGV, SIGXFSZ, SIGFPE
/// and SIGABRT each map to a distinct runtime-error status; sandbox and
/// internal failures map to the internal-error status.
pub open spec fn stored_status(v: JudgeStatus) -> SubmissionStatus {
    match v {
        JudgeStatus::Accepted => SubmissionStatus::Accepted,
        JudgeStatus::WrongAnswer => SubmissionStatus::WrongAnswer,
        JudgeStatus::TimeLimitExceeded => SubmissionStatus::TimeLimitExceeded,
        JudgeStatus::RuntimeError => SubmissionStatus::RuntimeErrorNzec,
        JudgeStatus::SignalError(sig) => if sig == 11 {
            SubmissionStatus::RuntimeErrorSigsegv
        } else if sig == 25 {
            SubmissionStatus::RuntimeErrorSigxfsz
        } else if sig == 8 {
            SubmissionStatus::RuntimeErrorSigfpe
        } else if sig == 6 {
            SubmissionStatus::RuntimeErrorSigabrt
        } else {
            SubmissionStatus::RuntimeErrorOther
        },
        JudgeStatus::CompilationError => SubmissionStatus::CompilationError,
        JudgeStatus::BoxError => SubmissionStatus::InternalError,
        JudgeStatus::InternalError => SubmissionStatus::InternalError,
    }
}

impl JudgeStatus {
    /// The status under which the verdict is stored.
    pub fn submission_status(&self) -> (r: SubmissionStatus)
        ensures
            r == stored_status(*self),
    {
        match self {
            JudgeStatus::Accepted => SubmissionStatus::Accepted,
            JudgeStatus::WrongAnswer => SubmissionStatus::WrongAnswer,
            JudgeStatus::TimeLimitExceeded => SubmissionStatus::TimeLimitExceeded,
            JudgeStatus::RuntimeError => SubmissionStatus::RuntimeErrorNzec,
            JudgeStatus::SignalError(sig) => {
                if *sig == 11 {
                    SubmissionStatus::RuntimeErrorSigsegv
                } else if *sig == 25 {
                    SubmissionStatus::RuntimeErrorSigxfsz
                } else if *sig == 8 {
                    SubmissionStatus::RuntimeErrorSigfpe
                } else if *sig == 6 {
                    SubmissionStatus::RuntimeErrorSigabrt
                } else {
                    SubmissionStatus::RuntimeErrorOther
                }
            },
            JudgeStatus::CompilationError => SubmissionStatus::CompilationError,
            JudgeStatus::BoxError => SubmissionStatus::InternalError,
            JudgeStatus::InternalError => SubmissionStatus::InternalError,
        }
    }
}

/// Whether the report holds `status` with the value `code`.
fn status_is(status: &Option<String>, code: &str) -> (r: bool)
    ensures
        r == (opt_view(*status) == Some(code@)),
{
    match status {
        Some(s) => same_text(s.as_str(), code),
        None => false,
    }
}

/// The verdict of a run that compiled, from its report:
/// `TO`, `SG`, `RE` and `XX` decide first; otherwise the trimmed standard
/// output must equal the trimmed expected output, where there is one.
pub fn determine_status(sub: &NatsSubmission, output: &ProgramOutput, meta: &Metadata) -> (r:
    JudgeStatus)
    ensures
        r == verdict(meta@, opt_view(sub.expected_output), opt_view(output.stdout)),
{
    let status = meta.get("status");
    if status_is(&status, "TO") {
        JudgeStatus::TimeLimitExceeded
    } else if status_is(&status, "SG") {
        let sig = match meta.get("exitsig") {
            Some(v) => match parse_i32(v.as_str()) {
                Some(n) => n,
                None => 0,
            },
            None => 0,
        };
        JudgeStatus::SignalError(sig)
    } else if status_is(&status, "RE") {
        JudgeStatus::RuntimeError
    } else if status_is(&status, "XX") {
        JudgeStatus::BoxError
    } else {
        match &sub.expected_output {
            None => JudgeStatus::Accepted,
            Some(e) => {
                let actual = trim_chars(&chars_of(text_or_empty(&output.stdout).as_str()));
                let expected = trim_chars(&chars_of(e.as_str()));
                proof {
                    let out = match opt_view(output.stdout) {
                        Some(s) => s,
                        None => Seq::empty(),
                    };
                    assert(or_empty(output.stdout) == out);
                }
                if same_chars(&actual, &expected) {
                    JudgeStatus::Accepted
                } else {
                    JudgeStatus::WrongAnswer
                }
            },
        }
    }
}

/// The verdict of a whole pipeline: `CompilationError` where the compile
/// failed, `BoxError` where the jailer wrote no report, else the verdict
/// of the run.
pub fn classify(
    sub: &NatsSubmission,
    compile: &CompileOutcome,
    output: &ProgramOutput,
    meta: &Result<Metadata, SandboxError>,
) -> (r: JudgeStatus)
    ensures
        r == pipeline_verdict(
            compile is Failed,
            match meta {
                Ok(m) => Some(m@),
                Err(_) => None,
            },
            opt_view(sub.expected_output),
            opt_view(output.stdout),
        ),
{
    if let CompileOutcome::Failed(_) = compile {
        return JudgeStatus::CompilationError;
    }
    match meta {
        Ok(m) => determine_status(sub, output, m),
        Err(_) => JudgeStatus::BoxError,
    }
}

/// A pipeline step that could not be carried out.
#[derive(Clone, Copy, Debug, PartialEq, Eq, Structural)]
pub enum StepFailure {
    /// The jailer's `--init` failed or printed no directory.
    SandboxInit,
    /// A file of the sandbox (source, stdin, a script, a stream) could not
    /// be written or opened.
    FileStaging,
    /// The jailer could not be started.
    JailerLaunch,
    /// The pipeline outlived its supervisory timeout.
    Timeout,
    /// The jailer wrote no report.
    MetadataMissing,
}

/// The verdict recorded for a failed step: the service's own file work
/// gives `InternalError`; everything that concerns the sandbox gives
/// `BoxError`.
pub open spec fn failure_verdict(f: StepFailure) -> JudgeStatus {
    match f {
        StepFailure::FileStaging => JudgeStatus::InternalError,
        _ => JudgeStatus::BoxError,
    }
}

impl StepFailure {
    /// The verdict recorded for this failure.
    pub fn verdict(&self) -> (r: JudgeStatus)
        ensures
            r == failure_verdict(*self),
    {
        match self {
            StepFailure::FileStaging => JudgeStatus::InternalError,
            _ => JudgeStatus::BoxError,
        }
    }
}

/// The report's resource figures that could be read.
#[derive(Clone, Copy, Debug, PartialEq, Eq, Structural)]
pub struct ResourceUsage {
    /// CPU time in milliseconds, from `time`.
    pub time_ms: Option<u64>,
    /// Wall-clock time in milliseconds, from `time-wall`.
    pub wall_time_ms: Option<u64>,
    /// Peak memory in KiB: `cg-mem` where present, else `max-rss`.
    pub memory: Option<u64>,
    pub exit_code: Option<i32>,
    pub exit_signal: Option<i32>,
}

/// A number in an optional report value, absent where it is not one.
pub open spec fn count_in(v: Option<Seq<char>>) -> Option<u64> {
    match v {
        Some(s) => if s.len() == 0 || !all_digits(s) || digits_value(s) > u64::MAX {
            None
        } else {
            Some(digits_value(s) as u64)
        },
        None => None,
    }
}

/// A signed number in an optional report value, absent where it is not one.
pub open spec fn int_in(v: Option<Seq<char>>) -> Option<i32> {
    match v {
        Some(s) => parsed_i32(s),
        None => None,
    }
}

/// A seconds figure in an optional report value, in milliseconds; absent
/// where it is not one.
pub open spec fn millis_in(v: Option<Seq<char>>) -> Option<u64> {
    match v {
        Some(s) => millis_of(s),
        None => None,
    }
}

fn millis_from(v: &Option<String>) -> (r: Option<u64>)
    ensures
        r == millis_in(opt_view(*v)),
{
    match v {
        Some(s) => parse_millis(s.as_str()),
        None => None,
    }
}

fn count_of(v: &Option<String>) -> (r: Option<u64>)
    ensures
        r == count_in(opt_view(*v)),
{
    match v {
        Some(s) => parse_u64(s.as_str()),
        None => None,
    }
}

fn int_of(v: &Option<String>) -> (r: Option<i32>)
    ensures
        r == int_in(opt_view(*v)),
{
    match v {
        Some(s) => parse_i32(s.as_str()),
        None => None,
    }
}

impl ResourceUsage {
    /// The figures of a report; one that does not parse is absent.
    pub fn from_metadata(meta: &Metadata) -> (r: ResourceUsage)
        ensures
            r.time_ms == millis_in(lookup(meta@, "time"@)),
            r.wall_time_ms == millis_in(lookup(meta@, "time-wall"@)),
            r.memory == (if lookup(meta@, "cg-mem"@) is Some {
                count_in(lookup(meta@, "cg-mem"@))
            } else {
                count_in(lookup(meta@, "max-rss"@))
            }),
            r.exit_code == int_in(lookup(meta@, "exitcode"@)),
            r.exit_signal == int_in(lookup(meta@, "exitsig"@)),
    {
        let cg = meta.get("cg-mem");
        let memory = if cg.is_some() {
            count_of(&cg)
        } else {
            count_of(&meta.get("max-rss"))
        };
        ResourceUsage {
            time_ms: millis_from(&meta.get("time")),
            wall_time_ms: millis_from(&meta.get("time-wall")),
            memory,
            exit_code: int_of(&meta.get("exitcode")),
            exit_signal: int_of(&meta.get("exitsig")),
        }
    }
}

/// The report holds no run failure: its `status` is none of `TO`, `SG`,
/// `RE` and `XX`.
pub open spec fn clean_run(meta: Seq<EntryView>) -> bool {
    let status = lookup(meta, "status"@);
    status != Some("TO"@) && status != Some("SG"@) && status != Some("RE"@) && status != Some(
        "XX"@,
    )
}

/// Without an expected output, a run that compiled and reported no failure
/// is accepted, whatever it printed.
pub proof fn lemma_no_expected_output_accepted(meta: Seq<EntryView>, stdout: Option<Seq<char>>)
    requires
        clean_run(meta),
    ensures
        pipeline_verdict(false, Some(meta), None, stdout) == JudgeStatus::Accepted,
{
}

/// A failed compile gives `CompilationError`, whatever the report and the
/// outputs, before any report status is looked at.
pub proof fn lemma_failed_compile_is_compilation_error(
    meta: Option<Seq<EntryView>>,
    expected: Option<Seq<char>>,
    stdout: Option<Seq<char>>,
)
    ensures
        pipeline_verdict(true, meta, expected, stdout) == JudgeStatus::CompilationError,
{
}

/// The classifier is a function of its inputs: equal inputs give equal
/// verdicts.
pub proof fn lemma_classifier_deterministic(
    failed1: bool,
    meta1: Option<Seq<EntryView>>,
    expected1: Option<Seq<char>>,
    stdout1: Option<Seq<char>>,
    failed2: bool,
    meta2: Option<Seq<EntryView>>,
    expected2: Option<Seq<char>>,
    stdout2: Option<Seq<char>>,
)
    requires
        failed1 == failed2,
        meta1 == meta2,
        expected1 == expected2,
        stdout1 == stdout2,
    ensures
        pipeline_verdict(failed1, meta1, expected1, stdout1) == pipeline_verdict(
            failed2,
            meta2,
            expected2,
            stdout2,
        ),
{
}

proof fn lemma_trim_start_blank(w: Seq<char>)
    requires
        is_blank(w),
    ensures
        trim_start(w).len() == 0,
    decreases w.len(),
{
    if w.len() > 0 {
        assert(is_ws(w[0]));
        assert(is_blank(w.drop_first())) by {
            assert forall|i: int| 0 <= i < w.drop_first().len() implies is_ws(
                #[trigger] w.drop_first()[i],
            ) by {
                assert(w.drop_first()[i] == w[i + 1]);
            }
        }
        lemma_trim_start_blank(w.drop_first());
    }
}

proof fn lemma_trim_start_append(a: Seq<char>, b: Seq<char>)
    ensures
        trim_start(a).len() > 0 ==> trim_start(a + b) == trim_start(a) + b,
        trim_start(a).len() == 0 ==> trim_start(a + b) == trim_start(b),
    decreases a.len(),
{
    if a.len() == 0 {
        assert(a + b =~= b);
    } else if is_ws(a[0]) {
        assert((a + b).drop_first() =~= a.drop_first() + b);
        lemma_trim_start_append(a.drop_first(), b);
    } else {
        assert((a + b)[0] == a[0]);
    }
}

proof fn lemma_trim_end_blank_suffix(a: Seq<char>, w: Seq<char>)
    requires
        is_blank(w),
    ensures
        trim_end(a + w) == trim_end(a),
    decreases w.len(),
{
    if w.len() == 0 {
        assert(a + w =~= a);
    } else {
        assert((a + w).last() == w.last());
        assert(is_ws(w[w.len() - 1]));
        assert((a + w).drop_last() =~= a + w.drop_last());
        assert(is_blank(w.drop_last())) by {
            assert forall|i: int| 0 <= i < w.drop_last().len() implies is_ws(
                #[trigger] w.drop_last()[i],
            ) by {
                assert(w.drop_last()[i] == w[i]);
            }
        }
        lemma_trim_end_blank_suffix(a, w.drop_last());
    }
}

/// Trailing whitespace does not change a trimmed text.
pub proof fn lemma_trim_blank_suffix(s: Seq<char>, w: Seq<char>)
    requires
        is_blank(w),
    ensures
        trim(s + w) == trim(s),
{
    lemma_trim_start_append(s, w);
    if trim_start(s).len() > 0 {
        lemma_trim_end_blank_suffix(trim_start(s), w);
    } else {
        lemma_trim_start_blank(w);
        assert(trim_start(s) =~= Seq::<char>::empty());
        assert(trim_start(s + w) =~= Seq::<char>::empty());
    }
}

/// An expected output and a standard output that differ only by trailing
/// whitespace, on either side, give `Accepted` on a clean run.
pub proof fn lemma_trailing_whitespace_accepted(
    meta: Seq<EntryView>,
    expected: Seq<char>,
    stdout: Seq<char>,
    w: Seq<char>,
)
    requires
        clean_run(meta),
        is_blank(w),
        expected == stdout + w || stdout == expected + w,
    ensures
        verdict(meta, Some(expected), Some(stdout)) == JudgeStatus::Accepted,
{
    if expected == stdout + w {
        lemma_trim_blank_suffix(stdout, w);
    } else {
        lemma_trim_blank_suffix(expected, w);
    }
}

proof fn lemma_trim_fixed(x: Seq<char>)
    requires
        x.len() > 0,
        !is_ws(x[0]),
        !is_ws(x.last()),
    ensures
        trim(x) == x,
{
}

/// Whitespace inside a line counts: a standard output that lacks a run of
/// whitespace standing between two non-blank ends of the expected output
/// gives `WrongAnswer` on a clean run.
pub proof fn lemma_interior_whitespace_wrong(
    meta: Seq<EntryView>,
    a: Seq<char>,
    w: Seq<char>,
    b: Seq<char>,
)
    requires
        clean_run(meta),
        a.len() > 0,
        b.len() > 0,
        !is_ws(a[0]),
        !is_ws(b.last()),
        w.len() > 0,
        is_blank(w),
    ensures
        verdict(meta, Some(a + w + b), Some(a + b)) == JudgeStatus::WrongAnswer,
{
    assert((a + w + b)[0] == a[0]);
    assert((a + b)[0] == a[0]);
    assert((a + w + b).last() == b.last());
    assert((a + b).last() == b.last());
    lemma_trim_fixed(a + w + b);
    lemma_trim_fixed(a + b);
    assert((a + w + b).len() != (a + b).len());
}

} // verus!
