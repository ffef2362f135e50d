use vstd::prelude::*;

use crate::text::{
    decimal, push_decimal, push_str, split_lines, str_eq, string_of, string_views, text_lines,
    utf8_text,
};
use crate::wr_headless::opt_view;
use crate::wr_telemetry::{RunMetadata, SeedInfo};
use crate::wr_telemetry::verification::{VerificationStepRecord, VerificationStepStatus};
use crate::wr_tools_harness::contract::{
    ArtifactDescriptor, FailureKind, HarnessStatus, ResultEnvelope, TestResultBundle,
    TestSuiteResult,
};

verus! {

/// The command name under which verification runs file their artifacts.
pub const VERIFY_COMMAND_NAME: &'static str = "verify";

/// The file that holds a verification run's step records.
pub const VERIFY_STEP_RECORDS_FILENAME: &'static str = "verify_steps.json";

/// The file that holds a verification run's trace log.
pub const TRACE_LOG_FILENAME: &'static str = "trace.jsonl";

/// Where a verification run wrote its terminal report, and whether it passed.
#[derive(Debug, Clone, PartialEq, Eq)]
pub struct VerifyOutcome {
    pub terminal_report_path: String,
    pub succeeded: bool,
}

/// The outcome of reading the verify command's arguments from index `i` on: `--run-id` takes
/// the next argument (a later one wins), anything else is refused.
pub open spec fn verify_options_from(args: Seq<Seq<char>>, i: nat, run_id: Option<Seq<char>>) -> Result<
    Option<Seq<char>>,
    Seq<char>,
>
    decreases args.len() - i,
{
    if i >= args.len() {
        Ok(run_id)
    } else if args[i as int] == "--run-id"@ {
        if i + 1 >= args.len() {
            Err("expected a value after --run-id"@)
        } else {
            verify_options_from(args, i + 2, Some(args[i + 1 as int]))
        }
    } else {
        Err("unsupported argument `"@ + args[i as int] + "` for verify; supported flags: --run-id"@)
    }
}

/// The verify command's arguments.
#[derive(Debug, Clone, PartialEq, Eq)]
pub struct VerifyOptions {
    pub run_id: Option<String>,
}

impl VerifyOptions {
    /// Reads the verify command's arguments as `verify_options_from` describes.
    pub fn parse(args: Vec<String>) -> (r: Result<Self, String>)
        ensures
            match verify_options_from(string_views(args@), 0, None) {
                Ok(v) => r matches Ok(o) && v == opt_view(o.run_id),
                Err(e) => r matches Err(x) && x@ == e,
            },
    {
        let ghost views = string_views(args@);
        let mut run_id: Option<String> = None;
        let n = args.len();
        let mut i: usize = 0;
        while i < n
            invariant
                i <= n == args@.len(),
                views == string_views(args@),
                verify_options_from(views, 0, None) == verify_options_from(
                    views,
                    i as nat,
                    opt_view(run_id),
                ),
            decreases n - i,
        {
            let arg = args[i].as_str();
            assert(arg@ == views[i as int]);
            if str_eq(arg, "--run-id") {
                if n - i <= 1 {
                    return Err(string_of("expected a value after --run-id"));
                }
                assert(args@[i + 1]@ == views[i + 1]);
                run_id = Some(args[i + 1].clone());
                i = i + 2;
            } else {
                let mut m = string_of("unsupported argument `");
                push_str(&mut m, arg);
                push_str(&mut m, "` for verify; supported flags: --run-id");
                return Err(m);
            }
        }
        Ok(VerifyOptions { run_id })
    }
}

/// The run id a verification run gets when none is given: `verify-` and the start time in
/// milliseconds.
pub fn default_verify_run_id(now_unix_ms: u64) -> (r: String)
    ensures
        r@ == "verify-"@ + decimal(now_unix_ms as nat),
{
    let mut r = string_of("verify-");
    push_decimal(&mut r, now_unix_ms);
    r
}

/// How many tests of a suite passed, failed and were ignored.
#[derive(Debug, Clone, Copy, PartialEq, Eq, Structural)]
pub struct SuiteCounts {
    pub passed: u32,
    pub failed: u32,
    pub ignored: u32,
}

impl SuiteCounts {
    /// The counts of a suite that is one command: one pass, or one failure.
    pub fn command_level(success: bool) -> (r: Self)
        ensures
            r == (if success {
                SuiteCounts { passed: 1, failed: 0, ignored: 0 }
            } else {
                SuiteCounts { passed: 0, failed: 1, ignored: 0 }
            }),
    {
        if success {
            SuiteCounts { passed: 1, failed: 0, ignored: 0 }
        } else {
            SuiteCounts { passed: 0, failed: 1, ignored: 0 }
        }
    }
}

/// Whether `s` ends with `suffix`.
pub open spec fn ends_with(s: Seq<char>, suffix: Seq<char>) -> bool {
    suffix.len() <= s.len() && s.subrange(s.len() - suffix.len(), s.len() as int) == suffix
}

fn str_ends_with(s: &str, suffix: &str) -> (r: bool)
    ensures
        r == ends_with(s@, suffix@),
{
    let n = s.unicode_len();
    let k = suffix.unicode_len();
    if k > n {
        return false;
    }
    let mut i: usize = 0;
    while i < k
        invariant
            k <= n,
            n == s@.len(),
            k == suffix@.len(),
            i <= k,
            forall|j: int| 0 <= j < i ==> s@[n - k + j] == suffix@[j],
        decreases k - i,
    {
        if s.get_char(n - k + i) != suffix.get_char(i) {
            assert(s@.subrange(n - k, n as int)[i as int] != suffix@[i as int]);
            return false;
        }
        i = i + 1;
    }
    assert(s@.subrange(n - k, n as int) =~= suffix@);
    true
}

/// The media type of a suite's captured standard output, by its file name: JSON lines,
/// JSON, or plain text.
pub open spec fn stdout_media_type_of(filename: Seq<char>) -> Seq<char> {
    if ends_with(filename, ".jsonl"@) {
        "application/x-ndjson"@
    } else if ends_with(filename, ".json"@) {
        "application/json"@
    } else {
        "text/plain"@
    }
}

/// The media type of a suite's captured standard output, as `stdout_media_type_of` describes.
pub fn stdout_media_type(stdout_filename: &str) -> (r: &'static str)
    ensures
        r@ == stdout_media_type_of(stdout_filename@),
{
    if str_ends_with(stdout_filename, ".jsonl") {
        "application/x-ndjson"
    } else if str_ends_with(stdout_filename, ".json") {
        "application/json"
    } else {
        "text/plain"
    }
}

/// What running one verification suite produced.
#[derive(Debug, Clone, PartialEq, Eq)]
pub struct SuiteExecution {
    pub record: VerificationStepRecord,
    pub counts: SuiteCounts,
    pub extra_artifacts: Vec<ArtifactDescriptor>,
    pub failure_kind: FailureKind,
    pub failure_details: Option<String>,
}

/// The progress of a verification run: the steps, suites and artifacts so far, and the
/// failure that stopped it, if any.
#[derive(Debug, Clone, PartialEq, Eq)]
pub struct VerifyProgress {
    pub steps: Vec<VerificationStepRecord>,
    pub suites: Vec<TestSuiteResult>,
    pub artifacts: Vec<ArtifactDescriptor>,
    pub failure_kind: Option<FailureKind>,
    pub failure_details: Option<String>,
}

/// The suite result that a step record and its counts give.
pub open spec fn suite_result_of(record: VerificationStepRecord, counts: SuiteCounts) -> (
    Seq<char>,
    u32,
    u32,
    u32,
    u64,
    Option<Seq<char>>,
    Option<Seq<char>>,
) {
    (
        record.suite_name@,
        counts.passed,
        counts.failed,
        counts.ignored,
        record.duration_ms,
        opt_view(record.stdout_artifact),
        opt_view(record.stderr_artifact),
    )
}

/// The fields of a suite result.
pub open spec fn suite_fields(s: TestSuiteResult) -> (
    Seq<char>,
    u32,
    u32,
    u32,
    u64,
    Option<Seq<char>>,
    Option<Seq<char>>,
) {
    (
        s.name@,
        s.passed,
        s.failed,
        s.ignored,
        s.duration_ms,
        opt_view(s.stdout_artifact),
        opt_view(s.stderr_artifact),
    )
}

fn copy_opt(s: &Option<String>) -> (r: Option<String>)
    ensures
        opt_view(r) == opt_view(*s),
{
    match s {
        Some(t) => Some(string_of(t.as_str())),
        None => None,
    }
}

impl VerifyProgress {
    /// A run with no steps yet, holding the given artifacts.
    pub fn new(artifacts: Vec<ArtifactDescriptor>) -> (r: Self)
        ensures
            r.steps@.len() == 0,
            r.suites@.len() == 0,
            r.artifacts == artifacts,
            r.failure_kind.is_none(),
            r.failure_details.is_none(),
    {
        VerifyProgress {
            steps: Vec::new(),
            suites: Vec::new(),
            artifacts,
            failure_kind: None,
            failure_details: None,
        }
    }

    /// Records one suite's result and says whether the run stops. A suite that ran adds its
    /// artifacts, its suite result and its step; it stops the run, with its failure, when the
    /// step failed. A suite that did not run changes nothing. An error stops the run as a
    /// build failure with the error as its details.
    pub fn record_suite_result(&mut self, result: Result<Option<SuiteExecution>, String>) -> (stop:
        bool)
        ensures
            match result {
                Ok(Some(ex)) => {
                    &&& final(self).artifacts@ == old(self).artifacts@ + ex.extra_artifacts@
                    &&& final(self).steps@ == old(self).steps@.push(ex.record)
                    &&& final(self).suites@.len() == old(self).suites@.len() + 1
                    &&& final(self).suites@.subrange(0, old(self).suites@.len() as int)
                        == old(self).suites@
                    &&& suite_fields(final(self).suites@.last()) == suite_result_of(
                        ex.record,
                        ex.counts,
                    )
                    &&& stop == (ex.record.status == VerificationStepStatus::Failed)
                    &&& stop ==> final(self).failure_kind == Some(ex.failure_kind)
                        && final(self).failure_details == ex.failure_details
                    &&& !stop ==> final(self).failure_kind == old(self).failure_kind
                        && final(self).failure_details == old(self).failure_details
                },
                Ok(None) => !stop && *final(self) == *old(self),
                Err(e) => {
                    &&& stop
                    &&& final(self).steps == old(self).steps
                    &&& final(self).suites == old(self).suites
                    &&& final(self).artifacts == old(self).artifacts
                    &&& final(self).failure_kind == Some(FailureKind::BuildFailed)
                    &&& final(self).failure_details == Some(e)
                },
            },
    {
        match result {
            Ok(Some(execution)) => {
                let SuiteExecution {
                    record,
                    counts,
                    extra_artifacts,
                    failure_kind,
                    failure_details,
                } = execution;
                let mut extra_artifacts = extra_artifacts;
                self.artifacts.append(&mut extra_artifacts);
                let suite = TestSuiteResult {
                    name: string_of(record.suite_name.as_str()),
                    passed: counts.passed,
                    failed: counts.failed,
                    ignored: counts.ignored,
                    duration_ms: record.duration_ms,
                    stdout_artifact: copy_opt(&record.stdout_artifact),
                    stderr_artifact: copy_opt(&record.stderr_artifact),
                };
                let ghost old_suites = self.suites@;
                self.suites.push(suite);
                assert(self.suites@.subrange(0, old_suites.len() as int) =~= old_suites);
                let failed_step = record.status == VerificationStepStatus::Failed;
                self.steps.push(record);
                if failed_step {
                    self.failure_kind = Some(failure_kind);
                    self.failure_details = failure_details;
                    true
                } else {
                    false
                }
            },
            Ok(None) => false,
            Err(error) => {
                self.failure_kind = Some(FailureKind::BuildFailed);
                self.failure_details = Some(error);
                true
            },
        }
    }

    /// The run's result: passed with its summary when nothing failed, otherwise failed with
    /// the failure and its details.
    pub fn result_envelope(&self) -> (r: ResultEnvelope)
        ensures
            self.failure_kind.is_none() ==> r.status == HarnessStatus::Passed && r.summary@
                == "Workspace verification stack passed."@,
            self.failure_kind.is_some() ==> r.status == HarnessStatus::Failed && r.summary@
                == "Workspace verification stack failed."@,
            r.failure_kind == self.failure_kind,
            opt_view(r.details) == opt_view(self.failure_details),
    {
        let failed = self.failure_kind.is_some();
        ResultEnvelope {
            status: if failed {
                HarnessStatus::Failed
            } else {
                HarnessStatus::Passed
            },
            summary: if failed {
                string_of("Workspace verification stack failed.")
            } else {
                string_of("Workspace verification stack passed.")
            },
            failure_kind: self.failure_kind,
            details: copy_opt(&self.failure_details),
        }
    }
}

/// The fields of one line of nextest's JSON output that the suite count reads: the line's
/// `type`, `event`, and the `passed`, `failed` and `ignored` counts, each when present with
/// the right type.
#[derive(Debug, Clone, PartialEq, Eq)]
pub struct NextestEvent {
    pub kind: Option<String>,
    pub event: Option<String>,
    pub passed: Option<u64>,
    pub failed: Option<u64>,
    pub ignored: Option<u64>,
}

/// Whether a line reports a finished suite: a `suite` line whose event is `ok` or `failed`.
pub open spec fn is_finished_suite(e: NextestEvent) -> bool {
    opt_view(e.kind) == Some("suite"@) && (opt_view(e.event) == Some("ok"@) || opt_view(e.event)
        == Some("failed"@))
}

/// A count as the suite count adds it: its low 32 bits, or 0 when absent.
pub open spec fn low_count(v: Option<u64>) -> nat {
    match v {
        Some(n) => (n as u32) as nat,
        None => 0,
    }
}

/// The totals of the finished suites among `events` (lines that are not JSON are `None`), and
/// whether there was one.
pub open spec fn suite_totals(events: Seq<Option<NextestEvent>>) -> (nat, nat, nat, bool)
    decreases events.len(),
{
    if events.len() == 0 {
        (0, 0, 0, false)
    } else {
        let t = suite_totals(events.drop_last());
        match events.last() {
            Some(e) => if is_finished_suite(e) {
                (t.0 + low_count(e.passed), t.1 + low_count(e.failed), t.2 + low_count(e.ignored), true)
            } else {
                t
            },
            None => t,
        }
    }
}

proof fn lemma_suite_totals_grow(events: Seq<Option<NextestEvent>>, i: int)
    requires
        0 <= i <= events.len(),
    ensures
        suite_totals(events.subrange(0, i)).0 <= suite_totals(events).0,
        suite_totals(events.subrange(0, i)).1 <= suite_totals(events).1,
        suite_totals(events.subrange(0, i)).2 <= suite_totals(events).2,
    decreases events.len() - i,
{
    if i < events.len() {
        lemma_suite_totals_grow(events, i + 1);
        assert(events.subrange(0, i + 1).drop_last() =~= events.subrange(0, i));
    } else {
        assert(events.subrange(0, i) =~= events);
    }
}

fn opt_str_is(s: &Option<String>, text: &str) -> (r: bool)
    ensures
        r == (opt_view(*s) == Some(text@)),
{
    match s {
        Some(t) => str_eq(t.as_str(), text),
        None => false,
    }
}

fn low_bits(v: Option<u64>) -> (r: u32)
    ensures
        r == low_count(v),
{
    match v {
        Some(n) => n as u32,
        None => 0,
    }
}

/// Whether the totals of the finished suites among the lines' events fit in `u32`, as
/// `count_suite_events` needs.
pub fn suite_totals_fit(events: &Vec<Option<NextestEvent>>) -> (r: bool)
    ensures
        r == (suite_totals(events@).0 <= u32::MAX && suite_totals(events@).1 <= u32::MAX
            && suite_totals(events@).2 <= u32::MAX),
{
    let mut passed: u64 = 0;
    let mut failed: u64 = 0;
    let mut ignored: u64 = 0;
    let mut i: usize = 0;
    while i < events.len()
        invariant
            i <= events@.len(),
            passed <= u32::MAX && failed <= u32::MAX && ignored <= u32::MAX,
            suite_totals(events@.subrange(0, i as int)).0 == passed,
            suite_totals(events@.subrange(0, i as int)).1 == failed,
            suite_totals(events@.subrange(0, i as int)).2 == ignored,
        decreases events@.len() - i,
    {
        proof {
            assert(events@.subrange(0, i + 1).drop_last() =~= events@.subrange(0, i as int));
        }
        match &events[i] {
            Some(e) => {
                let suite = opt_str_is(&e.kind, "suite");
                let finished = opt_str_is(&e.event, "ok") || opt_str_is(&e.event, "failed");
                if suite && finished {
                    passed = passed + low_bits(e.passed) as u64;
                    failed = failed + low_bits(e.failed) as u64;
                    ignored = ignored + low_bits(e.ignored) as u64;
                }
            },
            None => {},
        }
        if passed > 4294967295 || failed > 4294967295 || ignored > 4294967295 {
            proof {
                lemma_suite_totals_grow(events@, i + 1);
            }
            return false;
        }
        i = i + 1;
    }
    assert(events@.subrange(0, events@.len() as int) =~= events@);
    true
}

/// The counts of the finished suites among the lines' events, summed; none when no suite
/// finished. The totals must fit in `u32`.
pub fn count_suite_events(events: &Vec<Option<NextestEvent>>) -> (r: Option<SuiteCounts>)
    requires
        suite_totals(events@).0 <= u32::MAX,
        suite_totals(events@).1 <= u32::MAX,
        suite_totals(events@).2 <= u32::MAX,
    ensures
        ({
            let t = suite_totals(events@);
            &&& t.3 ==> r == Some(
                SuiteCounts { passed: t.0 as u32, failed: t.1 as u32, ignored: t.2 as u32 },
            )
            &&& !t.3 ==> r is None
        }),
{
    let mut passed: u32 = 0;
    let mut failed: u32 = 0;
    let mut ignored: u32 = 0;
    let mut saw = false;
    let mut i: usize = 0;
    while i < events.len()
        invariant
            i <= events@.len(),
            suite_totals(events@).0 <= u32::MAX,
            suite_totals(events@).1 <= u32::MAX,
            suite_totals(events@).2 <= u32::MAX,
            suite_totals(events@.subrange(0, i as int)) == (
                passed as nat,
                failed as nat,
                ignored as nat,
                saw,
            ),
        decreases events@.len() - i,
    {
        proof {
            assert(events@.subrange(0, i + 1).drop_last() =~= events@.subrange(0, i as int));
            lemma_suite_totals_grow(events@, i + 1);
        }
        match &events[i] {
            Some(e) => {
                let suite = opt_str_is(&e.kind, "suite");
                let finished = opt_str_is(&e.event, "ok") || opt_str_is(&e.event, "failed");
                if suite && finished {
                    passed = passed + low_bits(e.passed);
                    failed = failed + low_bits(e.failed);
                    ignored = ignored + low_bits(e.ignored);
                    saw = true;
                }
            },
            None => {},
        }
        i = i + 1;
    }
    assert(events@.subrange(0, events@.len() as int) =~= events@);
    if saw {
        Some(SuiteCounts { passed, failed, ignored })
    } else {
        None
    }
}

/// A line's fields as the suite count reads them: `type`, `event`, `passed`, `failed` and
/// `ignored`.
pub type EventFields = (Option<Seq<char>>, Option<Seq<char>>, Option<u64>, Option<u64>, Option<u64>);

/// What `serde_json` reads from a line of nextest output: nothing when the line is not one
/// JSON value; else the `type` and `event` strings and the `passed`, `failed` and `ignored`
/// unsigned counts, each present when the value is an object holding that key with a value of
/// that kind.
pub uninterp spec fn nextest_line_fields(line: Seq<char>) -> Option<
    (Option<Seq<char>>, Option<Seq<char>>, Option<u64>, Option<u64>, Option<u64>),
>;

/// An event by its fields.
pub open spec fn event_fields(e: Option<NextestEvent>) -> Option<EventFields> {
    match e {
        Some(x) => Some((opt_view(x.kind), opt_view(x.event), x.passed, x.failed, x.ignored)),
        None => None,
    }
}

/// `serde_json::from_str::<serde_json::Value>` on one line of nextest output, keeping the
/// `type` and `event` strings and the `passed`, `failed` and `ignored` counts that
/// `Value::get` with `Value::as_str` / `Value::as_u64` finds. What the parse gives is named
/// (`nextest_line_fields`), not stated.
#[verifier::external_body]
fn nextest_event(line: &str) -> (r: Option<NextestEvent>)
    ensures
        event_fields(r) == nextest_line_fields(line@),
{
    let v: serde_json::Value = serde_json::from_str(line).ok()?;
    Some(NextestEvent {
        kind: v.get("type").and_then(serde_json::Value::as_str).map(String::from),
        event: v.get("event").and_then(serde_json::Value::as_str).map(String::from),
        passed: v.get("passed").and_then(serde_json::Value::as_u64),
        failed: v.get("failed").and_then(serde_json::Value::as_u64),
        ignored: v.get("ignored").and_then(serde_json::Value::as_u64),
    })
}

/// The events of nextest's output, one per line as `str::lines` splits it.
pub fn nextest_events(stdout: &str) -> (r: Vec<Option<NextestEvent>>)
    ensures
        r@.len() == text_lines(stdout@).len(),
        forall|i: int|
            0 <= i < r@.len() ==> event_fields(#[trigger] r@[i]) == nextest_line_fields(
                text_lines(stdout@)[i],
            ),
{
    let lines = split_lines(stdout);
    let mut r: Vec<Option<NextestEvent>> = Vec::new();
    let mut i: usize = 0;
    while i < lines.len()
        invariant
            i <= lines@.len(),
            string_views(lines@) == text_lines(stdout@),
            r@.len() == i,
            forall|k: int|
                0 <= k < i ==> event_fields(#[trigger] r@[k]) == nextest_line_fields(
                    text_lines(stdout@)[k],
                ),
        decreases lines@.len() - i,
    {
        assert(string_views(lines@)[i as int] == lines@[i as int]@);
        r.push(nextest_event(lines[i].as_str()));
        i = i + 1;
    }
    r
}

/// Whether a line's fields report a finished suite: type `suite`, event `ok` or `failed`.
pub open spec fn is_finished_suite_fields(f: EventFields) -> bool {
    f.0 == Some("suite"@) && (f.1 == Some("ok"@) || f.1 == Some("failed"@))
}

/// The totals of the finished suites among lines' fields, and whether there was one.
pub open spec fn field_totals(fs: Seq<Option<EventFields>>) -> (nat, nat, nat, bool)
    decreases fs.len(),
{
    if fs.len() == 0 {
        (0, 0, 0, false)
    } else {
        let t = field_totals(fs.drop_last());
        match fs.last() {
            Some(f) => if is_finished_suite_fields(f) {
                (t.0 + low_count(f.2), t.1 + low_count(f.3), t.2 + low_count(f.4), true)
            } else {
                t
            },
            None => t,
        }
    }
}

/// The fields of each line of nextest's output, or nothing when the output is not UTF-8.
pub open spec fn stdout_fields(stdout: Seq<u8>) -> Option<Seq<Option<EventFields>>> {
    if vstd::utf8::valid_utf8(stdout) {
        Some(
            text_lines(vstd::utf8::decode_utf8(stdout)).map_values(
                |l: Seq<char>| nextest_line_fields(l),
            ),
        )
    } else {
        None
    }
}

proof fn lemma_suite_totals_by_fields(events: Seq<Option<NextestEvent>>)
    ensures
        suite_totals(events) == field_totals(
            events.map_values(|e: Option<NextestEvent>| event_fields(e)),
        ),
    decreases events.len(),
{
    if events.len() > 0 {
        lemma_suite_totals_by_fields(events.drop_last());
        assert(events.map_values(|e: Option<NextestEvent>| event_fields(e)).drop_last()
            =~= events.drop_last().map_values(|e: Option<NextestEvent>| event_fields(e)));
    }
}

/// The suite counts in nextest's raw output: the sums of the finished suites' counts over its
/// lines, or none when no suite finished or the output is not UTF-8. Gives nothing at all when
/// a total does not fit in `u32`, where adding up the counts overflows.
pub fn nextest_suite_counts(stdout: &[u8]) -> (r: Option<Option<SuiteCounts>>)
    ensures
        match stdout_fields(stdout@) {
            None => r == Some(None::<SuiteCounts>),
            Some(fs) => {
                let t = field_totals(fs);
                if t.0 <= u32::MAX && t.1 <= u32::MAX && t.2 <= u32::MAX {
                    r == Some(
                        if t.3 {
                            Some(SuiteCounts { passed: t.0 as u32, failed: t.1 as u32, ignored: t.2 as u32 })
                        } else {
                            None
                        },
                    )
                } else {
                    r is None
                }
            },
        },
{
    match utf8_text(stdout) {
        None => Some(None),
        Some(text) => {
            let events = nextest_events(text);
            proof {
                lemma_suite_totals_by_fields(events@);
                assert(events@.map_values(|e: Option<NextestEvent>| event_fields(e))
                    =~= text_lines(text@).map_values(|l: Seq<char>| nextest_line_fields(l)));
            }
            if suite_totals_fit(&events) {
                Some(count_suite_events(&events))
            } else {
                None
            }
        },
    }
}

/// The message of a failed nextest run.
pub open spec fn nextest_failed_message() -> Seq<char> {
    "nextest run failed; inspect the nextest JSON and JUnit artifacts"@
}

/// The message of a failed nextest test inventory.
pub open spec fn nextest_inventory_failed_message() -> Seq<char> {
    "nextest test inventory export failed; inspect the nextest-list artifacts"@
}

/// The nextest suite when the test inventory could not be exported: the listing's record, one
/// failure, a test failure with the inventory message, and the artifacts so far.
pub fn nextest_inventory_failure(
    record: VerificationStepRecord,
    extra_artifacts: Vec<ArtifactDescriptor>,
) -> (r: SuiteExecution)
    ensures
        r.record == record,
        r.counts == (SuiteCounts { passed: 0, failed: 1, ignored: 0 }),
        r.extra_artifacts == extra_artifacts,
        r.failure_kind == FailureKind::TestFailed,
        r.failure_details matches Some(d) && d@ == nextest_inventory_failed_message(),
{
    SuiteExecution {
        record,
        counts: SuiteCounts::command_level(false),
        extra_artifacts,
        failure_kind: FailureKind::TestFailed,
        failure_details: Some(
            string_of("nextest test inventory export failed; inspect the nextest-list artifacts"),
        ),
    }
}

/// The counts a nextest run reports: those parsed from its output, or one pass or one failure
/// by the run's status when none were; a failed run that counted no failure counts one.
pub open spec fn nextest_run_counts(status: VerificationStepStatus, parsed: Option<SuiteCounts>) -> SuiteCounts {
    let base = match parsed {
        Some(c) => c,
        None => if status == VerificationStepStatus::Passed {
            SuiteCounts { passed: 1, failed: 0, ignored: 0 }
        } else {
            SuiteCounts { passed: 0, failed: 1, ignored: 0 }
        },
    };
    if status == VerificationStepStatus::Failed && base.failed == 0 {
        SuiteCounts { failed: 1, ..base }
    } else {
        base
    }
}

/// The nextest suite of a run: its record, the counts `nextest_run_counts` gives, the
/// artifacts, a test failure kind, and the failure message exactly when a failure was counted.
pub fn finish_nextest_run(
    record: VerificationStepRecord,
    parsed: Option<SuiteCounts>,
    extra_artifacts: Vec<ArtifactDescriptor>,
) -> (r: SuiteExecution)
    ensures
        r.record == record,
        r.counts == nextest_run_counts(record.status, parsed),
        r.extra_artifacts == extra_artifacts,
        r.failure_kind == FailureKind::TestFailed,
        r.counts.failed > 0 ==> (r.failure_details matches Some(d) && d@ == nextest_failed_message()),
        r.counts.failed == 0 ==> r.failure_details is None,
{
    let mut counts = match parsed {
        Some(c) => c,
        None => SuiteCounts::command_level(record.status == VerificationStepStatus::Passed),
    };
    if record.status == VerificationStepStatus::Failed && counts.failed == 0 {
        counts.failed = 1;
    }
    let failure_details = if counts.failed > 0 {
        Some(string_of("nextest run failed; inspect the nextest JSON and JUnit artifacts"))
    } else {
        None
    };
    SuiteExecution {
        record,
        counts,
        extra_artifacts,
        failure_kind: FailureKind::TestFailed,
        failure_details,
    }
}

/// The notes of every verification bundle.
pub open spec fn verify_bundle_notes() -> Seq<Seq<char>> {
    seq![
        "cargo xtask verify is the repo-standard wrapper for fmt, clippy, nextest, and the selected benchmark group."@,
        "nextest snapshot failures are configured to emit human-readable diffs and .snap.new review artifacts."@,
    ]
}

/// The terminal bundle of a verification run: its metadata, suites, artifacts and result
/// under the verification stack's seed record and notes.
pub fn verify_bundle(
    metadata: RunMetadata,
    suites: Vec<TestSuiteResult>,
    artifacts: Vec<ArtifactDescriptor>,
    result: ResultEnvelope,
) -> (r: TestResultBundle)
    ensures
        r.schema_version@ == "wr_harness/v1"@,
        r.metadata == metadata,
        r.seed.label@ == "verification_stack"@,
        r.seed.value_hex@ == "0x00000000"@,
        opt_view(r.seed.stream) == Some("repo-automation"@),
        r.result == result,
        r.suites == suites,
        r.artifacts == artifacts,
        r.notes matches Some(n) && string_views(n@) == verify_bundle_notes(),
{
    let notes = vec![
        string_of(
            "cargo xtask verify is the repo-standard wrapper for fmt, clippy, nextest, and the selected benchmark group.",
        ),
        string_of(
            "nextest snapshot failures are configured to emit human-readable diffs and .snap.new review artifacts.",
        ),
    ];
    assert(string_views(notes@) =~= verify_bundle_notes());
    TestResultBundle {
        schema_version: string_of("wr_harness/v1"),
        metadata,
        seed: SeedInfo {
            label: string_of("verification_stack"),
            value_hex: string_of("0x00000000"),
            stream: Some(string_of("repo-automation")),
        },
        result,
        suites,
        artifacts,
        notes: Some(notes),
    }
}

} // verus!
