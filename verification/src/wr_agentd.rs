use vstd::prelude::*;

use crate::text::{decimal, push_char, push_decimal, push_str, string_of, string_views};
use crate::wr_core::{CrateBoundary, CrateEntryPoint, entry_card};
use crate::wr_tools_harness::artifact_paths::{
    ArtifactLayout, join_path, path_join, run_directory_of, terminal_report_of,
};
use crate::wr_tools_harness::contract::{
    ArtifactDescriptor, DaemonCommandRequest, DaemonJobSnapshot, DaemonJobState,
    DaemonLaunchRequest, HARNESS_SCHEMA_VERSION, HarnessError, artifact_command_str,
    request_refusal, request_run_id, request_with_run_id,
};
use crate::wr_headless::artifact_is;

verus! {

/// The command name under which the daemon files each job's logs.
pub const DAEMON_COMMAND_NAME: &'static str = "daemon";

/// The file of a job's standard output.
pub const STDOUT_LOG_FILENAME: &'static str = "stdout.log";

/// The file of a job's standard error.
pub const STDERR_LOG_FILENAME: &'static str = "stderr.log";

/// The entry point of the agent daemon: an app shell, integration-only.
pub fn init_entrypoint() -> (r: CrateEntryPoint)
    ensures
        entry_card(r, "wr_agentd"@, CrateBoundary::AppShell, true),
{
    CrateEntryPoint::new("wr_agentd", CrateBoundary::AppShell, true)
}

/// The runtime the daemon drives: the game composition crate.
pub fn target_runtime() -> (r: CrateEntryPoint)
    ensures
        entry_card(r, "wr_game"@, CrateBoundary::Composition, true),
{
    crate::wr_game::init_entrypoint()
}

/// The program and leading arguments the daemon runs each command with.
#[derive(Debug, Clone, PartialEq, Eq)]
pub struct CommandRunnerSpec {
    pub program: String,
    pub prefix_args: Vec<String>,
}

impl Default for CommandRunnerSpec {
    fn default() -> (r: Self)
        ensures
            r.program@ == "cargo"@,
            string_views(r.prefix_args@) == seq!["xtask"@],
    {
        let prefix_args = vec![string_of("xtask")];
        assert(string_views(prefix_args@) =~= seq!["xtask"@]);
        CommandRunnerSpec { program: string_of("cargo"), prefix_args }
    }
}

/// `n` in decimal, padded with leading zeros to at least `width` digits.
pub open spec fn zero_padded(n: nat, width: nat) -> Seq<char> {
    let d = decimal(n);
    if d.len() < width {
        Seq::new((width - d.len()) as nat, |i: int| '0') + d
    } else {
        d
    }
}

/// The id of the daemon's job number `n`: `job-` and the number, at least four digits.
pub open spec fn job_id_text(n: u64) -> Seq<char> {
    "job-"@ + zero_padded(n as nat, 4)
}

/// The id of the daemon's job number `n`, as `job_id_text` describes.
pub fn job_id(n: u64) -> (r: String)
    ensures
        r@ == job_id_text(n),
{
    let mut digits = String::new();
    push_decimal(&mut digits, n);
    let len = digits.unicode_len();
    let mut r = string_of("job-");
    let ghost start = r@;
    let mut k: usize = len;
    while k < 4
        invariant
            len <= k <= 4 || (len > 4 && k == len),
            len == decimal(n as nat).len(),
            r@ == start + Seq::new((k - len) as nat, |i: int| '0'),
        decreases 4 - k,
    {
        push_char(&mut r, '0');
        k = k + 1;
        assert(r@ =~= start + Seq::new((k - len) as nat, |i: int| '0'));
    }
    push_str(&mut r, digits.as_str());
    proof {
        if len >= 4 {
            assert(Seq::new((k - len) as nat, |i: int| '0') =~= Seq::<char>::empty());
        }
    }
    assert(r@ =~= job_id_text(n));
    r
}

/// `s` with every `-` turned into `_`.
pub open spec fn underscored(s: Seq<char>) -> Seq<char> {
    s.map_values(|c: char| if c == '-' { '_' } else { c })
}

/// The run id the daemon gives a command that has none: its artifact command name with
/// dashes turned into underscores, a dash, and the job id.
pub open spec fn daemon_run_id_text(command: DaemonCommandRequest, job_id: Seq<char>) -> Seq<char> {
    underscored(artifact_command_str(command)) + "-"@ + job_id
}

/// The run id a launched command runs under: its own, or the daemon's.
pub fn launch_run_id(command: &DaemonCommandRequest, job_id: &str) -> (r: String)
    ensures
        r@ == match request_run_id(*command) {
            Some(id) => id,
            None => daemon_run_id_text(*command, job_id@),
        },
{
    match command.run_id() {
        Some(id) => string_of(id),
        None => {
            let name = command.artifact_command_name();
            let n = name.unicode_len();
            let mut r = String::new();
            let mut i: usize = 0;
            while i < n
                invariant
                    i <= n == name@.len(),
                    r@ == underscored(name@).subrange(0, i as int),
                decreases n - i,
            {
                let c = name.get_char(i);
                push_char(&mut r, if c == '-' { '_' } else { c });
                i = i + 1;
                assert(r@ =~= underscored(name@).subrange(0, i as int));
            }
            assert(underscored(name@).subrange(0, n as int) =~= underscored(name@));
            push_str(&mut r, "-");
            push_str(&mut r, job_id);
            r
        },
    }
}

/// The artifacts a daemon job lists: its standard output and error logs, the command's
/// terminal report when the command has a run id, and the job's run directory.
pub fn daemon_job_artifacts(job_id: &str, command: &DaemonCommandRequest) -> (r: Vec<
    ArtifactDescriptor,
>)
    ensures
        r@.len() == (if request_run_id(*command) is Some {
            4int
        } else {
            3
        }),
        artifact_is(
            r@[0],
            "daemon_stdout"@,
            path_join(run_directory_of("daemon"@, job_id@), "stdout.log"@),
            "text/plain"@,
        ),
        artifact_is(
            r@[1],
            "daemon_stderr"@,
            path_join(run_directory_of("daemon"@, job_id@), "stderr.log"@),
            "text/plain"@,
        ),
        request_run_id(*command) is Some ==> artifact_is(
            r@[2],
            "terminal_report"@,
            terminal_report_of(artifact_command_str(*command), request_run_id(*command)->0),
            "application/json"@,
        ),
        artifact_is(
            r@[r@.len() - 1],
            "daemon_run_directory"@,
            run_directory_of("daemon"@, job_id@),
            "inode/directory"@,
        ),
{
    let layout = ArtifactLayout::new(DAEMON_COMMAND_NAME, job_id);
    let dir = layout.run_directory();
    let mut r: Vec<ArtifactDescriptor> = Vec::new();
    r.push(
        ArtifactDescriptor {
            role: string_of("daemon_stdout"),
            path: join_path(dir.as_str(), STDOUT_LOG_FILENAME),
            media_type: string_of("text/plain"),
        },
    );
    r.push(
        ArtifactDescriptor {
            role: string_of("daemon_stderr"),
            path: join_path(dir.as_str(), STDERR_LOG_FILENAME),
            media_type: string_of("text/plain"),
        },
    );
    match command.run_id() {
        Some(run_id) => {
            let report = ArtifactLayout::new(command.artifact_command_name(), run_id);
            r.push(
                ArtifactDescriptor {
                    role: string_of("terminal_report"),
                    path: report.terminal_report_path_string(),
                    media_type: string_of("application/json"),
                },
            );
        },
        None => {},
    }
    r.push(
        ArtifactDescriptor {
            role: string_of("daemon_run_directory"),
            path: dir,
            media_type: string_of("inode/directory"),
        },
    );
    r
}

/// A job as the daemon first records it: queued, with its artifacts and nothing run yet.
pub fn queued_snapshot(job_id: &str, command: DaemonCommandRequest) -> (r: DaemonJobSnapshot)
    ensures
        r.schema_version@ == HARNESS_SCHEMA_VERSION@,
        r.job_id@ == job_id@,
        r.command == command,
        r.state == DaemonJobState::Queued,
        r.artifacts@.len() == (if request_run_id(command) is Some {
            4int
        } else {
            3
        }),
        r.exit_code.is_none(),
        r.started_at_unix_ms.is_none(),
        r.completed_at_unix_ms.is_none(),
        r.error.is_none(),
{
    let artifacts = daemon_job_artifacts(job_id, &command);
    DaemonJobSnapshot {
        schema_version: string_of(HARNESS_SCHEMA_VERSION),
        job_id: string_of(job_id),
        command,
        state: DaemonJobState::Queued,
        artifacts,
        exit_code: None,
        started_at_unix_ms: None,
        completed_at_unix_ms: None,
        error: None,
    }
}

/// What the daemon answers a launch request with: the refusal's message, or the command to
/// run, its run id filled in (`launch_run_id`) when it had none.
pub fn prepare_launch(request: DaemonLaunchRequest, job_id: &str) -> (r: Result<
    DaemonCommandRequest,
    String,
>)
    ensures
        match request_refusal(request.command) {
            Some(reason) => r matches Err(e) && e@ == "invalid scenario: "@ + reason,
            None => match request_run_id(request.command) {
                Some(_) => r == Ok::<DaemonCommandRequest, String>(request.command),
                None => r matches Ok(c) && request_run_id(c) == Some(
                    daemon_run_id_text(request.command, job_id@),
                ) && (exists|s: String| c == request_with_run_id(request.command, Some(s))),
            },
        },
{
    match request.validate() {
        Ok(()) => {},
        Err(error) => return Err(error.to_string()),
    }
    let run_id = launch_run_id(&request.command, job_id);
    let command = request.command.with_run_id_if_missing(run_id.as_str());
    proof {
        if request_run_id(request.command) is None {
            let s = choose|s: String| s@ == run_id@ && command == request_with_run_id(
                request.command,
                Some(s),
            );
            assert(request_run_id(command) == Some(s@));
        }
    }
    Ok(command)
}

/// A decimal for a signed value, with a leading `-` when negative.
pub open spec fn signed_decimal(v: int) -> Seq<char> {
    if v < 0 {
        "-"@ + decimal((-v) as nat)
    } else {
        decimal(v as nat)
    }
}

/// The error a job records when its process exits with anything but status 0.
pub open spec fn exit_error_text(exit_code: Option<i32>) -> Seq<char> {
    "subprocess exited with status "@ + match exit_code {
        Some(c) => signed_decimal(c as int),
        None => "<unknown>"@,
    }
}

/// Marks a job as running since `now_unix_ms`.
pub fn mark_job_started(snapshot: &mut DaemonJobSnapshot, now_unix_ms: u64)
    ensures
        *final(snapshot) == (DaemonJobSnapshot {
            state: DaemonJobState::Running,
            started_at_unix_ms: Some(now_unix_ms),
            ..*old(snapshot)
        }),
{
    snapshot.state = DaemonJobState::Running;
    snapshot.started_at_unix_ms = Some(now_unix_ms);
}

/// Records how a job ended at `now_unix_ms`. A process that ran records its exit code and
/// succeeds exactly when the code is 0; otherwise the job fails with the exit error. A job
/// whose process could not be run fails with that error.
pub fn mark_job_finished(
    snapshot: &mut DaemonJobSnapshot,
    outcome: Result<Option<i32>, String>,
    now_unix_ms: u64,
)
    ensures
        final(snapshot).schema_version == old(snapshot).schema_version,
        final(snapshot).job_id == old(snapshot).job_id,
        final(snapshot).command == old(snapshot).command,
        final(snapshot).artifacts == old(snapshot).artifacts,
        final(snapshot).started_at_unix_ms == old(snapshot).started_at_unix_ms,
        final(snapshot).completed_at_unix_ms == Some(now_unix_ms),
        match outcome {
            Ok(code) => {
                &&& final(snapshot).exit_code == code
                &&& code == Some(0i32) ==> final(snapshot).state == DaemonJobState::Succeeded
                    && final(snapshot).error == old(snapshot).error
                &&& code != Some(0i32) ==> final(snapshot).state == DaemonJobState::Failed
                &&& code != Some(0i32) ==> (final(snapshot).error matches Some(e) && e@
                    == exit_error_text(code))
            },
            Err(e) => {
                &&& final(snapshot).state == DaemonJobState::Failed
                &&& final(snapshot).exit_code == old(snapshot).exit_code
                &&& final(snapshot).error == Some(e)
            },
        },
{
    match outcome {
        Ok(exit_code) => {
            let succeeded = match exit_code {
                Some(c) => c == 0,
                None => false,
            };
            snapshot.state = if succeeded {
                DaemonJobState::Succeeded
            } else {
                DaemonJobState::Failed
            };
            snapshot.completed_at_unix_ms = Some(now_unix_ms);
            snapshot.exit_code = exit_code;
            if !succeeded {
                let mut message = string_of("subprocess exited with status ");
                match exit_code {
                    Some(c) => {
                        if c < 0 {
                            push_str(&mut message, "-");
                            let magnitude: u64 = (0i64 - (c as i64)) as u64;
                            push_decimal(&mut message, magnitude);
                        } else {
                            push_decimal(&mut message, c as u64);
                        }
                    },
                    None => push_str(&mut message, "<unknown>"),
                }
                snapshot.error = Some(message);
            }
        },
        Err(error) => {
            snapshot.state = DaemonJobState::Failed;
            snapshot.completed_at_unix_ms = Some(now_unix_ms);
            snapshot.error = Some(error);
        },
    }
}

} // verus!
