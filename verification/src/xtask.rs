use vstd::prelude::*;

pub mod bootstrap_commands;
pub mod verify;

use crate::text::{push_str, string_of, string_views};
use crate::wr_core::{CrateBoundary, CrateEntryPoint, entry_card};

verus! {

/// The entry point of the task runner: tooling, not integration-only.
pub fn init_entrypoint() -> (r: CrateEntryPoint)
    ensures
        entry_card(r, "xtask"@, CrateBoundary::Tooling, false),
{
    CrateEntryPoint::new("xtask", CrateBoundary::Tooling, false)
}

/// The commands the task runner offers in its scaffold phase.
pub open spec fn supported_command_names() -> Seq<Seq<char>> {
    seq!["help"@, "scaffold-status"@]
}

/// The commands the task runner offers in its scaffold phase.
pub fn supported_commands() -> (r: Vec<&'static str>)
    ensures
        r@.map_values(|s: &'static str| s@) == supported_command_names(),
{
    let r = vec!["help", "scaffold-status"];
    assert(r@.map_values(|s: &'static str| s@) =~= supported_command_names());
    r
}

/// What the task runner prints for a command, and its exit code.
#[derive(Debug, Clone, PartialEq, Eq)]
pub struct ScaffoldReply {
    pub exit_code: i32,
    pub stdout: Vec<String>,
    pub stderr: Vec<String>,
}

/// The reply to the scaffold command `command` (none when no argument was given): help for
/// nothing, `help`, `--help` or `-h`; the scaffold status for `scaffold-status`; an error,
/// exit code 1, for anything else.
pub open spec fn scaffold_reply_lines(command: Option<Seq<char>>) -> (i32, Seq<Seq<char>>, Seq<
    Seq<char>,
>) {
    match command {
        Some(c) => if c == "help"@ || c == "--help"@ || c == "-h"@ {
            (
                0,
                seq![
                    "xtask scaffold only; full task automation lands in later roadmap PRs."@,
                    "available stub commands: help, scaffold-status"@,
                ],
                seq![],
            )
        } else if c == "scaffold-status"@ {
            (0, seq!["workspace scaffold present; see PR-001 for harness contract work."@], seq![])
        } else {
            (
                1,
                seq![],
                seq![
                    "unsupported xtask command `"@ + c
                        + "` in scaffold phase; implement it in its owning roadmap task"@,
                ],
            )
        },
        None => (
            0,
            seq![
                "xtask scaffold only; full task automation lands in later roadmap PRs."@,
                "available stub commands: help, scaffold-status"@,
            ],
            seq![],
        ),
    }
}

fn help_reply() -> (r: ScaffoldReply)
    ensures
        (r.exit_code, string_views(r.stdout@), string_views(r.stderr@)) == scaffold_reply_lines(
            None,
        ),
{
    let stdout = vec![
        string_of("xtask scaffold only; full task automation lands in later roadmap PRs."),
        string_of("available stub commands: help, scaffold-status"),
    ];
    let stderr: Vec<String> = Vec::new();
    let r = ScaffoldReply { exit_code: 0, stdout, stderr };
    assert(string_views(r.stdout@) =~= scaffold_reply_lines(None).1);
    assert(string_views(r.stderr@) =~= scaffold_reply_lines(None).2);
    r
}

/// The reply to the scaffold command `command`, as `scaffold_reply_lines` describes.
pub fn scaffold_reply(command: Option<&str>) -> (r: ScaffoldReply)
    ensures
        (r.exit_code, string_views(r.stdout@), string_views(r.stderr@)) == scaffold_reply_lines(
            match command {
                Some(c) => Some(c@),
                None => None,
            },
        ),
{
    match command {
        None => help_reply(),
        Some(c) => {
            if crate::text::str_eq(c, "help") || crate::text::str_eq(c, "--help")
                || crate::text::str_eq(c, "-h") {
                help_reply()
            } else if crate::text::str_eq(c, "scaffold-status") {
                let stdout = vec![
                    string_of("workspace scaffold present; see PR-001 for harness contract work."),
                ];
                let r = ScaffoldReply { exit_code: 0, stdout, stderr: Vec::new() };
                assert(string_views(r.stdout@) =~= scaffold_reply_lines(Some(c@)).1);
                assert(string_views(r.stderr@) =~= scaffold_reply_lines(Some(c@)).2);
                r
            } else {
                let mut line = string_of("unsupported xtask command `");
                push_str(&mut line, c);
                push_str(
                    &mut line,
                    "` in scaffold phase; implement it in its owning roadmap task",
                );
                let stderr = vec![line];
                let r = ScaffoldReply { exit_code: 1, stdout: Vec::new(), stderr };
                assert(string_views(r.stdout@) =~= scaffold_reply_lines(Some(c@)).1);
                assert(string_views(r.stderr@) =~= scaffold_reply_lines(Some(c@)).2);
                r
            }
        },
    }
}

} // verus!
