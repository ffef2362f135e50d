use vstd::prelude::*;

use crate::text::{push_char, push_str, string_of};

verus! {

/// The directory under which every harness command writes its reports.
pub const HARNESS_REPORTS_ROOT: &'static str = "reports/harness";

/// The file name of a command's terminal report.
pub const TERMINAL_REPORT_FILENAME: &'static str = "terminal_report.json";

/// `Path::new(base).join(part)` on Unix, as text: an absolute part replaces the base, an
/// empty base gives the part, and otherwise a `/` separates them unless the base ends in one.
pub open spec fn path_join(base: Seq<char>, part: Seq<char>) -> Seq<char> {
    if part.len() > 0 && part[0] == '/' {
        part
    } else if base.len() == 0 {
        part
    } else if base.last() == '/' {
        base + part
    } else {
        base + seq!['/'] + part
    }
}

/// Joins `part` onto `base` as `Path::join` does on Unix.
pub fn join_path(base: &str, part: &str) -> (r: String)
    ensures
        r@ == path_join(base@, part@),
{
    let bn = base.unicode_len();
    let pn = part.unicode_len();
    if pn > 0 && part.get_char(0) == '/' {
        return string_of(part);
    }
    if bn == 0 {
        return string_of(part);
    }
    let mut r = string_of(base);
    if base.get_char(bn - 1) != '/' {
        push_char(&mut r, '/');
    }
    push_str(&mut r, part);
    r
}

/// Where the artifacts of one run of one command go.
#[derive(Debug, Clone, PartialEq, Eq)]
pub struct ArtifactLayout {
    command_name: String,
    run_id: String,
}

/// The run directory of a command run.
pub open spec fn run_directory_of(command_name: Seq<char>, run_id: Seq<char>) -> Seq<char> {
    path_join(path_join(HARNESS_REPORTS_ROOT@, command_name), run_id)
}

/// The terminal report path of a command run.
pub open spec fn terminal_report_of(command_name: Seq<char>, run_id: Seq<char>) -> Seq<char> {
    path_join(run_directory_of(command_name, run_id), TERMINAL_REPORT_FILENAME@)
}

/// A plain name: not empty, and neither starting nor ending with `/`.
pub open spec fn is_plain_segment(s: Seq<char>) -> bool {
    s.len() > 0 && s[0] != '/' && s.last() != '/'
}

/// For a plain command name and run id, a run's reports go under
/// `reports/harness/<command>/<run_id>`, and its terminal report is
/// `terminal_report.json` in that directory.
pub proof fn lemma_artifact_layout_is_stable(command_name: Seq<char>, run_id: Seq<char>)
    requires
        is_plain_segment(command_name),
        is_plain_segment(run_id),
    ensures
        run_directory_of(command_name, run_id) == "reports/harness/"@ + command_name + "/"@ + run_id,
        terminal_report_of(command_name, run_id) == "reports/harness/"@ + command_name + "/"@
            + run_id + "/terminal_report.json"@,
{
    reveal_strlit("reports/harness");
    reveal_strlit("reports/harness/");
    reveal_strlit("/");
    reveal_strlit("terminal_report.json");
    reveal_strlit("/terminal_report.json");
    let root = HARNESS_REPORTS_ROOT@;
    assert(root == "reports/harness"@);
    assert(root.len() == 15 && root[14] == 's');
    let d1 = path_join(root, command_name);
    assert(d1 =~= "reports/harness/"@ + command_name);
    assert(d1.last() == command_name.last());
    let d2 = path_join(d1, run_id);
    assert(d2 =~= "reports/harness/"@ + command_name + "/"@ + run_id);
    assert(d2.last() == run_id.last());
    assert(path_join(d2, TERMINAL_REPORT_FILENAME@) =~= "reports/harness/"@ + command_name + "/"@
        + run_id + "/terminal_report.json"@);
}

impl View for ArtifactLayout {
    type V = (Seq<char>, Seq<char>);

    closed spec fn view(&self) -> (Seq<char>, Seq<char>) {
        (self.command_name@, self.run_id@)
    }
}

impl ArtifactLayout {
    pub fn new(command_name: &str, run_id: &str) -> (r: Self)
        ensures
            r@ == (command_name@, run_id@),
    {
        ArtifactLayout { command_name: string_of(command_name), run_id: string_of(run_id) }
    }

    /// `reports/harness/<command>/<run_id>`.
    pub fn run_directory(&self) -> (r: String)
        ensures
            r@ == run_directory_of(self@.0, self@.1),
    {
        let command_dir = join_path(HARNESS_REPORTS_ROOT, self.command_name.as_str());
        join_path(command_dir.as_str(), self.run_id.as_str())
    }

    /// `reports/harness/<command>/<run_id>/terminal_report.json`.
    pub fn terminal_report_path(&self) -> (r: String)
        ensures
            r@ == terminal_report_of(self@.0, self@.1),
    {
        let dir = self.run_directory();
        join_path(dir.as_str(), TERMINAL_REPORT_FILENAME)
    }

    /// The terminal report path as text.
    pub fn terminal_report_path_string(&self) -> (r: String)
        ensures
            r@ == terminal_report_of(self@.0, self@.1),
    {
        self.terminal_report_path()
    }
}

} // verus!
