use vstd::prelude::*;

use crate::text::{chars_of, decimal, push_char, push_decimal, push_str, str_eq, string_of,
    string_views};
use crate::wr_core::{CrateBoundary, CrateEntryPoint, entry_card};
use crate::wr_ecs::optional_chars;
use crate::wr_game::{HeadlessScenarioSummary, ReportSeedInfo};
use crate::wr_telemetry::RunMetadata;
use crate::wr_tools_harness::contract::{
    ArtifactDescriptor, FailureKind, HARNESS_SCHEMA_VERSION, HarnessStatus, ResultEnvelope,
    ScenarioExecutionMetrics, ScenarioExecutionReport,
};

verus! {

/// The command name under which scenario runs file their artifacts.
pub const RUN_SCENARIO_COMMAND_NAME: &'static str = "run-scenario";

/// The entry point of the headless runner: an app shell, integration-only.
pub fn init_entrypoint() -> (r: CrateEntryPoint)
    ensures
        entry_card(r, "wr_headless"@, CrateBoundary::AppShell, true),
{
    CrateEntryPoint::new("wr_headless", CrateBoundary::AppShell, true)
}

/// The runtime the headless runner drives: the game composition crate.
pub fn target_runtime() -> (r: CrateEntryPoint)
    ensures
        entry_card(r, "wr_game"@, CrateBoundary::Composition, true),
{
    crate::wr_game::init_entrypoint()
}

/// Where a headless run wrote its terminal report, and whether the scenario passed.
#[derive(Debug, Clone, PartialEq, Eq)]
pub struct HeadlessRunOutcome {
    pub terminal_report_path: String,
    pub succeeded: bool,
}

/// The headless runner's arguments: the scenario file, the directory under which reports
/// go, and the run id if one was given.
#[derive(Debug, Clone, PartialEq, Eq)]
pub struct HeadlessRunOptions {
    pub scenario_path: String,
    pub output_root: String,
    pub run_id: Option<String>,
}

/// The characters of an optional string.
pub open spec fn opt_view(s: Option<String>) -> Option<Seq<char>> {
    match s {
        Some(t) => Some(t@),
        None => None,
    }
}

/// What has been read so far: the scenario path, the output root and the run id.
pub type HeadlessParseState = (Option<Seq<char>>, Seq<char>, Option<Seq<char>>);

/// The outcome of reading the runner's arguments from index `i` on: `--scenario`,
/// `--output-root` and `--run-id` take the next argument (a later one wins), the first bare
/// argument is the scenario path while none is set, and anything else is refused; a scenario
/// path is required.
pub open spec fn headless_parse_from(args: Seq<Seq<char>>, i: nat, st: HeadlessParseState) -> Result<
    HeadlessParseState,
    Seq<char>,
>
    decreases args.len() - i,
{
    if i >= args.len() {
        match st.0 {
            Some(_) => Ok(st),
            None => Err("missing scenario path; pass --scenario <path>"@),
        }
    } else {
        let a = args[i as int];
        if a == "--scenario"@ {
            if i + 1 >= args.len() {
                Err("expected a value after --scenario"@)
            } else {
                headless_parse_from(args, i + 2, (Some(args[i + 1 as int]), st.1, st.2))
            }
        } else if a == "--output-root"@ {
            if i + 1 >= args.len() {
                Err("expected a value after --output-root"@)
            } else {
                headless_parse_from(args, i + 2, (st.0, args[i + 1 as int], st.2))
            }
        } else if a == "--run-id"@ {
            if i + 1 >= args.len() {
                Err("expected a value after --run-id"@)
            } else {
                headless_parse_from(args, i + 2, (st.0, st.1, Some(args[i + 1 as int])))
            }
        } else if st.0 is None {
            headless_parse_from(args, i + 1, (Some(a), st.1, st.2))
        } else {
            Err("unsupported argument `"@ + a
                + "` for wr_headless; supported flags: --scenario, --output-root, --run-id"@)
        }
    }
}

/// The outcome of reading all of the runner's arguments; the output root defaults to `.`.
pub open spec fn headless_parse(args: Seq<Seq<char>>) -> Result<HeadlessParseState, Seq<char>> {
    headless_parse_from(args, 0, (None, "."@, None))
}

impl HeadlessRunOptions {
    /// Reads the runner's arguments as `headless_parse` describes.
    pub fn parse(args: Vec<String>) -> (r: Result<Self, String>)
        ensures
            match headless_parse(string_views(args@)) {
                Ok(st) => r matches Ok(o) && st == (Some(o.scenario_path@), o.output_root@, opt_view(
                    o.run_id,
                )),
                Err(e) => r matches Err(x) && x@ == e,
            },
    {
        let ghost views = string_views(args@);
        let mut scenario_path: Option<String> = None;
        let mut output_root = string_of(".");
        let mut run_id: Option<String> = None;
        let n = args.len();
        let mut i: usize = 0;
        while i < n
            invariant
                i <= n == args@.len(),
                views == string_views(args@),
                headless_parse(views) == headless_parse_from(
                    views,
                    i as nat,
                    (opt_view(scenario_path), output_root@, opt_view(run_id)),
                ),
            decreases n - i,
        {
            let arg = args[i].as_str();
            assert(arg@ == views[i as int]);
            if str_eq(arg, "--scenario") {
                if n - i <= 1 {
                    return Err(string_of("expected a value after --scenario"));
                }
                assert(args@[i + 1]@ == views[i + 1]);
                scenario_path = Some(args[i + 1].clone());
                i = i + 2;
            } else if str_eq(arg, "--output-root") {
                if n - i <= 1 {
                    return Err(string_of("expected a value after --output-root"));
                }
                assert(args@[i + 1]@ == views[i + 1]);
                output_root = args[i + 1].clone();
                i = i + 2;
            } else if str_eq(arg, "--run-id") {
                if n - i <= 1 {
                    return Err(string_of("expected a value after --run-id"));
                }
                assert(args@[i + 1]@ == views[i + 1]);
                run_id = Some(args[i + 1].clone());
                i = i + 2;
            } else if scenario_path.is_none() {
                scenario_path = Some(string_of(arg));
                i = i + 1;
            } else {
                let mut message = string_of("unsupported argument `");
                push_str(&mut message, arg);
                push_str(
                    &mut message,
                    "` for wr_headless; supported flags: --scenario, --output-root, --run-id",
                );
                return Err(message);
            }
        }
        match scenario_path {
            Some(scenario_path) => Ok(HeadlessRunOptions { scenario_path, output_root, run_id }),
            None => Err(string_of("missing scenario path; pass --scenario <path>")),
        }
    }
}

/// The pieces of `s` between its `/` separators, empty pieces included.
pub open spec fn split_on_slash(s: Seq<char>) -> Seq<Seq<char>>
    decreases s.len(),
{
    if s.len() == 0 {
        seq![seq![]]
    } else {
        let rest = split_on_slash(s.drop_last());
        if s.last() == '/' {
            rest.push(seq![])
        } else {
            rest.update(rest.len() - 1, rest.last().push(s.last()))
        }
    }
}

/// The pieces that name something: neither empty nor `.`.
pub open spec fn named_parts(parts: Seq<Seq<char>>) -> Seq<Seq<char>>
    decreases parts.len(),
{
    if parts.len() == 0 {
        seq![]
    } else {
        let rest = named_parts(parts.drop_last());
        let p = parts.last();
        if p.len() == 0 || p == "."@ {
            rest
        } else {
            rest.push(p)
        }
    }
}

/// A path that starts at the root.
pub open spec fn is_rooted(s: Seq<char>) -> bool {
    s.len() > 0 && s[0] == '/'
}

/// A relative path whose first piece is `.`.
pub open spec fn leads_with_cur_dir(s: Seq<char>) -> bool {
    !is_rooted(s) && s.len() > 0 && s[0] == '.' && (s.len() == 1 || s[1] == '/')
}

/// The components of a Unix path as `Path::components` yields them: the root as `/`, a
/// leading `.` as `.`, then every named piece in order (`..` included).
pub open spec fn path_components(s: Seq<char>) -> Seq<Seq<char>> {
    let head: Seq<Seq<char>> = if is_rooted(s) {
        seq!["/"@]
    } else if leads_with_cur_dir(s) {
        seq!["."@]
    } else {
        seq![]
    };
    head + named_parts(split_on_slash(s))
}

/// The named pieces after resolving `..` against the pieces before it (a `..` with nothing
/// before it is dropped).
pub open spec fn resolve_parent_parts(parts: Seq<Seq<char>>) -> Seq<Seq<char>>
    decreases parts.len(),
{
    if parts.len() == 0 {
        seq![]
    } else {
        let rest = resolve_parent_parts(parts.drop_last());
        let p = parts.last();
        if p == ".."@ {
            if rest.len() > 0 {
                rest.drop_last()
            } else {
                rest
            }
        } else {
            rest.push(p)
        }
    }
}

/// Pieces joined by `/`.
pub open spec fn join_parts(parts: Seq<Seq<char>>) -> Seq<char>
    decreases parts.len(),
{
    if parts.len() == 0 {
        seq![]
    } else if parts.len() == 1 {
        parts[0]
    } else {
        join_parts(parts.drop_last()) + "/"@ + parts.last()
    }
}

/// A path with `.` pieces dropped and each `..` resolved against the piece before it,
/// keeping the root.
pub open spec fn normalized_path(s: Seq<char>) -> Seq<char> {
    (if is_rooted(s) {
        "/"@
    } else {
        seq![]
    }) + join_parts(resolve_parent_parts(named_parts(split_on_slash(s))))
}

/// Whether a loaded scenario file matches its declared path: the same components, or, for a
/// relative declared path, components that end the loaded path's.
pub open spec fn declared_path_matches(loaded: Seq<char>, declared: Seq<char>) -> bool {
    let lc = path_components(loaded);
    let dc = path_components(declared);
    lc == dc || (!is_rooted(declared) && dc.len() <= lc.len() && lc.subrange(
        lc.len() - dc.len(),
        lc.len() as int,
    ) == dc)
}

/// The pieces of `s` between its `/` separators.
pub fn split_path(s: &str) -> (r: Vec<String>)
    ensures
        string_views(r@) == split_on_slash(s@),
{
    let v = chars_of(s);
    let mut parts: Vec<String> = Vec::new();
    let mut current = String::new();
    let mut i: usize = 0;
    assert(s@.subrange(0, 0) =~= Seq::<char>::empty());
    assert(string_views(parts@).push(current@) =~= seq![seq![]]);
    while i < v.len()
        invariant
            i <= v@.len(),
            v@ == s@,
            split_on_slash(s@.subrange(0, i as int)) == string_views(parts@).push(current@),
        decreases v@.len() - i,
    {
        let c = v[i];
        let ghost before = s@.subrange(0, i as int);
        assert(s@.subrange(0, i + 1).drop_last() =~= before);
        assert(s@.subrange(0, i + 1).last() == c);
        if c == '/' {
            let piece = current;
            parts.push(piece);
            current = String::new();
            assert(string_views(parts@).push(current@) =~= split_on_slash(before).push(seq![]));
        } else {
            push_char(&mut current, c);
            let ghost rest = split_on_slash(before);
            assert(string_views(parts@).push(current@) =~= rest.update(
                rest.len() - 1,
                rest.last().push(c),
            ));
        }
        i = i + 1;
    }
    assert(s@.subrange(0, v@.len() as int) =~= s@);
    let last = current;
    parts.push(last);
    assert(string_views(parts@) =~= split_on_slash(s@));
    parts
}

fn named_parts_of(parts: &Vec<String>) -> (r: Vec<String>)
    ensures
        string_views(r@) == named_parts(string_views(parts@)),
{
    let ghost views = string_views(parts@);
    let mut r: Vec<String> = Vec::new();
    let mut i: usize = 0;
    while i < parts.len()
        invariant
            i <= parts@.len(),
            views == string_views(parts@),
            string_views(r@) == named_parts(views.subrange(0, i as int)),
        decreases parts@.len() - i,
    {
        assert(views.subrange(0, i + 1).drop_last() =~= views.subrange(0, i as int));
        assert(views.subrange(0, i + 1).last() == parts@[i as int]@);
        let p = parts[i].as_str();
        if !(p.unicode_len() == 0 || str_eq(p, ".")) {
            r.push(parts[i].clone());
            assert(string_views(r@) =~= named_parts(views.subrange(0, i as int)).push(
                parts@[i as int]@,
            ));
        }
        i = i + 1;
    }
    assert(views.subrange(0, parts@.len() as int) =~= views);
    r
}

/// The components of a Unix path, as `path_components` describes.
pub fn components_of(s: &str) -> (r: Vec<String>)
    ensures
        string_views(r@) == path_components(s@),
{
    let n = s.unicode_len();
    let mut r: Vec<String> = Vec::new();
    if n > 0 && s.get_char(0) == '/' {
        r.push(string_of("/"));
    } else if n > 0 && s.get_char(0) == '.' && (n == 1 || s.get_char(1) == '/') {
        r.push(string_of("."));
    }
    let ghost head = string_views(r@);
    let parts = split_path(s);
    let named = named_parts_of(&parts);
    let mut i: usize = 0;
    while i < named.len()
        invariant
            i <= named@.len(),
            string_views(r@) == head + string_views(named@).subrange(0, i as int),
        decreases named@.len() - i,
    {
        let ghost before = string_views(r@);
        r.push(named[i].clone());
        assert(string_views(named@)[i as int] == named@[i as int]@);
        assert(string_views(r@) =~= before.push(named@[i as int]@));
        assert(string_views(named@).subrange(0, i + 1) =~= string_views(named@).subrange(
            0,
            i as int,
        ).push(named@[i as int]@));
        assert(string_views(r@) =~= head + string_views(named@).subrange(0, i + 1));
        i = i + 1;
    }
    assert(string_views(named@).subrange(0, named@.len() as int) =~= string_views(named@));
    r
}

fn resolve_parents(parts: &Vec<String>) -> (r: Vec<String>)
    ensures
        string_views(r@) == resolve_parent_parts(string_views(parts@)),
{
    let ghost views = string_views(parts@);
    let mut r: Vec<String> = Vec::new();
    let mut i: usize = 0;
    while i < parts.len()
        invariant
            i <= parts@.len(),
            views == string_views(parts@),
            string_views(r@) == resolve_parent_parts(views.subrange(0, i as int)),
        decreases parts@.len() - i,
    {
        assert(views.subrange(0, i + 1).drop_last() =~= views.subrange(0, i as int));
        assert(views.subrange(0, i + 1).last() == parts@[i as int]@);
        let ghost rest = string_views(r@);
        if str_eq(parts[i].as_str(), "..") {
            if r.len() > 0 {
                r.pop();
                assert(string_views(r@) =~= rest.drop_last());
            }
        } else {
            r.push(parts[i].clone());
            assert(string_views(r@) =~= rest.push(parts@[i as int]@));
        }
        i = i + 1;
    }
    assert(views.subrange(0, parts@.len() as int) =~= views);
    r
}

fn push_joined(out: &mut String, parts: &Vec<String>)
    ensures
        final(out)@ == old(out)@ + join_parts(string_views(parts@)),
{
    let ghost views = string_views(parts@);
    let ghost start = out@;
    let mut i: usize = 0;
    while i < parts.len()
        invariant
            i <= parts@.len(),
            views == string_views(parts@),
            out@ == start + join_parts(views.subrange(0, i as int)),
        decreases parts@.len() - i,
    {
        let ghost prefix = views.subrange(0, i + 1);
        assert(prefix.drop_last() =~= views.subrange(0, i as int));
        assert(prefix.last() == parts@[i as int]@);
        if i > 0 {
            push_str(out, "/");
        } else {
            assert(prefix =~= seq![prefix[0]]);
        }
        push_str(out, parts[i].as_str());
        assert(out@ =~= start + join_parts(prefix));
        i = i + 1;
    }
    assert(views.subrange(0, parts@.len() as int) =~= views);
}

/// `path` with `.` pieces dropped and `..` resolved against the piece before it, as
/// `normalized_path` describes.
pub fn normalize_relative_path(path: &str) -> (r: String)
    ensures
        r@ == normalized_path(path@),
{
    let n = path.unicode_len();
    let mut r = String::new();
    if n > 0 && path.get_char(0) == '/' {
        push_str(&mut r, "/");
    }
    let parts = split_path(path);
    let named = named_parts_of(&parts);
    let resolved = resolve_parents(&named);
    push_joined(&mut r, &resolved);
    r
}

fn components_equal(a: &Vec<String>, lo: usize, b: &Vec<String>) -> (r: bool)
    requires
        lo + b@.len() == a@.len(),
    ensures
        r == (string_views(a@).subrange(lo as int, a@.len() as int) == string_views(b@)),
{
    let ghost av = string_views(a@);
    let ghost bv = string_views(b@);
    let alen = a.len();
    let mut i: usize = 0;
    while i < b.len()
        invariant
            lo + b@.len() == a@.len(),
            alen == a@.len(),
            i <= b@.len(),
            av == string_views(a@),
            bv == string_views(b@),
            forall|k: int| 0 <= k < i ==> av[lo + k] == bv[k],
        decreases b@.len() - i,
    {
        assert(av[lo + i] == a@[lo + i]@ && bv[i as int] == b@[i as int]@);
        if !str_eq(a[lo + i].as_str(), b[i].as_str()) {
            assert(av.subrange(lo as int, a@.len() as int)[i as int] != bv[i as int]);
            return false;
        }
        i = i + 1;
    }
    assert(av.subrange(lo as int, a@.len() as int) =~= bv);
    true
}

/// Whether the loaded scenario file `loaded` matches the declared path `declared`, as
/// `declared_path_matches` describes.
pub fn declared_path_match(loaded: &str, declared: &str) -> (r: bool)
    ensures
        r == declared_path_matches(loaded@, declared@),
{
    let lc = components_of(loaded);
    let dc = components_of(declared);
    if lc.len() == dc.len() && components_equal(&lc, 0, &dc) {
        assert(string_views(lc@).subrange(0, lc@.len() as int) =~= string_views(lc@));
        return true;
    }
    proof {
        if string_views(lc@) == string_views(dc@) {
            assert(string_views(lc@).subrange(0, lc@.len() as int) =~= string_views(lc@));
        }
    }
    let rooted = declared.unicode_len() > 0 && declared.get_char(0) == '/';
    if rooted || dc.len() > lc.len() {
        return false;
    }
    components_equal(&lc, lc.len() - dc.len(), &dc)
}

/// The message for a declared scenario path that does not match the loaded file.
pub open spec fn path_mismatch_message(declared: Seq<char>, loaded_display: Seq<char>) -> Seq<
    char,
> {
    "declared scenario_path `"@ + declared + "` does not match loaded file `"@ + loaded_display
        + "`"@
}

/// Accepts a declared scenario path that matches the loaded file; `loaded` is the loaded
/// file's resolved path, `declared` the declared path as resolved, and `loaded_display` the
/// loaded path as given, which the error names.
pub fn validate_declared_scenario_path(loaded: &str, declared: &str, loaded_display: &str) -> (r:
    Result<(), String>)
    ensures
        declared_path_matches(loaded@, declared@) ==> r is Ok,
        !declared_path_matches(loaded@, declared@) ==> (r matches Err(e) && e@
            == path_mismatch_message(declared@, loaded_display@)),
{
    if declared_path_match(loaded, declared) {
        Ok(())
    } else {
        let mut message = string_of("declared scenario_path `");
        push_str(&mut message, declared);
        push_str(&mut message, "` does not match loaded file `");
        push_str(&mut message, loaded_display);
        push_str(&mut message, "`");
        Err(message)
    }
}

/// The notes of an optional list.
pub open spec fn opt_notes(notes: Option<Vec<String>>) -> Seq<Seq<char>> {
    match notes {
        Some(v) => string_views(v@),
        None => seq![],
    }
}

/// The primary notes followed by the secondary ones; none when both are absent or empty.
pub fn merge_notes(primary: Option<Vec<String>>, secondary: Option<Vec<String>>) -> (r: Option<
    Vec<String>,
>)
    ensures
        (opt_notes(primary) + opt_notes(secondary)).len() == 0 ==> r is None,
        (opt_notes(primary) + opt_notes(secondary)).len() > 0 ==> (r matches Some(v) && string_views(
            v@,
        ) == opt_notes(primary) + opt_notes(secondary)),
{
    let ghost all = opt_notes(primary) + opt_notes(secondary);
    let mut notes: Vec<String> = match primary {
        Some(v) => v,
        None => Vec::new(),
    };
    let extra: Vec<String> = match secondary {
        Some(v) => v,
        None => Vec::new(),
    };
    let ghost start = string_views(notes@);
    let mut i: usize = 0;
    while i < extra.len()
        invariant
            i <= extra@.len(),
            string_views(notes@) == start + string_views(extra@).subrange(0, i as int),
        decreases extra@.len() - i,
    {
        let ghost before = string_views(notes@);
        notes.push(extra[i].clone());
        assert(string_views(extra@)[i as int] == extra@[i as int]@);
        assert(string_views(notes@) =~= before.push(extra@[i as int]@));
        assert(string_views(extra@).subrange(0, i + 1) =~= string_views(extra@).subrange(
            0,
            i as int,
        ).push(extra@[i as int]@));
        assert(string_views(notes@) =~= start + string_views(extra@).subrange(0, i + 1));
        i = i + 1;
    }
    assert(string_views(extra@).subrange(0, extra@.len() as int) =~= string_views(extra@));
    assert(string_views(notes@) =~= all);
    if notes.len() == 0 {
        None
    } else {
        assert(all.len() > 0);
        Some(notes)
    }
}

/// The run id a scenario run gets when none is given: the scenario's label, a dash and the
/// start time in milliseconds.
pub fn default_run_id(scenario_label: &str, now_unix_ms: u64) -> (r: String)
    ensures
        r@ == scenario_label@ + "-"@ + decimal(now_unix_ms as nat),
{
    let mut r = string_of(scenario_label);
    push_str(&mut r, "-");
    push_decimal(&mut r, now_unix_ms);
    r
}

/// An artifact with the given role, path and media type.
pub open spec fn artifact_is(
    a: ArtifactDescriptor,
    role: Seq<char>,
    path: Seq<char>,
    media_type: Seq<char>,
) -> bool {
    a.role@ == role && a.path@ == path && a.media_type@ == media_type
}

/// The artifacts of a scenario run: the terminal report, then the scenario source when the
/// file exists, then the tweak pack source when one was named and exists.
pub fn scenario_run_artifacts(
    terminal_report_path: &str,
    scenario_path: &str,
    scenario_exists: bool,
    tweak_pack_path: &Option<String>,
    tweak_pack_exists: bool,
) -> (r: Vec<ArtifactDescriptor>)
    ensures
        r@.len() == 1 + (if scenario_exists {
            1int
        } else {
            0
        }) + (if tweak_pack_path.is_some() && tweak_pack_exists {
            1int
        } else {
            0
        }),
        artifact_is(r@[0], "terminal_report"@, terminal_report_path@, "application/json"@),
        scenario_exists ==> artifact_is(r@[1], "scenario_source"@, scenario_path@, "text/ron"@),
        tweak_pack_path.is_some() && tweak_pack_exists ==> artifact_is(
            r@[r@.len() - 1],
            "tweak_pack_source"@,
            tweak_pack_path.unwrap()@,
            "text/ron"@,
        ),
{
    let mut r: Vec<ArtifactDescriptor> = Vec::new();
    r.push(
        ArtifactDescriptor {
            role: string_of("terminal_report"),
            path: string_of(terminal_report_path),
            media_type: string_of("application/json"),
        },
    );
    if scenario_exists {
        r.push(
            ArtifactDescriptor {
                role: string_of("scenario_source"),
                path: string_of(scenario_path),
                media_type: string_of("text/ron"),
            },
        );
    }
    match tweak_pack_path {
        Some(t) => {
            if tweak_pack_exists {
                r.push(
                    ArtifactDescriptor {
                        role: string_of("tweak_pack_source"),
                        path: t.clone(),
                        media_type: string_of("text/ron"),
                    },
                );
            }
        },
        None => {},
    }
    r
}

/// How far a headless run got: the scenario file did not load, its declared path names another
/// file, its tweak pack did not load, or the scenario ran and gave a summary.
#[derive(Debug, Clone, PartialEq)]
pub enum ScenarioRunStage {
    LoadFailed(String),
    PathMismatch(String),
    TweakPackFailed(String),
    Ran(HeadlessScenarioSummary),
}

/// The summary of a run that never reached its steps: failed with `summary` and `details`,
/// under the placeholder seed, with zero counts, no records, the zero hash and the note that a
/// report was still emitted.
pub open spec fn is_failure_summary(
    r: HeadlessScenarioSummary,
    summary: Seq<char>,
    details: Seq<char>,
) -> bool {
    &&& r.report_seed.label@ == "unknown"@
    &&& r.report_seed.value_hex@ == "0x0000000000000000"@
    &&& optional_chars(r.report_seed.stream) == Some("load_failure"@)
    &&& r.report_seed.derivations@.len() == 0
    &&& r.report_seed.config_pack is None
    &&& r.result.status == HarnessStatus::Failed
    &&& r.result.summary@ == summary
    &&& r.result.failure_kind == Some(FailureKind::ScenarioFailed)
    &&& r.result.details matches Some(d) && d@ == details
    &&& r.metrics == (ScenarioExecutionMetrics {
        frames_requested: 0,
        frames_simulated: 0,
        simulation_rate_hz: 0,
        spawned_actor_count: 0,
        scripted_input_count: 0,
        applied_input_count: 0,
    })
    &&& r.assertions@.len() == 0
    &&& r.determinism_hash@ == "0x0000000000000000"@
    &&& r.notes matches Some(n) && string_views(n@) == seq![
        "A terminal report was still emitted so automation can classify the failure."@,
    ]
}

/// The summary of a scenario that could not be loaded or executed: failed with `summary` and
/// `details`, an unknown seed, nothing counted, and a note that a report was still written.
pub fn failure_summary(summary: &str, details: String) -> (r: HeadlessScenarioSummary)
    ensures
        is_failure_summary(r, summary@, details@),
{
    let notes = vec![string_of(
        "A terminal report was still emitted so automation can classify the failure.",
    )];
    assert(string_views(notes@) =~= seq![
        "A terminal report was still emitted so automation can classify the failure."@,
    ]);
    HeadlessScenarioSummary {
        report_seed: ReportSeedInfo {
            label: string_of("unknown"),
            value_hex: string_of("0x0000000000000000"),
            stream: Some(string_of("load_failure")),
            derivations: Vec::new(),
            config_pack: None,
        },
        result: ResultEnvelope {
            status: HarnessStatus::Failed,
            summary: string_of(summary),
            failure_kind: Some(FailureKind::ScenarioFailed),
            details: Some(details),
        },
        metrics: ScenarioExecutionMetrics {
            frames_requested: 0,
            frames_simulated: 0,
            simulation_rate_hz: 0,
            spawned_actor_count: 0,
            scripted_input_count: 0,
            applied_input_count: 0,
        },
        assertions: Vec::new(),
        determinism_hash: string_of("0x0000000000000000"),
        notes: Some(notes),
    }
}

/// What a headless run reports besides its metadata and artifacts: the scenario path it names,
/// the tweak pack path, the summary, and the runner's own notes.
#[derive(Debug, Clone, PartialEq)]
pub struct HeadlessRunPlan {
    pub scenario_path: String,
    pub tweak_pack_path: Option<String>,
    pub summary: HeadlessScenarioSummary,
    pub notes: Option<Vec<String>>,
}

/// The note that names the file a scenario was loaded from.
pub open spec fn scenario_note(loaded_display: Seq<char>) -> Seq<char> {
    "Scenario source loaded from "@ + loaded_display + "."@
}

/// The note that names the tweak pack a run applied.
pub open spec fn tweak_pack_note(path: Seq<char>) -> Seq<char> {
    "Tweak pack applied from "@ + path + "."@
}

/// The notes of a run that loaded its scenario and tweak pack.
pub open spec fn ran_notes(loaded_display: Seq<char>, tweak_pack_path: Option<Seq<char>>) -> Seq<
    Seq<char>,
> {
    match tweak_pack_path {
        Some(p) => seq![scenario_note(loaded_display), tweak_pack_note(p)],
        None => seq![scenario_note(loaded_display)],
    }
}

/// What a headless run reports at each stage. A scenario that did not load, or whose declared
/// path names another file, is reported under the path the runner was given, as not loaded,
/// with no notes (a mismatch still names the tweak pack). A tweak pack that did not load is
/// reported under the declared path as not executed, noting the scenario's source. A scenario
/// that ran is reported with its summary, noting its source and the tweak pack applied.
pub fn plan_scenario_report(
    stage: ScenarioRunStage,
    option_path: String,
    declared_path: String,
    tweak_pack_path: Option<String>,
    loaded_display: &str,
) -> (r: HeadlessRunPlan)
    ensures
        match stage {
            ScenarioRunStage::LoadFailed(e) => {
                &&& r.scenario_path@ == option_path@
                &&& r.tweak_pack_path is None
                &&& is_failure_summary(r.summary, "Scenario could not be loaded."@, e@)
                &&& r.notes is None
            },
            ScenarioRunStage::PathMismatch(e) => {
                &&& r.scenario_path@ == option_path@
                &&& optional_chars(r.tweak_pack_path) == optional_chars(tweak_pack_path)
                &&& is_failure_summary(r.summary, "Scenario could not be loaded."@, e@)
                &&& r.notes is None
            },
            ScenarioRunStage::TweakPackFailed(e) => {
                &&& r.scenario_path@ == declared_path@
                &&& optional_chars(r.tweak_pack_path) == optional_chars(tweak_pack_path)
                &&& is_failure_summary(r.summary, "Scenario could not be executed."@, e@)
                &&& r.notes matches Some(n) && string_views(n@) == seq![scenario_note(loaded_display@)]
            },
            ScenarioRunStage::Ran(summary) => {
                &&& r.scenario_path@ == declared_path@
                &&& optional_chars(r.tweak_pack_path) == optional_chars(tweak_pack_path)
                &&& r.summary == summary
                &&& r.notes matches Some(n) && string_views(n@) == ran_notes(
                    loaded_display@,
                    optional_chars(tweak_pack_path),
                )
            },
        },
{
    let mut note = string_of("Scenario source loaded from ");
    push_str(&mut note, loaded_display);
    push_str(&mut note, ".");
    match stage {
        ScenarioRunStage::LoadFailed(e) => HeadlessRunPlan {
            scenario_path: option_path,
            tweak_pack_path: None,
            summary: failure_summary("Scenario could not be loaded.", e),
            notes: None,
        },
        ScenarioRunStage::PathMismatch(e) => HeadlessRunPlan {
            scenario_path: option_path,
            tweak_pack_path,
            summary: failure_summary("Scenario could not be loaded.", e),
            notes: None,
        },
        ScenarioRunStage::TweakPackFailed(e) => {
            let notes = vec![note];
            assert(string_views(notes@) =~= seq![scenario_note(loaded_display@)]);
            HeadlessRunPlan {
                scenario_path: declared_path,
                tweak_pack_path,
                summary: failure_summary("Scenario could not be executed.", e),
                notes: Some(notes),
            }
        },
        ScenarioRunStage::Ran(summary) => {
            let mut notes = vec![note];
            match &tweak_pack_path {
                Some(p) => {
                    let mut applied = string_of("Tweak pack applied from ");
                    push_str(&mut applied, p.as_str());
                    push_str(&mut applied, ".");
                    notes.push(applied);
                },
                None => {},
            }
            assert(string_views(notes@) =~= ran_notes(
                loaded_display@,
                optional_chars(tweak_pack_path),
            ));
            HeadlessRunPlan {
                scenario_path: declared_path,
                tweak_pack_path,
                summary,
                notes: Some(notes),
            }
        },
    }
}

/// The terminal report of a run: the plan's summary under the harness schema, with the
/// summary's notes followed by the runner's.
pub fn scenario_execution_report(
    metadata: RunMetadata,
    plan: HeadlessRunPlan,
    artifacts: Vec<ArtifactDescriptor>,
) -> (r: ScenarioExecutionReport)
    ensures
        r.schema_version@ == HARNESS_SCHEMA_VERSION@,
        r.metadata == metadata,
        r.seed == plan.summary.report_seed,
        r.scenario_path == plan.scenario_path,
        r.result == plan.summary.result,
        r.metrics == plan.summary.metrics,
        r.determinism_hash == plan.summary.determinism_hash,
        r.assertions == plan.summary.assertions,
        r.artifacts == artifacts,
        (opt_notes(plan.summary.notes) + opt_notes(plan.notes)).len() == 0 ==> r.notes is None,
        (opt_notes(plan.summary.notes) + opt_notes(plan.notes)).len() > 0 ==> (r.notes matches Some(
            v,
        ) && string_views(v@) == opt_notes(plan.summary.notes) + opt_notes(plan.notes)),
{
    let notes = merge_notes(plan.summary.notes, plan.notes);
    ScenarioExecutionReport {
        schema_version: string_of(HARNESS_SCHEMA_VERSION),
        metadata,
        seed: plan.summary.report_seed,
        scenario_path: plan.scenario_path,
        result: plan.summary.result,
        metrics: plan.summary.metrics,
        determinism_hash: plan.summary.determinism_hash,
        assertions: plan.summary.assertions,
        artifacts,
        notes,
    }
}

/// The outcome of a run that wrote its report: the report's path, and success exactly when the
/// run passed.
pub fn run_outcome(terminal_report_path: String, status: HarnessStatus) -> (r: HeadlessRunOutcome)
    ensures
        r.terminal_report_path@ == terminal_report_path@,
        r.succeeded == (status == HarnessStatus::Passed),
{
    HeadlessRunOutcome {
        terminal_report_path,
        succeeded: match status {
            HarnessStatus::Passed => true,
            HarnessStatus::Failed => false,
        },
    }
}

} // verus!
