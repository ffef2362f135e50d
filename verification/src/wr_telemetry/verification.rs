use vstd::prelude::*;

use crate::text::{ascii_lower, chars_of, char_ascii_lower, char_is_ascii_alphanumeric,
    is_ascii_alphanumeric, push_char, str_eq, string_of};

verus! {

/// How a verification step ended.
#[derive(Debug, Clone, Copy, PartialEq, Eq, Structural)]
pub enum VerificationStepStatus {
    Passed,
    Failed,
    Skipped,
}

/// One step of a verification run.
#[derive(Debug, Clone, PartialEq, Eq)]
pub struct VerificationStepRecord {
    pub suite_name: String,
    pub suite_slug: String,
    pub command: Vec<String>,
    pub status: VerificationStepStatus,
    pub exit_code: Option<i32>,
    pub duration_ms: u64,
    pub stdout_artifact: Option<String>,
    pub stderr_artifact: Option<String>,
}

impl VerificationStepRecord {
    /// A record of a step, its slug made from its name, with no exit code or artifacts.
    pub fn new(
        suite_name: &str,
        command: Vec<String>,
        status: VerificationStepStatus,
        duration_ms: u64,
    ) -> (r: Self)
        ensures
            r.suite_name@ == suite_name@,
            r.suite_slug@ == artifact_slug(suite_name@),
            r.command == command,
            r.status == status,
            r.exit_code.is_none(),
            r.duration_ms == duration_ms,
            r.stdout_artifact.is_none(),
            r.stderr_artifact.is_none(),
    {
        VerificationStepRecord {
            suite_slug: artifact_component(suite_name),
            suite_name: string_of(suite_name),
            command,
            status,
            exit_code: None,
            duration_ms,
            stdout_artifact: None,
            stderr_artifact: None,
        }
    }
}

/// The slug built from `label` so far, whether an alphanumeric character was seen, and
/// whether a separator is pending: ASCII letters and digits are kept (lowered), and every run
/// of other characters between two kept characters becomes one `-`.
pub open spec fn slug_fold(label: Seq<char>) -> (Seq<char>, bool, bool)
    decreases label.len(),
{
    if label.len() == 0 {
        (seq![], false, false)
    } else {
        let (slug, saw, pending) = slug_fold(label.drop_last());
        let c = label.last();
        if is_ascii_alphanumeric(c) {
            let base = if pending && saw {
                slug.push('-')
            } else {
                slug
            };
            (base.push(ascii_lower(c)), true, false)
        } else if saw {
            (slug, saw, true)
        } else {
            (slug, saw, pending)
        }
    }
}

/// The path-safe slug of a label: `unnamed` when it holds no ASCII letter or digit, and
/// `un-named` when its letters and digits spell `unnamed`, so that only a label without
/// letters or digits is ever reported as unnamed.
pub open spec fn artifact_slug(label: Seq<char>) -> Seq<char> {
    let slug = slug_fold(label).0;
    if slug.len() == 0 {
        "unnamed"@
    } else if slug == "unnamed"@ {
        "un-named"@
    } else {
        slug
    }
}

/// A path-safe label for artifacts: ASCII letters and digits lowered, other runs collapsed
/// to single dashes between them, `unnamed` when nothing is left (and `un-named` for a label
/// whose letters and digits spell `unnamed`).
pub fn artifact_component(label: &str) -> (r: String)
    ensures
        r@ == artifact_slug(label@),
        is_path_safe_slug(r@),
        (exists|i: int| 0 <= i < label@.len() && is_ascii_alphanumeric(#[trigger] label@[i]))
            <==> r@ != "unnamed"@,
        r@ != "unnamed"@ ==> without_dashes(r@) == lowered_alphanumerics(label@),
{
    proof {
        lemma_artifact_slug_is_path_safe(label@);
    }
    let chars = chars_of(label);
    let mut slug = String::new();
    let mut saw_component = false;
    let mut pending_dash = false;
    let mut i: usize = 0;
    while i < chars.len()
        invariant
            i <= chars@.len(),
            chars@ == label@,
            slug_fold(chars@.subrange(0, i as int)) == (slug@, saw_component, pending_dash),
        decreases chars@.len() - i,
    {
        let ch = chars[i];
        proof {
            let s = chars@.subrange(0, i + 1);
            assert(s.drop_last() =~= chars@.subrange(0, i as int));
            assert(s.last() == ch);
        }
        if char_is_ascii_alphanumeric(ch) {
            if pending_dash && saw_component {
                push_char(&mut slug, '-');
            }
            push_char(&mut slug, char_ascii_lower(ch));
            saw_component = true;
            pending_dash = false;
        } else if saw_component {
            pending_dash = true;
        }
        i = i + 1;
    }
    assert(chars@.subrange(0, chars@.len() as int) =~= label@);
    if slug.as_str().is_empty() {
        string_of("unnamed")
    } else if str_eq(slug.as_str(), "unnamed") {
        string_of("un-named")
    } else {
        slug
    }
}

/// A lower-case ASCII letter, an ASCII digit or a dash.
pub open spec fn is_slug_char(c: char) -> bool {
    let u = c as u32;
    (97 <= u <= 122) || (48 <= u <= 57) || c == '-'
}

/// Non-empty, only slug characters, no leading, trailing or doubled dash.
pub open spec fn is_path_safe_slug(t: Seq<char>) -> bool {
    &&& t.len() > 0
    &&& forall|i: int| 0 <= i < t.len() ==> is_slug_char(#[trigger] t[i])
    &&& t[0] != '-'
    &&& t.last() != '-'
    &&& forall|i: int| 0 <= i < t.len() - 1 ==> !(#[trigger] t[i] == '-' && t[i + 1] == '-')
}

proof fn lemma_slug_fold_props(label: Seq<char>)
    ensures
        ({
            let (slug, saw, pending) = slug_fold(label);
            &&& saw == (slug.len() > 0)
            &&& saw == (exists|i: int| 0 <= i < label.len() && is_ascii_alphanumeric(#[trigger] label[i]))
            &&& slug.len() > 0 ==> is_path_safe_slug(slug)
        }),
    decreases label.len(),
{
    if label.len() > 0 {
        let prev = label.drop_last();
        lemma_slug_fold_props(prev);
        let (slug, saw, pending) = slug_fold(prev);
        let c = label.last();
        assert forall|i: int| 0 <= i < prev.len() implies #[trigger] prev[i] == label[i] by {}
        if is_ascii_alphanumeric(c) {
            let base = if pending && saw { slug.push('-') } else { slug };
            let t = base.push(ascii_lower(c));
            assert(is_slug_char(ascii_lower(c)) && ascii_lower(c) != '-');
            assert forall|i: int| 0 <= i < t.len() implies is_slug_char(#[trigger] t[i]) by {
                if i < slug.len() {
                    assert(t[i] == slug[i]);
                }
            }
            assert forall|i: int| 0 <= i < t.len() - 1 implies !(#[trigger] t[i] == '-' && t[i + 1] == '-') by {
                if i < slug.len() - 1 {
                    assert(t[i] == slug[i] && t[i + 1] == slug[i + 1]);
                } else if i == slug.len() - 1 {
                    assert(t[i] == slug.last());
                }
            }
            if slug.len() > 0 {
                assert(t[0] == slug[0]);
            }
            assert(label[label.len() - 1] == c);
        } else {
            if exists|i: int| 0 <= i < label.len() && is_ascii_alphanumeric(#[trigger] label[i]) {
                let i = choose|i: int| 0 <= i < label.len() && is_ascii_alphanumeric(#[trigger] label[i]);
                if i < prev.len() {
                    assert(is_ascii_alphanumeric(prev[i]));
                } else {
                    assert(label[i] == c);
                }
            }
        }
    }
}

/// The characters of `s` other than dashes, in order.
pub open spec fn without_dashes(s: Seq<char>) -> Seq<char>
    decreases s.len(),
{
    if s.len() == 0 {
        seq![]
    } else if s.last() == '-' {
        without_dashes(s.drop_last())
    } else {
        without_dashes(s.drop_last()).push(s.last())
    }
}

/// The ASCII letters and digits of `label`, lowered, in order.
pub open spec fn lowered_alphanumerics(label: Seq<char>) -> Seq<char>
    decreases label.len(),
{
    if label.len() == 0 {
        seq![]
    } else if is_ascii_alphanumeric(label.last()) {
        lowered_alphanumerics(label.drop_last()).push(ascii_lower(label.last()))
    } else {
        lowered_alphanumerics(label.drop_last())
    }
}

proof fn lemma_slug_fold_keeps_alphanumerics(label: Seq<char>)
    ensures
        without_dashes(slug_fold(label).0) == lowered_alphanumerics(label),
    decreases label.len(),
{
    if label.len() > 0 {
        let prev = label.drop_last();
        lemma_slug_fold_keeps_alphanumerics(prev);
        let (slug, saw, pending) = slug_fold(prev);
        let c = label.last();
        if is_ascii_alphanumeric(c) {
            let x = ascii_lower(c);
            assert(x != '-');
            let base = if pending && saw { slug.push('-') } else { slug };
            assert(slug.push('-').drop_last() =~= slug);
            assert(without_dashes(base) == without_dashes(slug));
            assert(base.push(x).drop_last() =~= base);
        }
    }
}

proof fn lemma_without_dashes_of_dashless(s: Seq<char>)
    requires
        forall|i: int| 0 <= i < s.len() ==> #[trigger] s[i] != '-',
    ensures
        without_dashes(s) == s,
    decreases s.len(),
{
    if s.len() > 0 {
        let prev = s.drop_last();
        assert forall|i: int| 0 <= i < prev.len() implies #[trigger] prev[i] != '-' by {
            assert(prev[i] == s[i]);
        }
        lemma_without_dashes_of_dashless(prev);
        assert(s[s.len() - 1] != '-');
        assert(prev.push(s.last()) =~= s);
    }
}

/// Every artifact slug is path safe; a label without ASCII letters or digits gives `unnamed`,
/// and any other label gives a slug other than `unnamed` whose characters, dashes left out,
/// are the label's letters and digits, lowered, in order.
pub proof fn lemma_artifact_slug_is_path_safe(label: Seq<char>)
    ensures
        is_path_safe_slug(artifact_slug(label)),
        (forall|i: int| 0 <= i < label.len() ==> !is_ascii_alphanumeric(#[trigger] label[i]))
            ==> artifact_slug(label) == "unnamed"@,
        (exists|i: int| 0 <= i < label.len() && is_ascii_alphanumeric(#[trigger] label[i]))
            ==> artifact_slug(label) != "unnamed"@
                && without_dashes(artifact_slug(label)) == lowered_alphanumerics(label),
{
    lemma_slug_fold_props(label);
    lemma_slug_fold_keeps_alphanumerics(label);
    reveal_strlit("unnamed");
    reveal_strlit("un-named");
    let u = "unnamed"@;
    let d = "un-named"@;
    assert(is_path_safe_slug(u)) by {
        assert forall|i: int| 0 <= i < u.len() - 1 implies !(#[trigger] u[i] == '-' && u[i + 1] == '-') by {}
    }
    assert(is_path_safe_slug(d)) by {
        assert forall|i: int| 0 <= i < d.len() - 1 implies !(#[trigger] d[i] == '-' && d[i + 1] == '-') by {}
    }
    assert(u != d) by {
        assert(u.len() != d.len());
    }
    assert forall|i: int| 0 <= i < u.len() implies #[trigger] u[i] != '-' by {}
    lemma_without_dashes_of_dashless(u);
    assert(without_dashes(d) == u) by {
        assert(d.drop_last().drop_last().drop_last().drop_last().drop_last().drop_last()
            =~= seq!['u', 'n']);
        assert(d.drop_last().drop_last().drop_last().drop_last().drop_last()
            =~= seq!['u', 'n', '-']);
        reveal_with_fuel(without_dashes, 9);
        assert(without_dashes(d) =~= u);
    }
}

} // verus!
