use vstd::prelude::*;

use crate::string_map::{EntryViews, StringMap, keys_sorted};
use crate::text::{is_blank, push_str, str_eq, str_is_blank, string_of};

verus! {

/// The schema version that every seed config pack declares.
pub const SEED_CONFIG_PACK_SCHEMA_VERSION: &'static str = "wr_seed_config_pack/v1";

/// A named set of seed overrides, keyed by seed graph path.
#[derive(Debug, Clone, PartialEq, Eq)]
pub struct SeedConfigPack {
    pub schema_version: String,
    pub pack_name: String,
    pub seed_overrides: StringMap,
}

/// Why a seed config pack was refused or could not be read or written.
#[derive(Debug, Clone, PartialEq, Eq)]
pub enum SeedConfigPackError {
    Io(String),
    Serialize(String),
    Deserialize(String),
    InvalidSchemaVersion { found: String },
    InvalidPackName,
    InvalidOverridePath { path: String },
}

/// The index of the first override, in key order, whose path or value is blank.
pub open spec fn first_blank_entry(s: EntryViews) -> Option<int>
    decreases s.len(),
{
    if s.len() == 0 {
        None
    } else {
        match first_blank_entry(s.drop_last()) {
            Some(i) => Some(i),
            None => if is_blank(s.last().0) || is_blank(s.last().1) {
                Some(s.len() - 1)
            } else {
                None
            },
        }
    }
}

/// The outcome of `SeedConfigPack::validate` on a pack with these parts: `None` when the pack
/// is accepted, else the error.
pub open spec fn pack_validation(
    schema_version: Seq<char>,
    pack_name: Seq<char>,
    overrides: EntryViews,
) -> Option<SeedConfigPackIssue> {
    if schema_version != SEED_CONFIG_PACK_SCHEMA_VERSION@ {
        Some(SeedConfigPackIssue::InvalidSchemaVersion(schema_version))
    } else if is_blank(pack_name) {
        Some(SeedConfigPackIssue::InvalidPackName)
    } else {
        match first_blank_entry(overrides) {
            Some(i) => Some(SeedConfigPackIssue::InvalidOverridePath(overrides[i].0)),
            None => None,
        }
    }
}

/// The validation errors of a seed config pack, with their texts as character sequences.
pub ghost enum SeedConfigPackIssue {
    InvalidSchemaVersion(Seq<char>),
    InvalidPackName,
    InvalidOverridePath(Seq<char>),
}

/// `e` is the error that describes `issue`.
pub open spec fn error_matches(e: SeedConfigPackError, issue: SeedConfigPackIssue) -> bool {
    match issue {
        SeedConfigPackIssue::InvalidSchemaVersion(found) => e matches SeedConfigPackError::InvalidSchemaVersion { found: f } && f@ == found,
        SeedConfigPackIssue::InvalidPackName => e matches SeedConfigPackError::InvalidPackName,
        SeedConfigPackIssue::InvalidOverridePath(path) => e matches SeedConfigPackError::InvalidOverridePath { path: p } && p@ == path,
    }
}

/// The text that `Display` gives for the error that describes `issue`.
pub open spec fn pack_issue_text(issue: SeedConfigPackIssue) -> Seq<char> {
    match issue {
        SeedConfigPackIssue::InvalidSchemaVersion(found) =>
            "expected seed config pack schema version `"@ + SEED_CONFIG_PACK_SCHEMA_VERSION@
            + "`, found `"@ + found + "`"@,
        SeedConfigPackIssue::InvalidPackName => "seed config pack name must not be blank"@,
        SeedConfigPackIssue::InvalidOverridePath(path) => "seed config pack override path `"@
            + path + "` must not be blank"@,
    }
}

pub proof fn lemma_issue_text(e: SeedConfigPackError, issue: SeedConfigPackIssue)
    requires
        error_matches(e, issue),
    ensures
        pack_error_text(e) == pack_issue_text(issue),
{
}

/// The text that `Display` gives for a seed config pack error.
pub open spec fn pack_error_text(e: SeedConfigPackError) -> Seq<char> {
    match e {
        SeedConfigPackError::Io(error) => "i/o error: "@ + error@,
        SeedConfigPackError::Serialize(error) => "seed config pack serialization failed: "@
            + error@,
        SeedConfigPackError::Deserialize(error) => "seed config pack deserialization failed: "@
            + error@,
        SeedConfigPackError::InvalidSchemaVersion { found } =>
            "expected seed config pack schema version `"@ + SEED_CONFIG_PACK_SCHEMA_VERSION@
            + "`, found `"@ + found@ + "`"@,
        SeedConfigPackError::InvalidPackName => "seed config pack name must not be blank"@,
        SeedConfigPackError::InvalidOverridePath { path } => "seed config pack override path `"@
            + path@ + "` must not be blank"@,
    }
}

impl SeedConfigPackError {
    /// The error's message.
    pub fn to_string(&self) -> (r: String)
        ensures
            r@ == pack_error_text(*self),
    {
        match self {
            SeedConfigPackError::Io(error) => {
                let mut r = string_of("i/o error: ");
                push_str(&mut r, error.as_str());
                r
            },
            SeedConfigPackError::Serialize(error) => {
                let mut r = string_of("seed config pack serialization failed: ");
                push_str(&mut r, error.as_str());
                r
            },
            SeedConfigPackError::Deserialize(error) => {
                let mut r = string_of("seed config pack deserialization failed: ");
                push_str(&mut r, error.as_str());
                r
            },
            SeedConfigPackError::InvalidSchemaVersion { found } => {
                let mut r = string_of("expected seed config pack schema version `");
                push_str(&mut r, SEED_CONFIG_PACK_SCHEMA_VERSION);
                push_str(&mut r, "`, found `");
                push_str(&mut r, found.as_str());
                push_str(&mut r, "`");
                r
            },
            SeedConfigPackError::InvalidPackName => string_of(
                "seed config pack name must not be blank",
            ),
            SeedConfigPackError::InvalidOverridePath { path } => {
                let mut r = string_of("seed config pack override path `");
                push_str(&mut r, path.as_str());
                push_str(&mut r, "` must not be blank");
                r
            },
        }
    }
}

impl SeedConfigPack {
    /// A pack with the current schema version, validated.
    pub fn new(pack_name: &str, seed_overrides: StringMap) -> (r: Result<Self, SeedConfigPackError>)
        ensures
            match pack_validation(SEED_CONFIG_PACK_SCHEMA_VERSION@, pack_name@, seed_overrides@) {
                None => r matches Ok(pack) && pack.schema_version@
                    == SEED_CONFIG_PACK_SCHEMA_VERSION@ && pack.pack_name@ == pack_name@
                    && pack.seed_overrides@ == seed_overrides@,
                Some(issue) => r matches Err(e) && error_matches(e, issue),
            },
    {
        let pack = SeedConfigPack {
            schema_version: string_of(SEED_CONFIG_PACK_SCHEMA_VERSION),
            pack_name: string_of(pack_name),
            seed_overrides,
        };
        match pack.validate() {
            Ok(()) => Ok(pack),
            Err(e) => Err(e),
        }
    }

    /// A pack without overrides.
    pub fn named(pack_name: &str) -> (r: Result<Self, SeedConfigPackError>)
        ensures
            is_blank(pack_name@) ==> (r matches Err(SeedConfigPackError::InvalidPackName)),
            !is_blank(pack_name@) ==> (r matches Ok(pack) && pack.schema_version@
                == SEED_CONFIG_PACK_SCHEMA_VERSION@ && pack.pack_name@ == pack_name@
                && pack.seed_overrides@.len() == 0),
    {
        let m = StringMap::new();
        proof {
            reveal_with_fuel(first_blank_entry, 2);
        }
        SeedConfigPack::new(pack_name, m)
    }

    /// Checks the schema version, that the name is not blank and that no override has a blank
    /// path or value.
    pub fn validate(&self) -> (r: Result<(), SeedConfigPackError>)
        ensures
            match pack_validation(self.schema_version@, self.pack_name@, self.seed_overrides@) {
                None => r is Ok,
                Some(issue) => r matches Err(e) && error_matches(e, issue),
            },
    {
        if !str_eq(self.schema_version.as_str(), SEED_CONFIG_PACK_SCHEMA_VERSION) {
            return Err(
                SeedConfigPackError::InvalidSchemaVersion { found: self.schema_version.clone() },
            );
        }
        if str_is_blank(self.pack_name.as_str()) {
            return Err(SeedConfigPackError::InvalidPackName);
        }
        let n = self.seed_overrides.len();
        let mut i: usize = 0;
        while i < n
            invariant
                n == self.seed_overrides@.len(),
                i <= n,
                self.schema_version@ == SEED_CONFIG_PACK_SCHEMA_VERSION@,
                !is_blank(self.pack_name@),
                first_blank_entry(self.seed_overrides@.subrange(0, i as int)).is_none(),
            decreases n - i,
        {
            let key = self.seed_overrides.key_at(i);
            let value = self.seed_overrides.value_at(i);
            proof {
                let s = self.seed_overrides@.subrange(0, i + 1);
                assert(s.drop_last() =~= self.seed_overrides@.subrange(0, i as int));
            }
            if str_is_blank(key.as_str()) || str_is_blank(value.as_str()) {
                proof {
                    let s = self.seed_overrides@.subrange(0, i + 1);
                    assert(s.last() == self.seed_overrides@[i as int]);
                    assert(first_blank_entry(s) == Some(i as int));
                    lemma_first_blank_prefix(self.seed_overrides@, i as int + 1);
                }
                let path = key.clone();
                return Err(SeedConfigPackError::InvalidOverridePath { path });
            }
            i = i + 1;
        }
        assert(self.seed_overrides@.subrange(0, n as int) =~= self.seed_overrides@);
        Ok(())
    }
}

/// The first blank entry of a prefix that holds one is the first blank entry of the whole.
proof fn lemma_first_blank_prefix(s: EntryViews, k: int)
    requires
        0 <= k <= s.len(),
        first_blank_entry(s.subrange(0, k)).is_some(),
    ensures
        first_blank_entry(s) == first_blank_entry(s.subrange(0, k)),
    decreases s.len() - k,
{
    if k < s.len() {
        lemma_first_blank_prefix_step(s, k);
        lemma_first_blank_prefix(s, k + 1);
    } else {
        assert(s.subrange(0, k) =~= s);
    }
}

proof fn lemma_first_blank_prefix_step(s: EntryViews, k: int)
    requires
        0 <= k < s.len(),
        first_blank_entry(s.subrange(0, k)).is_some(),
    ensures
        first_blank_entry(s.subrange(0, k + 1)) == first_blank_entry(s.subrange(0, k)),
{
    assert(s.subrange(0, k + 1).drop_last() =~= s.subrange(0, k));
}

} // verus!
