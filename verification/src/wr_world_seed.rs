use vstd::prelude::*;
use vstd::arithmetic::div_mod::lemma_mod_breakdown;
use vstd::wrapping::u64_specs;

use crate::string_map::{EntryViews, StringMap, keys_sorted, lemma_lookup_absent,
    lemma_lookup_at, lookup};
use crate::text::{chars_of, hex_digit_char, hex_fixed, is_white_space, push_hex_fixed,
    push_str, str_eq, string_of, trim, trim_bounds, trim_end, trim_start};
use crate::wr_core::config_packs::{SeedConfigPack, SeedConfigPackError, SeedConfigPackIssue,
    pack_error_text, pack_issue_text, pack_validation};
use crate::wr_core::{CrateBoundary, CrateEntryPoint, entry_card};

verus! {

/// The entry point of the world seed crate: a subsystem, not integration-only.
pub fn init_entrypoint() -> (r: CrateEntryPoint)
    ensures
        entry_card(r, "wr_world_seed"@, CrateBoundary::Subsystem, false),
{
    CrateEntryPoint::new("wr_world_seed", CrateBoundary::Subsystem, false)
}

/// The topology version that every standard seed graph declares.
pub const STANDARD_SEED_GRAPH_VERSION: &'static str = "wr_seed_graph/v1";

/// The FNV-1a 64-bit offset basis.
pub const FNV_OFFSET_BASIS: u64 = 0xcbf29ce484222325;

/// The FNV-1a 64-bit prime.
pub const FNV_PRIME: u64 = 0x00000100000001b3;

// ---------------------------------------------------------------------------------------------
// Hexadecimal text
// ---------------------------------------------------------------------------------------------

/// `16^n`.
pub open spec fn pow16(n: nat) -> nat
    decreases n,
{
    if n == 0 {
        1
    } else {
        16 * pow16((n - 1) as nat)
    }
}

/// The value of a hexadecimal digit, either case.
pub open spec fn hex_digit_value(c: char) -> Option<nat> {
    let u = c as u32;
    if 48 <= u <= 57 {
        Some((u - 48) as nat)
    } else if 65 <= u <= 70 {
        Some((u - 55) as nat)
    } else if 97 <= u <= 102 {
        Some((u - 87) as nat)
    } else {
        None
    }
}

/// Every character is a hexadecimal digit.
pub open spec fn all_hex_digits(s: Seq<char>) -> bool {
    forall|i: int| 0 <= i < s.len() ==> (#[trigger] hex_digit_value(s[i])).is_some()
}

/// The number that a string of hexadecimal digits denotes.
pub open spec fn hex_value(s: Seq<char>) -> nat
    decreases s.len(),
{
    if s.len() == 0 {
        0
    } else {
        hex_value(s.drop_last()) * 16 + hex_digit_value(s.last()).unwrap()
    }
}

/// The digits that `u64::from_str_radix(t, 16)` reads: `t` without one leading `+`.
pub open spec fn radix16_digits(t: Seq<char>) -> Seq<char> {
    if t.len() > 0 && t[0] == '+' {
        t.drop_first()
    } else {
        t
    }
}

/// `s` without its leading `0x` or `0X`, if it has one.
pub open spec fn strip_hex_prefix(s: Seq<char>) -> Option<Seq<char>> {
    if s.len() >= 2 && s[0] == '0' && (s[1] == 'x' || s[1] == 'X') {
        Some(s.subrange(2, s.len() as int))
    } else {
        None
    }
}

/// The seed that `RootSeed::parse_hex` reads from `s`: after trimming white space, a `0x` or
/// `0X` prefix, then one to sixteen characters that `u64::from_str_radix(_, 16)` accepts (an
/// optional `+` and hexadecimal digits).
pub open spec fn parse_seed_hex(s: Seq<char>) -> Option<u64> {
    match strip_hex_prefix(trim(s)) {
        None => None,
        Some(t) => {
            let d = radix16_digits(t);
            if t.len() == 0 || t.len() > 16 || d.len() == 0 || !all_hex_digits(d) {
                None
            } else {
                Some(hex_value(d) as u64)
            }
        },
    }
}

/// `format!("0x{v:016X}")`.
pub open spec fn hex_text(v: u64) -> Seq<char> {
    "0x"@ + hex_fixed(v as nat, 16)
}

pub proof fn lemma_pow16_monotone(a: nat, b: nat)
    requires
        a <= b,
    ensures
        pow16(a) <= pow16(b),
    decreases b,
{
    if a < b {
        lemma_pow16_monotone(a, (b - 1) as nat);
    }
}

pub proof fn lemma_pow16_positive(n: nat)
    ensures
        pow16(n) > 0,
    decreases n,
{
    if n > 0 {
        lemma_pow16_positive((n - 1) as nat);
    }
}

pub proof fn lemma_pow16_16()
    ensures
        pow16(16) == 0x1_0000_0000_0000_0000,
{
    reveal_with_fuel(pow16, 17);
}

pub proof fn lemma_hex_value_bound(s: Seq<char>)
    requires
        all_hex_digits(s),
    ensures
        hex_value(s) < pow16(s.len()),
    decreases s.len(),
{
    if s.len() > 0 {
        let t = s.drop_last();
        assert forall|i: int| 0 <= i < t.len() implies (#[trigger] hex_digit_value(t[i])).is_some() by {
            assert(t[i] == s[i]);
        }
        lemma_hex_value_bound(t);
        assert(hex_digit_value(s[s.len() - 1]).is_some());
        assert(hex_digit_value(s.last()).unwrap() < 16);
    }
}

pub proof fn lemma_hex_fixed_facts(v: nat, n: nat)
    ensures
        hex_fixed(v, n).len() == n,
        all_hex_digits(hex_fixed(v, n)),
        forall|i: int| 0 <= i < n ==> !is_white_space(#[trigger] hex_fixed(v, n)[i]),
        forall|i: int| 0 <= i < n ==> #[trigger] hex_fixed(v, n)[i] != '+',
        hex_value(hex_fixed(v, n)) == v % pow16(n),
    decreases n,
{
    if n > 0 {
        let m = (n - 1) as nat;
        lemma_hex_fixed_facts(v / 16, m);
        let s = hex_fixed(v, n);
        let c = hex_digit_char(v % 16);
        assert(s == hex_fixed(v / 16, m).push(c));
        assert(hex_digit_value(c) == Some(v % 16));
        assert forall|i: int| 0 <= i < n implies (#[trigger] hex_digit_value(s[i])).is_some() by {
            if i < m {
                assert(s[i] == hex_fixed(v / 16, m)[i]);
            }
        }
        assert forall|i: int| 0 <= i < n implies !is_white_space(#[trigger] s[i]) && s[i] != '+' by {
            if i < m {
                assert(s[i] == hex_fixed(v / 16, m)[i]);
            }
        }
        assert(s.drop_last() =~= hex_fixed(v / 16, m));
        lemma_pow16_positive(m);
        lemma_mod_breakdown(v as int, 16, pow16(m) as int);
    }
}

/// Reading back the text of a seed gives the seed.
pub proof fn lemma_parse_hex_text(v: u64)
    ensures
        parse_seed_hex(hex_text(v)) == Some(v),
{
    let h = hex_fixed(v as nat, 16);
    lemma_hex_fixed_facts(v as nat, 16);
    let s = hex_text(v);
    reveal_strlit("0x");
    assert(s[0] == '0');
    assert(s[1] == 'x');
    assert(s.last() == h[15]);
    assert(!is_white_space(s[0]));
    assert(trim_start(s) == s);
    assert(trim_end(s) == s);
    assert(s.subrange(2, s.len() as int) =~= h);
    assert(radix16_digits(h) == h);
    lemma_pow16_16();
}

/// Parses a run of hexadecimal digit characters `v[lo..hi]`, at most sixteen of them.
fn parse_hex_digits(v: &Vec<char>, lo: usize, hi: usize) -> (r: Option<u64>)
    requires
        lo <= hi <= v@.len(),
        hi - lo <= 16,
    ensures
        match r {
            Some(x) => all_hex_digits(v@.subrange(lo as int, hi as int)) && x == hex_value(
                v@.subrange(lo as int, hi as int),
            ),
            None => !all_hex_digits(v@.subrange(lo as int, hi as int)),
        },
{
    let mut acc: u64 = 0;
    let mut k = lo;
    while k < hi
        invariant
            lo <= k <= hi <= v@.len(),
            hi - lo <= 16,
            all_hex_digits(v@.subrange(lo as int, k as int)),
            acc == hex_value(v@.subrange(lo as int, k as int)),
            acc < pow16((k - lo) as nat),
        decreases hi - k,
    {
        let c = v[k];
        let u = c as u32;
        let d: u64 = if 48 <= u && u <= 57 {
            (u - 48) as u64
        } else if 65 <= u && u <= 70 {
            (u - 55) as u64
        } else if 97 <= u && u <= 102 {
            (u - 87) as u64
        } else {
            assert(hex_digit_value(v@.subrange(lo as int, hi as int)[k - lo]).is_none());
            return None;
        };
        proof {
            lemma_pow16_monotone((k - lo + 1) as nat, 16);
            lemma_pow16_16();
            let s = v@.subrange(lo as int, k + 1);
            assert(s.drop_last() =~= v@.subrange(lo as int, k as int));
            assert(s.last() == c);
            assert forall|i: int| 0 <= i < s.len() implies (#[trigger] hex_digit_value(
                s[i],
            )).is_some() by {
                if i < s.len() - 1 {
                    assert(s[i] == v@.subrange(lo as int, k as int)[i]);
                }
            }
        }
        acc = acc * 16 + d;
        k = k + 1;
    }
    Some(acc)
}

// ---------------------------------------------------------------------------------------------
// FNV-1a hashing
// ---------------------------------------------------------------------------------------------

/// One FNV-1a step: xor the byte in, then multiply by the prime modulo `2^64`.
pub open spec fn fnv_step(h: u64, b: u8) -> u64 {
    u64_specs::wrapping_mul(h ^ (b as u64), FNV_PRIME)
}

/// FNV-1a over `bytes`, starting from `h`.
pub open spec fn fnv_hash(h: u64, bytes: Seq<u8>) -> u64
    decreases bytes.len(),
{
    if bytes.len() == 0 {
        h
    } else {
        fnv_step(fnv_hash(h, bytes.drop_last()), bytes.last())
    }
}

/// All parts joined.
pub open spec fn concat_parts(parts: Seq<Seq<u8>>) -> Seq<u8>
    decreases parts.len(),
{
    if parts.len() == 0 {
        seq![]
    } else {
        concat_parts(parts.drop_last()) + parts.last()
    }
}

/// The big-endian bytes of `v`.
pub open spec fn be_bytes(v: u64) -> Seq<u8> {
    Seq::new(8, |i: int| (v >> ((56 - 8 * i) as u64)) as u8)
}

/// The seed of the stream labelled `label` under `parent`: FNV-1a over the big-endian bytes of
/// the parent seed followed by the UTF-8 bytes of the label.
pub open spec fn stream_seed(parent: u64, label: Seq<char>) -> u64 {
    fnv_hash(FNV_OFFSET_BASIS, be_bytes(parent) + vstd::utf8::encode_utf8(label))
}

/// Continues an FNV-1a hash with `bytes`.
fn update_hash(hash: u64, bytes: &[u8]) -> (r: u64)
    ensures
        r == fnv_hash(hash, bytes@),
{
    let mut h = hash;
    let mut i: usize = 0;
    while i < bytes.len()
        invariant
            i <= bytes@.len(),
            h == fnv_hash(hash, bytes@.subrange(0, i as int)),
        decreases bytes@.len() - i,
    {
        proof {
            let s = bytes@.subrange(0, i + 1);
            assert(s.drop_last() =~= bytes@.subrange(0, i as int));
        }
        h = (h ^ (bytes[i] as u64)).wrapping_mul(FNV_PRIME);
        i = i + 1;
    }
    assert(bytes@.subrange(0, bytes@.len() as int) =~= bytes@);
    h
}

proof fn lemma_fnv_append(h: u64, a: Seq<u8>, b: Seq<u8>)
    ensures
        fnv_hash(fnv_hash(h, a), b) == fnv_hash(h, a + b),
    decreases b.len(),
{
    if b.len() > 0 {
        lemma_fnv_append(h, a, b.drop_last());
        assert((a + b).drop_last() =~= a + b.drop_last());
    } else {
        assert(a + b =~= a);
    }
}

/// `format!("0x{hash:016X}")` of the FNV-1a hash of all parts in turn.
pub fn stable_hash_hex(parts: &[Vec<u8>]) -> (r: String)
    ensures
        r@ == hex_text(
            fnv_hash(FNV_OFFSET_BASIS, concat_parts(parts@.map_values(|p: Vec<u8>| p@))),
        ),
{
    let ghost ps = parts@.map_values(|p: Vec<u8>| p@);
    let mut hash = FNV_OFFSET_BASIS;
    let mut i: usize = 0;
    while i < parts.len()
        invariant
            i <= parts@.len(),
            ps == parts@.map_values(|p: Vec<u8>| p@),
            hash == fnv_hash(FNV_OFFSET_BASIS, concat_parts(ps.subrange(0, i as int))),
        decreases parts@.len() - i,
    {
        let next = update_hash(hash, parts[i].as_slice());
        proof {
            lemma_fnv_append(
                FNV_OFFSET_BASIS,
                concat_parts(ps.subrange(0, i as int)),
                parts@[i as int]@,
            );
            assert(ps.subrange(0, i + 1).drop_last() =~= ps.subrange(0, i as int));
        }
        hash = next;
        i = i + 1;
    }
    assert(ps.subrange(0, parts@.len() as int) =~= ps);
    hex_string(hash)
}

/// `format!("0x{hash:016X}")` of the FNV-1a hash of `bytes`.
pub fn stable_hash_hex_bytes(bytes: &[u8]) -> (r: String)
    ensures
        r@ == hex_text(fnv_hash(FNV_OFFSET_BASIS, bytes@)),
{
    hex_string(update_hash(FNV_OFFSET_BASIS, bytes))
}

/// The FNV-1a hash of `bytes`.
pub fn stable_hash_u64_bytes(bytes: &[u8]) -> (r: u64)
    ensures
        r == fnv_hash(FNV_OFFSET_BASIS, bytes@),
{
    update_hash(FNV_OFFSET_BASIS, bytes)
}

/// `format!("0x{v:016X}")`.
pub(crate) fn hex_string(v: u64) -> (r: String)
    ensures
        r@ == hex_text(v),
{
    let mut r = string_of("0x");
    push_hex_fixed(&mut r, v, 16);
    r
}

// ---------------------------------------------------------------------------------------------
// Seeds
// ---------------------------------------------------------------------------------------------

/// Why a seed or a seed graph was refused.
#[derive(Debug, Clone, PartialEq, Eq)]
pub struct SeedError {
    reason: String,
}

/// The reason given for a seed text that does not parse.
pub open spec fn invalid_hex_reason(value: Seq<char>) -> Seq<char> {
    "seed `"@ + value + "` must be a 0x-prefixed hexadecimal value"@
}

/// The reason given for an override path outside the standard seed graph.
pub open spec fn unknown_path_reason(path: Seq<char>) -> Seq<char> {
    "seed config override path `"@ + path + "` is not part of the standard seed graph"@
}

impl View for SeedError {
    type V = Seq<char>;

    closed spec fn view(&self) -> Seq<char> {
        self.reason@
    }
}

impl SeedError {
    fn invalid_hex(value: &str) -> (r: Self)
        ensures
            r@ == invalid_hex_reason(value@),
    {
        let mut reason = string_of("seed `");
        push_str(&mut reason, value);
        push_str(&mut reason, "` must be a 0x-prefixed hexadecimal value");
        SeedError { reason }
    }

    fn unknown_path(path: &str) -> (r: Self)
        ensures
            r@ == unknown_path_reason(path@),
    {
        let mut reason = string_of("seed config override path `");
        push_str(&mut reason, path);
        push_str(&mut reason, "` is not part of the standard seed graph");
        SeedError { reason }
    }

    fn config_pack(error: SeedConfigPackError) -> (r: Self)
        ensures
            r@ == pack_error_text(error),
    {
        SeedError { reason: error.to_string() }
    }

    /// The error's message.
    pub fn to_string(&self) -> (r: String)
        ensures
            r@ == self@,
    {
        self.reason.clone()
    }
}

/// The root seed of a world, from which every generator's seed is derived.
#[derive(Debug, Clone, Copy, PartialEq, Eq)]
pub struct RootSeed(u64);

impl View for RootSeed {
    type V = u64;

    closed spec fn view(&self) -> u64 {
        self.0
    }
}

impl RootSeed {
    /// Reads a `0x`-prefixed hexadecimal seed, as `parse_seed_hex` describes.
    pub fn parse_hex(value: &str) -> (r: Result<Self, SeedError>)
        ensures
            match parse_seed_hex(value@) {
                Some(v) => r matches Ok(s) && s@ == v,
                None => r matches Err(e) && e@ == invalid_hex_reason(value@),
            },
    {
        let v = chars_of(value);
        let (lo, hi) = trim_bounds(&v);
        let ghost t = trim(value@);
        if hi - lo < 2 || v[lo] != '0' || (v[lo + 1] != 'x' && v[lo + 1] != 'X') {
            return Err(SeedError::invalid_hex(value));
        }
        let start = lo + 2;
        let ghost body = v@.subrange(start as int, hi as int);
        assert(strip_hex_prefix(t) == Some(body)) by {
            assert(t.subrange(2, t.len() as int) =~= body);
        }
        if hi == start || hi - start > 16 {
            return Err(SeedError::invalid_hex(value));
        }
        let digits_start = if v[start] == '+' {
            start + 1
        } else {
            start
        };
        assert(radix16_digits(body) =~= v@.subrange(digits_start as int, hi as int));
        if digits_start == hi {
            return Err(SeedError::invalid_hex(value));
        }
        match parse_hex_digits(&v, digits_start, hi) {
            Some(x) => Ok(RootSeed(x)),
            None => Err(SeedError::invalid_hex(value)),
        }
    }

    /// The seed's number.
    pub fn value(self) -> (r: u64)
        ensures
            r == self@,
    {
        self.0
    }

    /// `format!("0x{:016X}")` of the seed.
    pub fn to_hex(self) -> (r: String)
        ensures
            r@ == hex_text(self@),
    {
        hex_string(self.0)
    }

    /// The hash text of the stream labelled `label` under this seed.
    pub fn derive_stream_hex(self, label: &str) -> (r: String)
        ensures
            r@ == hex_text(stream_seed(self@, label@)),
    {
        let bytes = self.record_bytes(label);
        stable_hash_hex_bytes(bytes.as_slice())
    }

    /// The seed of the stream labelled `label` under this seed.
    pub fn derive_stream_u64(self, label: &str) -> (r: u64)
        ensures
            r == stream_seed(self@, label@),
    {
        let bytes = self.record_bytes(label);
        stable_hash_u64_bytes(bytes.as_slice())
    }

    fn record_bytes(self, label: &str) -> (r: Vec<u8>)
        ensures
            r@ == be_bytes(self@) + vstd::utf8::encode_utf8(label@),
    {
        let mut bytes: Vec<u8> = Vec::new();
        let mut i: u64 = 0;
        while i < 8
            invariant
                i <= 8,
                bytes@ == be_bytes(self@).subrange(0, i as int),
            decreases 8 - i,
        {
            bytes.push((self.0 >> (56 - 8 * i)) as u8);
            i = i + 1;
            assert(bytes@ =~= be_bytes(self@).subrange(0, i as int));
        }
        let lb = label.as_bytes();
        let mut j: usize = 0;
        while j < lb.len()
            invariant
                j <= lb@.len(),
                lb@ == vstd::utf8::encode_utf8(label@),
                bytes@ == be_bytes(self@) + lb@.subrange(0, j as int),
            decreases lb@.len() - j,
        {
            bytes.push(lb[j]);
            j = j + 1;
            assert(bytes@ =~= be_bytes(self@) + lb@.subrange(0, j as int));
        }
        assert(lb@.subrange(0, lb@.len() as int) =~= lb@);
        bytes
    }
}

// ---------------------------------------------------------------------------------------------
// Seeded random numbers
// ---------------------------------------------------------------------------------------------

/// The SplitMix64 increment.
pub const SPLITMIX_GAMMA: u64 = 0x9E3779B97F4A7C15;

/// The SplitMix64 output function of a state.
pub open spec fn splitmix_output(state: u64) -> u64 {
    let z1 = u64_specs::wrapping_mul(state ^ (state >> 30u64), 0xBF58476D1CE4E5B9u64);
    let z2 = u64_specs::wrapping_mul(z1 ^ (z1 >> 27u64), 0x94D049BB133111EBu64);
    z2 ^ (z2 >> 31u64)
}

/// A SplitMix64 generator.
#[derive(Debug, Clone, Copy, PartialEq, Eq)]
pub struct SeedRng {
    state: u64,
}

impl View for SeedRng {
    type V = u64;

    closed spec fn view(&self) -> u64 {
        self.state
    }
}

impl SeedRng {
    /// A generator whose state is the seed.
    pub fn new(seed: RootSeed) -> (r: Self)
        ensures
            r@ == seed@,
    {
        SeedRng { state: seed.value() }
    }

    /// Advances the state by the SplitMix64 increment and returns its output.
    pub fn next_u64(&mut self) -> (r: u64)
        ensures
            final(self)@ == u64_specs::wrapping_add(old(self)@, SPLITMIX_GAMMA),
            r == splitmix_output(final(self)@),
    {
        self.state = self.state.wrapping_add(SPLITMIX_GAMMA);
        let mut z = self.state;
        z = (z ^ (z >> 30)).wrapping_mul(0xBF58476D1CE4E5B9);
        z = (z ^ (z >> 27)).wrapping_mul(0x94D049BB133111EB);
        z ^ (z >> 31)
    }
}

/// Two seeds are the same exactly when their values are, and two generators exactly when their
/// states are. With `SeedRng::new`, whose state is the seed, the generators of two seeds are
/// equal exactly when the seeds are; and `next_u64` depends on the state alone.
pub proof fn lemma_seed_and_generator_identity(a: RootSeed, b: RootSeed, x: SeedRng, y: SeedRng)
    ensures
        (a == b) == (a@ == b@),
        (x == y) == (x@ == y@),
{
}

// ---------------------------------------------------------------------------------------------
// The standard seed graph
// ---------------------------------------------------------------------------------------------

/// Whether a seed was derived from its parent or set by a config pack override.
#[derive(Debug, Clone, Copy, PartialEq, Eq, Structural)]
pub enum SeedDerivationMode {
    Derived,
    Override,
}

/// One node of a seed graph.
#[derive(Debug, Clone, PartialEq, Eq)]
pub struct SeedDerivation {
    pub path: String,
    pub label: String,
    pub parent_path: Option<String>,
    pub value_hex: String,
    pub mode: SeedDerivationMode,
}

/// An override that a seed graph applied, with its value normalised.
#[derive(Debug, Clone, PartialEq, Eq)]
pub struct SeedConfigOverride {
    pub path: String,
    pub value_hex: String,
}

/// The seeds of every generator of a world, derived from a root seed and a config pack.
#[derive(Debug, Clone, PartialEq, Eq)]
pub struct SeedGraph {
    pub topology_version: String,
    pub root_hex: String,
    pub config_pack_name: String,
    pub overrides: Vec<SeedConfigOverride>,
    pub derivations: Vec<SeedDerivation>,
}

/// The number of nodes of the standard seed graph.
pub const STANDARD_SEED_PATH_COUNT: usize = 7;

/// The path of the `i`-th node of the standard seed graph.
pub open spec fn std_path(i: int) -> Seq<char> {
    if i == 0 {
        "terrain"@
    } else if i == 1 {
        "ecology"@
    } else if i == 2 {
        "trees"@
    } else if i == 3 {
        "wraiths"@
    } else if i == 4 {
        "combat"@
    } else if i == 5 {
        "combat.scenarios"@
    } else {
        "vfx"@
    }
}

/// The stream label of the `i`-th node of the standard seed graph.
pub open spec fn std_label(i: int) -> Seq<char> {
    if i == 5 {
        "scenarios"@
    } else {
        std_path(i)
    }
}

/// The parent node of the `i`-th node of the standard seed graph; the others hang off the root.
pub open spec fn std_parent(i: int) -> Option<int> {
    if i == 5 {
        Some(4)
    } else {
        None
    }
}

/// `p` names a node of the standard seed graph.
pub open spec fn is_standard_path(p: Seq<char>) -> bool {
    exists|i: int| 0 <= i < 7 && #[trigger] std_path(i) == p
}

/// The seed that the overrides set for path `p`.
pub open spec fn override_seed(s: EntryViews, p: Seq<char>) -> Option<u64> {
    match lookup(s, p) {
        Some(v) => parse_seed_hex(v),
        None => None,
    }
}

/// The seed of node `i` under a parent seed: its override, else the stream of its label.
pub open spec fn branch_seed(parent: u64, s: EntryViews, i: int) -> u64 {
    match override_seed(s, std_path(i)) {
        Some(v) => v,
        None => stream_seed(parent, std_label(i)),
    }
}

/// The seed of node `i` of the standard seed graph of `root` under the overrides `s`.
pub open spec fn standard_seed(root: u64, s: EntryViews, i: int) -> u64
    decreases i,
{
    match std_parent(i) {
        Some(p) => if 0 <= p < i {
            branch_seed(standard_seed(root, s, p), s, i)
        } else {
            branch_seed(root, s, i)
        },
        None => branch_seed(root, s, i),
    }
}

/// How node `i` got its seed.
pub open spec fn standard_mode(s: EntryViews, i: int) -> SeedDerivationMode {
    if override_seed(s, std_path(i)).is_some() {
        SeedDerivationMode::Override
    } else {
        SeedDerivationMode::Derived
    }
}

/// The first override, in key order, whose value is not a seed.
pub open spec fn first_unparsable(s: EntryViews) -> Option<int>
    decreases s.len(),
{
    if s.len() == 0 {
        None
    } else {
        match first_unparsable(s.drop_last()) {
            Some(j) => Some(j),
            None => if parse_seed_hex(s.last().1).is_none() {
                Some(s.len() - 1)
            } else {
                None
            },
        }
    }
}

/// The first override, in key order, whose path is not in the standard seed graph.
pub open spec fn first_unknown_path(s: EntryViews) -> Option<int>
    decreases s.len(),
{
    if s.len() == 0 {
        None
    } else {
        match first_unknown_path(s.drop_last()) {
            Some(j) => Some(j),
            None => if !is_standard_path(s.last().0) {
                Some(s.len() - 1)
            } else {
                None
            },
        }
    }
}

/// The reason the standard seed graph is refused, if it is: an invalid pack first, then the
/// first override value that is not a seed, then the first override path outside the graph.
pub open spec fn graph_error(pack_issue: Option<SeedConfigPackIssue>, s: EntryViews) -> Option<
    Seq<char>,
> {
    match pack_issue {
        Some(issue) => Some(pack_issue_text(issue)),
        None => match first_unparsable(s) {
            Some(j) => Some(invalid_hex_reason(s[j].1)),
            None => match first_unknown_path(s) {
                Some(j) => Some(unknown_path_reason(s[j].0)),
                None => None,
            },
        },
    }
}

/// `d` is node `i` of the standard seed graph of `root` under the overrides `s`.
pub open spec fn derivation_is(d: SeedDerivation, i: int, root: u64, s: EntryViews) -> bool {
    &&& d.path@ == std_path(i)
    &&& d.label@ == std_label(i)
    &&& match std_parent(i) {
        Some(p) => d.parent_path matches Some(pp) && pp@ == std_path(p),
        None => d.parent_path is None,
    }
    &&& d.value_hex@ == hex_text(standard_seed(root, s, i))
    &&& d.mode == standard_mode(s, i)
}

/// `g` is the standard seed graph of `root` under the pack named `name` with overrides `s`.
pub open spec fn is_standard_graph(g: SeedGraph, root: u64, name: Seq<char>, s: EntryViews) -> bool {
    &&& g.topology_version@ == STANDARD_SEED_GRAPH_VERSION@
    &&& g.root_hex@ == hex_text(root)
    &&& g.config_pack_name@ == name
    &&& g.overrides@.len() == s.len()
    &&& forall|j: int|
        0 <= j < s.len() ==> (#[trigger] g.overrides@[j]).path@ == s[j].0
            && g.overrides@[j].value_hex@ == hex_text(parse_seed_hex(s[j].1).unwrap())
    &&& g.derivations@.len() == 7
    &&& forall|i: int| 0 <= i < 7 ==> derivation_is(#[trigger] g.derivations@[i], i, root, s)
}

/// The outcome of `SeedGraph::standard` for a pack with this validation outcome, name and
/// overrides.
pub open spec fn standard_outcome(
    root: u64,
    pack_issue: Option<SeedConfigPackIssue>,
    name: Seq<char>,
    s: EntryViews,
    r: Result<SeedGraph, SeedError>,
) -> bool {
    match graph_error(pack_issue, s) {
        Some(reason) => r matches Err(e) && e@ == reason,
        None => r matches Ok(g) && is_standard_graph(g, root, name, s),
    }
}

/// The first node of `ds` whose path is `p`.
pub open spec fn first_derivation(ds: Seq<SeedDerivation>, p: Seq<char>) -> Option<int>
    decreases ds.len(),
{
    if ds.len() == 0 {
        None
    } else {
        match first_derivation(ds.drop_last(), p) {
            Some(j) => Some(j),
            None => if ds.last().path@ == p {
                Some(ds.len() - 1)
            } else {
                None
            },
        }
    }
}

/// The path, label and parent index of the `i`-th node of the standard seed graph.
fn standard_node(i: usize) -> (r: (&'static str, &'static str, Option<usize>))
    requires
        i < 7,
    ensures
        r.0@ == std_path(i as int),
        r.1@ == std_label(i as int),
        match std_parent(i as int) {
            Some(p) => r.2 == Some(p as usize),
            None => r.2.is_none(),
        },
{
    if i == 0 {
        ("terrain", "terrain", None)
    } else if i == 1 {
        ("ecology", "ecology", None)
    } else if i == 2 {
        ("trees", "trees", None)
    } else if i == 3 {
        ("wraiths", "wraiths", None)
    } else if i == 4 {
        ("combat", "combat", None)
    } else if i == 5 {
        ("combat.scenarios", "scenarios", Some(4))
    } else {
        ("vfx", "vfx", None)
    }
}

/// The index of the standard node whose path is `path`.
fn standard_index_of(path: &str) -> (r: Option<usize>)
    ensures
        match r {
            Some(i) => i < 7 && std_path(i as int) == path@,
            None => !is_standard_path(path@),
        },
{
    let mut i: usize = 0;
    while i < STANDARD_SEED_PATH_COUNT
        invariant
            i <= 7,
            forall|k: int| 0 <= k < i ==> #[trigger] std_path(k) != path@,
        decreases 7 - i,
    {
        let (p, _, _) = standard_node(i);
        if str_eq(p, path) {
            return Some(i);
        }
        i = i + 1;
    }
    None
}

/// Reads every override value as a seed, in key order.
fn parse_overrides(m: &StringMap) -> (r: Result<Vec<u64>, SeedError>)
    ensures
        match first_unparsable(m@) {
            Some(j) => r matches Err(e) && e@ == invalid_hex_reason(m@[j].1),
            None => r matches Ok(v) && v@.len() == m@.len() && forall|j: int|
                0 <= j < m@.len() ==> parse_seed_hex(m@[j].1) == Some(#[trigger] v@[j]),
        },
{
    let n = m.len();
    let mut seeds: Vec<u64> = Vec::new();
    let mut j: usize = 0;
    while j < n
        invariant
            n == m@.len(),
            j <= n,
            first_unparsable(m@.subrange(0, j as int)).is_none(),
            seeds@.len() == j,
            forall|k: int| 0 <= k < j ==> parse_seed_hex(m@[k].1) == Some(#[trigger] seeds@[k]),
        decreases n - j,
    {
        let value = m.value_at(j);
        proof {
            let s = m@.subrange(0, j + 1);
            assert(s.drop_last() =~= m@.subrange(0, j as int));
            assert(s.last() == m@[j as int]);
        }
        match RootSeed::parse_hex(value.as_str()) {
            Ok(seed) => {
                seeds.push(seed.value());
            },
            Err(e) => {
                proof {
                    lemma_first_unparsable_prefix(m@, j as int + 1);
                }
                return Err(e);
            },
        }
        j = j + 1;
    }
    assert(m@.subrange(0, n as int) =~= m@);
    Ok(seeds)
}

proof fn lemma_first_unparsable_prefix(s: EntryViews, k: int)
    requires
        0 <= k <= s.len(),
        first_unparsable(s.subrange(0, k)).is_some(),
    ensures
        first_unparsable(s) == first_unparsable(s.subrange(0, k)),
    decreases s.len() - k,
{
    if k < s.len() {
        assert(s.subrange(0, k + 1).drop_last() =~= s.subrange(0, k));
        lemma_first_unparsable_prefix(s, k + 1);
    } else {
        assert(s.subrange(0, k) =~= s);
    }
}

proof fn lemma_first_unknown_prefix(s: EntryViews, k: int)
    requires
        0 <= k <= s.len(),
        first_unknown_path(s.subrange(0, k)).is_some(),
    ensures
        first_unknown_path(s) == first_unknown_path(s.subrange(0, k)),
    decreases s.len() - k,
{
    if k < s.len() {
        assert(s.subrange(0, k + 1).drop_last() =~= s.subrange(0, k));
        lemma_first_unknown_prefix(s, k + 1);
    } else {
        assert(s.subrange(0, k) =~= s);
    }
}

/// Checks that every override path names a node of the standard seed graph.
fn check_override_paths(m: &StringMap) -> (r: Result<(), SeedError>)
    ensures
        match first_unknown_path(m@) {
            Some(j) => r matches Err(e) && e@ == unknown_path_reason(m@[j].0),
            None => r is Ok,
        },
{
    let n = m.len();
    let mut j: usize = 0;
    while j < n
        invariant
            n == m@.len(),
            j <= n,
            first_unknown_path(m@.subrange(0, j as int)).is_none(),
        decreases n - j,
    {
        let key = m.key_at(j);
        proof {
            let s = m@.subrange(0, j + 1);
            assert(s.drop_last() =~= m@.subrange(0, j as int));
            assert(s.last() == m@[j as int]);
        }
        if standard_index_of(key.as_str()).is_none() {
            proof {
                lemma_first_unknown_prefix(m@, j as int + 1);
            }
            return Err(SeedError::unknown_path(key.as_str()));
        }
        j = j + 1;
    }
    assert(m@.subrange(0, n as int) =~= m@);
    Ok(())
}

/// The override seed for `path`, given the parsed values of all overrides.
fn override_for(m: &StringMap, parsed: &Vec<u64>, path: &str) -> (r: Option<u64>)
    requires
        parsed@.len() == m@.len(),
        forall|j: int| 0 <= j < m@.len() ==> parse_seed_hex(m@[j].1) == Some(#[trigger] parsed@[j]),
    ensures
        r == override_seed(m@, path@),
{
    let n = m.len();
    let mut j: usize = 0;
    while j < n
        invariant
            n == m@.len(),
            j <= n,
            keys_sorted(m@),
            parsed@.len() == m@.len(),
            forall|k: int| 0 <= k < m@.len() ==> parse_seed_hex(m@[k].1) == Some(#[trigger] parsed@[k]),
            forall|k: int| 0 <= k < j ==> #[trigger] m@[k].0 != path@,
        decreases n - j,
    {
        if str_eq(m.key_at(j).as_str(), path) {
            proof {
                lemma_lookup_at(m@, j as int);
                assert(parse_seed_hex(m@[j as int].1) == Some(parsed@[j as int]));
            }
            return Some(parsed[j]);
        }
        j = j + 1;
    }
    proof {
        lemma_lookup_absent(m@, path@);
    }
    None
}

impl SeedGraph {
    /// Builds the standard seed graph of `root` under `pack`, or under the empty pack named
    /// `default` when there is none.
    pub fn standard(root: RootSeed, pack: Option<&SeedConfigPack>) -> (r: Result<Self, SeedError>)
        ensures
            match pack {
                Some(p) => standard_outcome(
                    root@,
                    pack_validation(p.schema_version@, p.pack_name@, p.seed_overrides@),
                    p.pack_name@,
                    p.seed_overrides@,
                    r,
                ),
                None => standard_outcome(
                    root@,
                    None,
                    "default"@,
                    Seq::<(Seq<char>, Seq<char>)>::empty(),
                    r,
                ),
            },
    {
        let empty = StringMap::new();
        let (pack_name, overrides): (String, &StringMap) = match pack {
            Some(p) => {
                match p.validate() {
                    Ok(()) => {},
                    Err(e) => {
                        let ghost issue = pack_validation(
                            p.schema_version@,
                            p.pack_name@,
                            p.seed_overrides@,
                        ).unwrap();
                        proof {
                            crate::wr_core::config_packs::lemma_issue_text(e, issue);
                        }
                        return Err(SeedError::config_pack(e));
                    },
                }
                (p.pack_name.clone(), &p.seed_overrides)
            },
            None => (string_of("default"), &empty),
        };
        let ghost s = overrides@;
        proof {
            reveal_with_fuel(first_unparsable, 2);
            reveal_with_fuel(first_unknown_path, 2);
        }
        let parsed = parse_overrides(overrides)?;
        check_override_paths(overrides)?;
        let n = overrides.len();

        let mut seeds: Vec<u64> = Vec::new();
        let mut derivations: Vec<SeedDerivation> = Vec::new();
        let mut i: usize = 0;
        while i < STANDARD_SEED_PATH_COUNT
            invariant
                s == overrides@,
                parsed@.len() == s.len(),
                forall|j: int| 0 <= j < s.len() ==> parse_seed_hex(s[j].1) == Some(#[trigger] parsed@[j]),
                i <= 7,
                seeds@.len() == i,
                derivations@.len() == i,
                forall|k: int| 0 <= k < i ==> #[trigger] seeds@[k] == standard_seed(root@, s, k),
                forall|k: int| 0 <= k < i ==> derivation_is(#[trigger] derivations@[k], k, root@, s),
            decreases 7 - i,
        {
            let (path, label, parent) = standard_node(i);
            let parent_seed = match parent {
                Some(p) => RootSeed(seeds[p]),
                None => root,
            };
            let (seed, mode) = match override_for(overrides, &parsed, path) {
                Some(v) => (v, SeedDerivationMode::Override),
                None => (parent_seed.derive_stream_u64(label), SeedDerivationMode::Derived),
            };
            let parent_path = match parent {
                Some(p) => {
                    let (pp, _, _) = standard_node(p);
                    Some(string_of(pp))
                },
                None => None,
            };
            seeds.push(seed);
            derivations.push(
                SeedDerivation {
                    path: string_of(path),
                    label: string_of(label),
                    parent_path,
                    value_hex: hex_string(seed),
                    mode,
                },
            );
            i = i + 1;
        }

        let mut applied: Vec<SeedConfigOverride> = Vec::new();
        let mut j: usize = 0;
        while j < n
            invariant
                s == overrides@,
                n == s.len(),
                parsed@.len() == s.len(),
                forall|k: int| 0 <= k < s.len() ==> parse_seed_hex(s[k].1) == Some(#[trigger] parsed@[k]),
                j <= n,
                applied@.len() == j,
                forall|k: int|
                    0 <= k < j ==> (#[trigger] applied@[k]).path@ == s[k].0
                        && applied@[k].value_hex@ == hex_text(parse_seed_hex(s[k].1).unwrap()),
            decreases n - j,
        {
            applied.push(
                SeedConfigOverride {
                    path: overrides.key_at(j).clone(),
                    value_hex: hex_string(parsed[j]),
                },
            );
            j = j + 1;
        }

        Ok(
            SeedGraph {
                topology_version: string_of(STANDARD_SEED_GRAPH_VERSION),
                root_hex: root.to_hex(),
                config_pack_name: pack_name,
                overrides: applied,
                derivations,
            },
        )
    }

    /// The seed of the first node whose path is `path`, if its text is a seed.
    pub fn seed_for_path(&self, path: &str) -> (r: Option<RootSeed>)
        ensures
            match r {
                Some(x) => seed_at_path(self.derivations@, path@) == Some(x@),
                None => seed_at_path(self.derivations@, path@) is None,
            },
            match first_derivation(self.derivations@, path@) {
                None => r.is_none(),
                Some(j) => match parse_seed_hex(self.derivations@[j].value_hex@) {
                    Some(v) => r matches Some(x) && x@ == v,
                    None => r.is_none(),
                },
            },
    {
        let n = self.derivations.len();
        let mut j: usize = 0;
        while j < n
            invariant
                n == self.derivations@.len(),
                j <= n,
                first_derivation(self.derivations@.subrange(0, j as int), path@).is_none(),
            decreases n - j,
        {
            proof {
                let s = self.derivations@.subrange(0, j + 1);
                assert(s.drop_last() =~= self.derivations@.subrange(0, j as int));
                assert(s.last() == self.derivations@[j as int]);
            }
            if str_eq(self.derivations[j].path.as_str(), path) {
                proof {
                    lemma_first_derivation_prefix(self.derivations@, path@, j as int + 1);
                }
                return match RootSeed::parse_hex(self.derivations[j].value_hex.as_str()) {
                    Ok(seed) => Some(seed),
                    Err(_) => None,
                };
            }
            j = j + 1;
        }
        assert(self.derivations@.subrange(0, n as int) =~= self.derivations@);
        None
    }
}

/// The seed of the first node of `ds` whose path is `p`, if its text is a seed.
pub open spec fn seed_at_path(ds: Seq<SeedDerivation>, p: Seq<char>) -> Option<u64> {
    match first_derivation(ds, p) {
        None => None,
        Some(j) => parse_seed_hex(ds[j].value_hex@),
    }
}

proof fn lemma_first_derivation_prefix(ds: Seq<SeedDerivation>, p: Seq<char>, k: int)
    requires
        0 <= k <= ds.len(),
        first_derivation(ds.subrange(0, k), p).is_some(),
    ensures
        first_derivation(ds, p) == first_derivation(ds.subrange(0, k), p),
    decreases ds.len() - k,
{
    if k < ds.len() {
        assert(ds.subrange(0, k + 1).drop_last() =~= ds.subrange(0, k));
        lemma_first_derivation_prefix(ds, p, k + 1);
    } else {
        assert(ds.subrange(0, k) =~= ds);
    }
}

// ---------------------------------------------------------------------------------------------
// Laws
// ---------------------------------------------------------------------------------------------

/// The nodes of the standard seed graph have distinct paths.
pub proof fn lemma_standard_paths_distinct(i: int, j: int)
    requires
        0 <= i < 7,
        0 <= j < 7,
        i != j,
    ensures
        std_path(i) != std_path(j),
{
    reveal_strlit("terrain");
    reveal_strlit("ecology");
    reveal_strlit("trees");
    reveal_strlit("wraiths");
    reveal_strlit("combat");
    reveal_strlit("combat.scenarios");
    reveal_strlit("vfx");
    let a = std_path(i);
    let b = std_path(j);
    if a.len() == b.len() {
        assert(a[0] != b[0] || a[1] != b[1]);
    }
}

/// An override changes only the seed of its own node and of that node's children: a node
/// whose override, and whose parent's override, are the same under two sets of overrides has
/// the same seed under both.
pub proof fn lemma_override_only_changes_its_branch(root: u64, s1: EntryViews, s2: EntryViews, i: int)
    requires
        0 <= i < 7,
        override_seed(s1, std_path(i)) == override_seed(s2, std_path(i)),
        std_parent(i) matches Some(p) ==> override_seed(s1, std_path(p)) == override_seed(
            s2,
            std_path(p),
        ),
    ensures
        standard_seed(root, s1, i) == standard_seed(root, s2, i),
        standard_mode(s1, i) == standard_mode(s2, i),
{
    if i == 5 {
        assert(standard_seed(root, s1, 4) == standard_seed(root, s2, 4));
    }
}

/// In a standard seed graph, `seed_for_path` of each node's path finds that node and reads
/// back its seed.
pub proof fn lemma_standard_graph_seed_for_path(
    g: SeedGraph,
    root: u64,
    name: Seq<char>,
    s: EntryViews,
    i: int,
)
    requires
        is_standard_graph(g, root, name, s),
        0 <= i < 7,
    ensures
        first_derivation(g.derivations@, std_path(i)) == Some(i),
        parse_seed_hex(g.derivations@[i].value_hex@) == Some(standard_seed(root, s, i)),
{
    let ds = g.derivations@;
    assert(derivation_is(ds[i], i, root, s));
    lemma_parse_hex_text(standard_seed(root, s, i));
    assert forall|k: int| 0 <= k < i implies #[trigger] ds[k].path@ != std_path(i) by {
        assert(derivation_is(ds[k], k, root, s));
        lemma_standard_paths_distinct(k, i);
    }
    lemma_first_derivation_at(ds, std_path(i), i);
}

proof fn lemma_first_derivation_at(ds: Seq<SeedDerivation>, p: Seq<char>, i: int)
    requires
        0 <= i < ds.len(),
        ds[i].path@ == p,
        forall|k: int| 0 <= k < i ==> #[trigger] ds[k].path@ != p,
    ensures
        first_derivation(ds, p) == Some(i),
    decreases ds.len(),
{
    if i < ds.len() - 1 {
        let t = ds.drop_last();
        assert(t[i] == ds[i]);
        assert forall|k: int| 0 <= k < i implies #[trigger] t[k].path@ != p by {
            assert(t[k] == ds[k]);
        }
        lemma_first_derivation_at(t, p, i);
    } else {
        let t = ds.drop_last();
        assert forall|k: int| 0 <= k < t.len() implies #[trigger] t[k].path@ != p by {
            assert(t[k] == ds[k]);
        }
        lemma_first_derivation_absent(t, p);
    }
}

proof fn lemma_first_derivation_absent(ds: Seq<SeedDerivation>, p: Seq<char>)
    requires
        forall|k: int| 0 <= k < ds.len() ==> #[trigger] ds[k].path@ != p,
    ensures
        first_derivation(ds, p).is_none(),
    decreases ds.len(),
{
    if ds.len() > 0 {
        let t = ds.drop_last();
        assert forall|k: int| 0 <= k < t.len() implies #[trigger] t[k].path@ != p by {
            assert(t[k] == ds[k]);
        }
        lemma_first_derivation_absent(t, p);
        assert(ds.last() == ds[ds.len() - 1]);
    }
}

/// Seed texts are `0x` followed by sixteen upper-case hexadecimal digits.
pub proof fn lemma_hex_text_shape(v: u64)
    ensures
        hex_text(v).len() == 18,
        hex_text(v).subrange(0, 2) == "0x"@,
        forall|i: int|
            2 <= i < 18 ==> {
                let u = #[trigger] hex_text(v)[i] as u32;
                (48 <= u <= 57) || (65 <= u <= 70)
            },
{
    reveal_strlit("0x");
    lemma_hex_fixed_shape(v as nat, 16);
    assert(hex_text(v).subrange(0, 2) =~= "0x"@);
    assert forall|i: int| 2 <= i < 18 implies {
        let u = #[trigger] hex_text(v)[i] as u32;
        (48 <= u <= 57) || (65 <= u <= 70)
    } by {
        assert(hex_text(v)[i] == hex_fixed(v as nat, 16)[i - 2]);
    }
}

proof fn lemma_hex_fixed_shape(v: nat, n: nat)
    ensures
        hex_fixed(v, n).len() == n,
        forall|i: int|
            0 <= i < n ==> {
                let u = #[trigger] hex_fixed(v, n)[i] as u32;
                (48 <= u <= 57) || (65 <= u <= 70)
            },
    decreases n,
{
    if n > 0 {
        lemma_hex_fixed_shape(v / 16, (n - 1) as nat);
        let s = hex_fixed(v, n);
        assert forall|i: int| 0 <= i < n implies {
            let u = #[trigger] s[i] as u32;
            (48 <= u <= 57) || (65 <= u <= 70)
        } by {
            if i < n - 1 {
                assert(s[i] == hex_fixed(v / 16, (n - 1) as nat)[i]);
            }
        }
    }
}

} // verus!

verus! {

/// A pack that overrides one node of the standard seed graph sets that node's seed to the
/// override and marks it overridden; every node that is neither that node nor its child keeps
/// the seed and mode it has without overrides.
pub proof fn lemma_single_override_changes_only_its_branch(root: u64, i: int, h: Seq<char>, j: int)
    requires
        0 <= i < 7,
        0 <= j < 7,
        parse_seed_hex(h) is Some,
    ensures
        standard_seed(root, seq![(std_path(i), h)], i) == parse_seed_hex(h).unwrap(),
        standard_mode(seq![(std_path(i), h)], i) == SeedDerivationMode::Override,
        j != i && std_parent(j) != Some(i) ==> standard_seed(root, seq![(std_path(i), h)], j)
            == standard_seed(root, Seq::<(Seq<char>, Seq<char>)>::empty(), j) && standard_mode(
            seq![(std_path(i), h)],
            j,
        ) == SeedDerivationMode::Derived,
{
    let s: EntryViews = seq![(std_path(i), h)];
    let e = Seq::<(Seq<char>, Seq<char>)>::empty();
    assert(s.drop_last() =~= e);
    assert(s.last() == (std_path(i), h));
    assert(lookup(s, std_path(i)) == Some(h));
    if j != i && std_parent(j) != Some(i) {
        lemma_standard_paths_distinct(i, j);
        assert(lookup(e, std_path(j)).is_none());
        assert(lookup(s, std_path(j)) == lookup(e, std_path(j)));
        assert(lookup(s, std_path(j)).is_none());
        if j == 5 {
            lemma_standard_paths_distinct(i, 4);
            assert(lookup(e, std_path(4)).is_none());
            assert(lookup(s, std_path(4)) == lookup(e, std_path(4)));
        }
        lemma_override_only_changes_its_branch(root, s, e, j);
    }
}

/// In the standard seed graph without overrides, each top-level node's seed is the root's
/// stream for its path, and `combat.scenarios` is the `combat` seed's stream for `scenarios`.
pub proof fn lemma_standard_seeds_without_overrides(root: u64, i: int)
    requires
        0 <= i < 7,
    ensures
        i != 5 ==> standard_seed(root, Seq::empty(), i) == stream_seed(root, std_path(i)),
        i == 5 ==> standard_seed(root, Seq::empty(), i) == stream_seed(
            stream_seed(root, "combat"@),
            "scenarios"@,
        ),
{
    let e = Seq::<(Seq<char>, Seq<char>)>::empty();
    assert(lookup(e, std_path(i)).is_none());
    if i == 5 {
        assert(lookup(e, std_path(4)).is_none());
        assert(standard_seed(root, e, 4) == stream_seed(root, "combat"@));
    }
}

/// A standard seed graph holds exactly the seven standard paths: a path is found exactly when
/// it is one of them.
pub proof fn lemma_standard_graph_paths(g: SeedGraph, root: u64, name: Seq<char>, s: EntryViews, p: Seq<char>)
    requires
        is_standard_graph(g, root, name, s),
    ensures
        first_derivation(g.derivations@, p).is_some() == is_standard_path(p),
{
    let ds = g.derivations@;
    if is_standard_path(p) {
        let i = choose|i: int| 0 <= i < 7 && #[trigger] std_path(i) == p;
        lemma_standard_graph_seed_for_path(g, root, name, s, i);
    } else {
        assert forall|k: int| 0 <= k < ds.len() implies #[trigger] ds[k].path@ != p by {
            assert(derivation_is(ds[k], k, root, s));
            assert(std_path(k) != p);
        }
        lemma_first_derivation_absent(ds, p);
    }
}

/// The stream text of a label is the `0x`-prefixed, 16-digit upper-case hex of the stream's
/// value, and is the same for the same seed and label.
pub proof fn lemma_stream_hex_text(seed: u64, label: Seq<char>)
    ensures
        hex_text(stream_seed(seed, label)).len() == 18,
        parse_seed_hex(hex_text(stream_seed(seed, label))) == Some(stream_seed(seed, label)),
{
    lemma_hex_text_shape(stream_seed(seed, label));
    lemma_parse_hex_text(stream_seed(seed, label));
}

/// In a standard seed graph, a path has a seed exactly when it is one of the seven standard
/// paths, and node `i`'s path has node `i`'s seed.
pub proof fn lemma_standard_graph_lookup(g: SeedGraph, root: u64, name: Seq<char>, s: EntryViews, p: Seq<char>)
    requires
        is_standard_graph(g, root, name, s),
    ensures
        seed_at_path(g.derivations@, p).is_some() == is_standard_path(p),
        forall|i: int|
            0 <= i < 7 && std_path(i) == p ==> seed_at_path(g.derivations@, p) == Some(
                standard_seed(root, s, i),
            ),
{
    lemma_standard_graph_paths(g, root, name, s, p);
    if is_standard_path(p) {
        let i = choose|i: int| 0 <= i < 7 && #[trigger] std_path(i) == p;
        lemma_standard_graph_seed_for_path(g, root, name, s, i);
        assert forall|k: int|
            0 <= k < 7 && std_path(k) == p implies seed_at_path(g.derivations@, p) == Some(
                standard_seed(root, s, k),
            ) by {
            if k != i {
                lemma_standard_paths_distinct(k, i);
            }
        }
    }
}

/// Two standard seed graphs of one root, one without overrides and one whose pack overrides
/// node `i` with the seed text `h`: the second gives node `i`'s path the override's seed and
/// marks only that node overridden, and gives every other standard path that is not a child of
/// node `i` the seed the first gives it.
pub proof fn lemma_override_graph_keeps_other_branches(
    base: SeedGraph,
    g: SeedGraph,
    root: u64,
    base_name: Seq<char>,
    name: Seq<char>,
    i: int,
    h: Seq<char>,
    j: int,
)
    requires
        is_standard_graph(base, root, base_name, Seq::<(Seq<char>, Seq<char>)>::empty()),
        is_standard_graph(g, root, name, seq![(std_path(i), h)]),
        0 <= i < 7,
        0 <= j < 7,
        parse_seed_hex(h) is Some,
    ensures
        seed_at_path(g.derivations@, std_path(i)) == parse_seed_hex(h),
        g.derivations@[i].mode == SeedDerivationMode::Override,
        j != i && std_parent(j) != Some(i) ==> seed_at_path(g.derivations@, std_path(j))
            == seed_at_path(base.derivations@, std_path(j)) && g.derivations@[j].mode
            == SeedDerivationMode::Derived,
{
    let s: EntryViews = seq![(std_path(i), h)];
    let e = Seq::<(Seq<char>, Seq<char>)>::empty();
    lemma_single_override_changes_only_its_branch(root, i, h, j);
    lemma_standard_graph_seed_for_path(g, root, name, s, i);
    lemma_standard_graph_seed_for_path(g, root, name, s, j);
    lemma_standard_graph_seed_for_path(base, root, base_name, e, j);
    assert(derivation_is(g.derivations@[i], i, root, s));
    assert(derivation_is(g.derivations@[j], j, root, s));
}

} // verus!
