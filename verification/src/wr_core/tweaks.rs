use vstd::prelude::*;

use vstd::std_specs::cmp::PartialEqSpecImpl;

use crate::string_map::{find_slot, keys_sorted, lemma_lookup_absent, lemma_lookup_at,
    lemma_sorted_insert, lemma_sorted_replace, lookup};
use crate::text::{chars_of, lemma_seq_lt_irreflexive, push_str, seq_lt, str_eq, string_of};

verus! {

/// The schema version that every tweak pack declares.
pub const TWEAK_PACK_SCHEMA_VERSION: &'static str = "wr_tweak_pack/v1";

/// The groups that live tweaks belong to.
#[derive(Debug, Clone, Copy, PartialEq, Eq, PartialOrd, Ord, Structural)]
pub enum TweakNamespace {
    World,
    Atmosphere,
    Lighting,
    Foliage,
    Player,
    Combat,
    Wraith,
    Vfx,
}

/// The key prefix of a namespace.
pub open spec fn namespace_str(n: TweakNamespace) -> Seq<char> {
    match n {
        TweakNamespace::World => "world"@,
        TweakNamespace::Atmosphere => "atmosphere"@,
        TweakNamespace::Lighting => "lighting"@,
        TweakNamespace::Foliage => "foliage"@,
        TweakNamespace::Player => "player"@,
        TweakNamespace::Combat => "combat"@,
        TweakNamespace::Wraith => "wraith"@,
        TweakNamespace::Vfx => "vfx"@,
    }
}

/// The display label of a namespace.
pub open spec fn namespace_label(n: TweakNamespace) -> Seq<char> {
    match n {
        TweakNamespace::World => "World"@,
        TweakNamespace::Atmosphere => "Atmosphere"@,
        TweakNamespace::Lighting => "Lighting"@,
        TweakNamespace::Foliage => "Foliage"@,
        TweakNamespace::Player => "Player"@,
        TweakNamespace::Combat => "Combat"@,
        TweakNamespace::Wraith => "Wraith"@,
        TweakNamespace::Vfx => "VFX"@,
    }
}

impl TweakNamespace {
    /// Every namespace, in declaration order.
    pub open spec fn all_spec() -> Seq<TweakNamespace> {
        seq![
            TweakNamespace::World,
            TweakNamespace::Atmosphere,
            TweakNamespace::Lighting,
            TweakNamespace::Foliage,
            TweakNamespace::Player,
            TweakNamespace::Combat,
            TweakNamespace::Wraith,
            TweakNamespace::Vfx,
        ]
    }

    /// Every namespace, in declaration order.
    pub fn all() -> (r: [TweakNamespace; 8])
        ensures
            r@ == seq![
                TweakNamespace::World,
                TweakNamespace::Atmosphere,
                TweakNamespace::Lighting,
                TweakNamespace::Foliage,
                TweakNamespace::Player,
                TweakNamespace::Combat,
                TweakNamespace::Wraith,
                TweakNamespace::Vfx,
            ],
    {
        let r = [
            TweakNamespace::World,
            TweakNamespace::Atmosphere,
            TweakNamespace::Lighting,
            TweakNamespace::Foliage,
            TweakNamespace::Player,
            TweakNamespace::Combat,
            TweakNamespace::Wraith,
            TweakNamespace::Vfx,
        ];
        assert(r@ =~= seq![
            TweakNamespace::World,
            TweakNamespace::Atmosphere,
            TweakNamespace::Lighting,
            TweakNamespace::Foliage,
            TweakNamespace::Player,
            TweakNamespace::Combat,
            TweakNamespace::Wraith,
            TweakNamespace::Vfx,
        ]);
        r
    }

    /// The key prefix of the namespace.
    pub fn as_str(self) -> (r: &'static str)
        ensures
            r@ == namespace_str(self),
    {
        match self {
            TweakNamespace::World => "world",
            TweakNamespace::Atmosphere => "atmosphere",
            TweakNamespace::Lighting => "lighting",
            TweakNamespace::Foliage => "foliage",
            TweakNamespace::Player => "player",
            TweakNamespace::Combat => "combat",
            TweakNamespace::Wraith => "wraith",
            TweakNamespace::Vfx => "vfx",
        }
    }

    /// The label that the tweak UI shows.
    pub fn label(self) -> (r: &'static str)
        ensures
            r@ == namespace_label(self),
    {
        match self {
            TweakNamespace::World => "World",
            TweakNamespace::Atmosphere => "Atmosphere",
            TweakNamespace::Lighting => "Lighting",
            TweakNamespace::Foliage => "Foliage",
            TweakNamespace::Player => "Player",
            TweakNamespace::Combat => "Combat",
            TweakNamespace::Wraith => "Wraith",
            TweakNamespace::Vfx => "VFX",
        }
    }
}

/// Whether a tweak holds a number or a switch.
#[derive(Debug, Clone, Copy, PartialEq, Eq, Structural)]
pub enum TweakValueKind {
    Scalar,
    Toggle,
}

/// The name of a value kind.
pub open spec fn value_kind_label(k: TweakValueKind) -> Seq<char> {
    match k {
        TweakValueKind::Scalar => "scalar"@,
        TweakValueKind::Toggle => "toggle"@,
    }
}

impl TweakValueKind {
    /// The name of the kind.
    pub fn label(self) -> (r: &'static str)
        ensures
            r@ == value_kind_label(self),
    {
        match self {
            TweakValueKind::Scalar => "scalar",
            TweakValueKind::Toggle => "toggle",
        }
    }
}

/// A tweak's value. A scalar is held as the IEEE-754 bit pattern of its single-precision number
/// (what `f32::to_bits` gives), and two scalars compare as the numbers do under `f32`'s `==`.
#[derive(Debug, Clone, Copy)]
pub enum TweakValue {
    Scalar(u32),
    Toggle(bool),
}

/// The bit pattern is a single-precision NaN: every exponent bit set and a nonzero fraction.
pub open spec fn f32_bits_is_nan(b: u32) -> bool {
    (b & 0x7f80_0000u32) == 0x7f80_0000u32 && (b & 0x007f_ffffu32) != 0u32
}

/// The bit pattern is one of the two single-precision zeros.
pub open spec fn f32_bits_is_zero(b: u32) -> bool {
    (b & 0x7fff_ffffu32) == 0u32
}

/// `==` on the single-precision numbers with these bit patterns: false when either is a NaN,
/// true for the two zeros, and otherwise true exactly when the patterns agree.
pub open spec fn f32_bits_eq(a: u32, b: u32) -> bool {
    &&& !f32_bits_is_nan(a)
    &&& !f32_bits_is_nan(b)
    &&& (a == b || (f32_bits_is_zero(a) && f32_bits_is_zero(b)))
}

/// `==` on tweak values: same kind, and equal numbers or equal switches.
pub open spec fn tweak_values_eq(a: TweakValue, b: TweakValue) -> bool {
    match a {
        TweakValue::Scalar(x) => match b {
            TweakValue::Scalar(y) => f32_bits_eq(x, y),
            TweakValue::Toggle(_) => false,
        },
        TweakValue::Toggle(x) => match b {
            TweakValue::Scalar(_) => false,
            TweakValue::Toggle(y) => x == y,
        },
    }
}

/// The kind of a value.
pub open spec fn value_kind(v: TweakValue) -> TweakValueKind {
    match v {
        TweakValue::Scalar(_) => TweakValueKind::Scalar,
        TweakValue::Toggle(_) => TweakValueKind::Toggle,
    }
}

/// `==` on two single-precision bit patterns, as `f32` compares the numbers.
pub fn f32_bits_equal(a: u32, b: u32) -> (r: bool)
    ensures
        r == f32_bits_eq(a, b),
{
    let a_nan = (a & 0x7f80_0000u32) == 0x7f80_0000u32 && (a & 0x007f_ffffu32) != 0u32;
    let b_nan = (b & 0x7f80_0000u32) == 0x7f80_0000u32 && (b & 0x007f_ffffu32) != 0u32;
    let both_zero = (a & 0x7fff_ffffu32) == 0u32 && (b & 0x7fff_ffffu32) == 0u32;
    !a_nan && !b_nan && (a == b || both_zero)
}

impl TweakValue {
    /// Whether the value is a scalar or a toggle.
    pub fn kind(self) -> (r: TweakValueKind)
        ensures
            r == value_kind(self),
    {
        match self {
            TweakValue::Scalar(_) => TweakValueKind::Scalar,
            TweakValue::Toggle(_) => TweakValueKind::Toggle,
        }
    }
}

impl PartialEq for TweakValue {
    fn eq(&self, other: &Self) -> (r: bool) {
        match self {
            TweakValue::Scalar(x) => match other {
                TweakValue::Scalar(y) => f32_bits_equal(*x, *y),
                TweakValue::Toggle(_) => false,
            },
            TweakValue::Toggle(x) => match other {
                TweakValue::Scalar(_) => false,
                TweakValue::Toggle(y) => *x == *y,
            },
        }
    }
}

impl PartialEqSpecImpl for TweakValue {
    open spec fn obeys_eq_spec() -> bool {
        true
    }

    open spec fn eq_spec(&self, other: &Self) -> bool {
        tweak_values_eq(*self, *other)
    }
}

/// A live tweak: its key, namespace, labels and default value.
#[derive(Debug, Clone, Copy, PartialEq)]
pub struct TweakDefinition {
    pub key: &'static str,
    pub namespace: TweakNamespace,
    pub label: &'static str,
    pub description: &'static str,
    pub default_value: TweakValue,
}

impl TweakDefinition {
    /// A definition with the given fields.
    pub fn new(
        key: &'static str,
        namespace: TweakNamespace,
        label: &'static str,
        description: &'static str,
        default_value: TweakValue,
    ) -> (r: Self)
        ensures
            r == (TweakDefinition { key, namespace, label, description, default_value }),
    {
        TweakDefinition { key, namespace, label, description, default_value }
    }
}

/// The number of built-in tweaks.
pub const TWEAK_DEFINITION_COUNT: usize = 8;

/// The built-in tweaks, one per namespace, in namespace order. Scalars are written as the bit
/// patterns of 0.35, 1.0, 0.65, 0.45, 1.0, 0.55 and 0.75.
pub open spec fn default_definitions() -> Seq<TweakDefinition> {
    seq![
        TweakDefinition {
            key: "world.wind_strength",
            namespace: TweakNamespace::World,
            label: "Wind Strength",
            description: "Controls broad environmental motion cues used by the biome runtime.",
            default_value: TweakValue::Scalar(0x3eb3_3333u32),
        },
        TweakDefinition {
            key: "atmosphere.mie_strength",
            namespace: TweakNamespace::Atmosphere,
            label: "Mie Strength",
            description: "Scales the late-afternoon atmospheric forward scattering push.",
            default_value: TweakValue::Scalar(0x3f80_0000u32),
        },
        TweakDefinition {
            key: "lighting.sun_warmth",
            namespace: TweakNamespace::Lighting,
            label: "Sun Warmth",
            description: "Biases the key light grade toward the warm hero look.",
            default_value: TweakValue::Scalar(0x3f26_6666u32),
        },
        TweakDefinition {
            key: "foliage.sway_strength",
            namespace: TweakNamespace::Foliage,
            label: "Sway Strength",
            description: "Controls secondary sway intensity for needles, fronds, and understory cards.",
            default_value: TweakValue::Scalar(0x3ee6_6666u32),
        },
        TweakDefinition {
            key: "player.camera_bob_enabled",
            namespace: TweakNamespace::Player,
            label: "Camera Bob",
            description: "Enables or disables camera bob for tests and readability checks.",
            default_value: TweakValue::Toggle(true),
        },
        TweakDefinition {
            key: "combat.hitstop_scale",
            namespace: TweakNamespace::Combat,
            label: "Hitstop Scale",
            description: "Scales the readable pause on successful clashes and hit-confirms.",
            default_value: TweakValue::Scalar(0x3f80_0000u32),
        },
        TweakDefinition {
            key: "wraith.ribbon_emissive",
            namespace: TweakNamespace::Wraith,
            label: "Ribbon Emissive",
            description: "Controls how strongly the wraith silhouette ribbons glow against fog.",
            default_value: TweakValue::Scalar(0x3f0c_cccdu32),
        },
        TweakDefinition {
            key: "vfx.trail_opacity",
            namespace: TweakNamespace::Vfx,
            label: "Trail Opacity",
            description: "Controls the visible weight of telekinetic weapon trails and wisps.",
            default_value: TweakValue::Scalar(0x3f40_0000u32),
        },
    ]
}

/// The built-in tweaks, one per namespace, in namespace order.
pub fn default_tweak_definitions() -> (r: [TweakDefinition; 8])
    ensures
        r@ == default_definitions(),
{
    let r = [
        TweakDefinition::new(
            "world.wind_strength",
            TweakNamespace::World,
            "Wind Strength",
            "Controls broad environmental motion cues used by the biome runtime.",
            TweakValue::Scalar(0x3eb3_3333u32),
        ),
        TweakDefinition::new(
            "atmosphere.mie_strength",
            TweakNamespace::Atmosphere,
            "Mie Strength",
            "Scales the late-afternoon atmospheric forward scattering push.",
            TweakValue::Scalar(0x3f80_0000u32),
        ),
        TweakDefinition::new(
            "lighting.sun_warmth",
            TweakNamespace::Lighting,
            "Sun Warmth",
            "Biases the key light grade toward the warm hero look.",
            TweakValue::Scalar(0x3f26_6666u32),
        ),
        TweakDefinition::new(
            "foliage.sway_strength",
            TweakNamespace::Foliage,
            "Sway Strength",
            "Controls secondary sway intensity for needles, fronds, and understory cards.",
            TweakValue::Scalar(0x3ee6_6666u32),
        ),
        TweakDefinition::new(
            "player.camera_bob_enabled",
            TweakNamespace::Player,
            "Camera Bob",
            "Enables or disables camera bob for tests and readability checks.",
            TweakValue::Toggle(true),
        ),
        TweakDefinition::new(
            "combat.hitstop_scale",
            TweakNamespace::Combat,
            "Hitstop Scale",
            "Scales the readable pause on successful clashes and hit-confirms.",
            TweakValue::Scalar(0x3f80_0000u32),
        ),
        TweakDefinition::new(
            "wraith.ribbon_emissive",
            TweakNamespace::Wraith,
            "Ribbon Emissive",
            "Controls how strongly the wraith silhouette ribbons glow against fog.",
            TweakValue::Scalar(0x3f0c_cccdu32),
        ),
        TweakDefinition::new(
            "vfx.trail_opacity",
            TweakNamespace::Vfx,
            "Trail Opacity",
            "Controls the visible weight of telekinetic weapon trails and wisps.",
            TweakValue::Scalar(0x3f40_0000u32),
        ),
    ];
    assert(r@ =~= default_definitions());
    r
}

/// The key of the `i`-th built-in tweak.
pub open spec fn definition_key(i: int) -> Seq<char> {
    default_definitions()[i].key@
}

/// The built-in tweaks have distinct keys.
pub proof fn lemma_definition_keys_distinct()
    ensures
        forall|i: int, j: int|
            0 <= i < 8 && 0 <= j < 8 && i != j ==> #[trigger] definition_key(i)
                != #[trigger] definition_key(j),
{
    reveal_strlit("world.wind_strength");
    reveal_strlit("atmosphere.mie_strength");
    reveal_strlit("lighting.sun_warmth");
    reveal_strlit("foliage.sway_strength");
    reveal_strlit("player.camera_bob_enabled");
    reveal_strlit("combat.hitstop_scale");
    reveal_strlit("wraith.ribbon_emissive");
    reveal_strlit("vfx.trail_opacity");
    assert(definition_key(0).len() == 19);
    assert(definition_key(1).len() == 23);
    assert(definition_key(2).len() == 19);
    assert(definition_key(3).len() == 21);
    assert(definition_key(4).len() == 25);
    assert(definition_key(5).len() == 20);
    assert(definition_key(6).len() == 22);
    assert(definition_key(7).len() == 17);
    assert(definition_key(0)[0] != definition_key(2)[0]);
    assert forall|i: int, j: int|
        0 <= i < 8 && 0 <= j < 8 && i != j implies #[trigger] definition_key(i)
            != #[trigger] definition_key(j) by {
        if i == 0 && j == 2 || i == 2 && j == 0 {
            assert(definition_key(0)[0] != definition_key(2)[0]);
        } else {
            assert(definition_key(i).len() != definition_key(j).len());
        }
    }
}

/// The position of the built-in tweak with this key, if there is one.
pub open spec fn definition_slot(key: Seq<char>) -> Option<int> {
    if exists|i: int| 0 <= i < 8 && #[trigger] definition_key(i) == key {
        Some(choose|i: int| 0 <= i < 8 && #[trigger] definition_key(i) == key)
    } else {
        None
    }
}

/// The position of the built-in tweak with this key, found by comparing keys in order.
fn definition_for_key(key: &str) -> (r: Option<usize>)
    ensures
        r == match definition_slot(key@) {
            Some(i) => Some(i as usize),
            None => None::<usize>,
        },
        match r {
            Some(i) => i < 8 && definition_key(i as int) == key@,
            None => forall|i: int| 0 <= i < 8 ==> definition_key(i) != key@,
        },
{
    let defs = default_tweak_definitions();
    let mut i: usize = 0;
    while i < 8
        invariant
            i <= 8,
            defs@ == default_definitions(),
            forall|j: int| 0 <= j < i ==> definition_key(j) != key@,
        decreases 8 - i,
    {
        if str_eq(defs[i].key, key) {
            proof {
                lemma_definition_keys_distinct();
                assert(definition_key(i as int) == key@);
                let c = choose|j: int| 0 <= j < 8 && #[trigger] definition_key(j) == key@;
                assert(c == i);
            }
            return Some(i);
        }
        i = i + 1;
    }
    None
}

/// The entries of a tweak pack: a value per key, kept in key order as in a
/// `BTreeMap<String, TweakValue>`.
#[derive(Debug, PartialEq)]
pub struct TweakEntries {
    entries: Vec<(String, TweakValue)>,
}

impl View for TweakEntries {
    type V = Seq<(Seq<char>, TweakValue)>;

    closed spec fn view(&self) -> Seq<(Seq<char>, TweakValue)> {
        self.entries@.map_values(|e: (String, TweakValue)| (e.0@, e.1))
    }
}

impl Clone for TweakEntries {
    fn clone(&self) -> (r: Self)
        ensures
            r@ == self@,
    {
        proof {
            use_type_invariant(self);
        }
        let mut entries: Vec<(String, TweakValue)> = Vec::new();
        let mut i: usize = 0;
        while i < self.entries.len()
            invariant
                i <= self@.len(),
                keys_sorted(self@),
                entries@.len() == i,
                forall|j: int|
                    0 <= j < i ==> (#[trigger] entries@[j]).0@ == self@[j].0 && entries@[j].1
                        == self@[j].1,
            decreases self@.len() - i,
        {
            let k = self.entries[i].0.clone();
            let v = self.entries[i].1;
            assert(self@[i as int] == (k@, v));
            entries.push((k, v));
            i = i + 1;
        }
        let r = TweakEntries { entries };
        assert(r@ =~= self@);
        r
    }
}

impl TweakEntries {
    #[verifier::type_invariant]
    closed spec fn sorted(self) -> bool {
        keys_sorted(self@)
    }

    /// No entries.
    pub fn new() -> (r: Self)
        ensures
            r@ == Seq::<(Seq<char>, TweakValue)>::empty(),
    {
        let r = TweakEntries { entries: Vec::new() };
        assert(r@ =~= Seq::<(Seq<char>, TweakValue)>::empty());
        r
    }

    /// The number of entries; their keys increase.
    pub fn len(&self) -> (r: usize)
        ensures
            r == self@.len(),
            keys_sorted(self@),
    {
        proof {
            use_type_invariant(self);
        }
        self.entries.len()
    }

    /// Whether there is no entry.
    pub fn is_empty(&self) -> (r: bool)
        ensures
            r == (self@.len() == 0),
    {
        self.entries.len() == 0
    }

    /// The key of the `i`-th entry in key order.
    pub fn key_at(&self, i: usize) -> (r: &String)
        requires
            i < self@.len(),
        ensures
            r@ == self@[i as int].0,
    {
        &self.entries[i].0
    }

    /// The value of the `i`-th entry in key order.
    pub fn value_at(&self, i: usize) -> (r: TweakValue)
        requires
            i < self@.len(),
        ensures
            r == self@[i as int].1,
    {
        self.entries[i].1
    }

    /// The value stored under `key`.
    pub fn get(&self, key: &str) -> (r: Option<TweakValue>)
        ensures
            r == lookup(self@, key@),
    {
        proof {
            use_type_invariant(self);
        }
        let mut i: usize = 0;
        while i < self.entries.len()
            invariant
                i <= self@.len(),
                keys_sorted(self@),
                forall|j: int| 0 <= j < i ==> self@[j].0 != key@,
            decreases self@.len() - i,
        {
            if str_eq(self.entries[i].0.as_str(), key) {
                proof {
                    lemma_lookup_at(self@, i as int);
                }
                return Some(self.entries[i].1);
            }
            i = i + 1;
        }
        proof {
            lemma_lookup_absent(self@, key@);
        }
        None
    }

    /// Stores `value` under `key` and hands back the value it replaces, as `BTreeMap::insert`.
    pub fn insert(&mut self, key: String, value: TweakValue) -> (r: Option<TweakValue>)
        ensures
            keys_sorted(final(self)@),
            forall|k: Seq<char>|
                #![trigger lookup(final(self)@, k)]
                lookup(final(self)@, k) == if k == key@ {
                    Some(value)
                } else {
                    lookup(old(self)@, k)
                },
            r == lookup(old(self)@, key@),
    {
        proof {
            use_type_invariant(&*self);
        }
        let ghost s0 = self@;
        let kc = chars_of(key.as_str());
        let i = find_slot(&self.entries, &kc);
        let n = self.entries.len();
        let mut entries: Vec<(String, TweakValue)> = Vec::new();
        std::mem::swap(&mut entries, &mut self.entries);
        assert(entries@.map_values(|e: (String, TweakValue)| (e.0@, e.1)) == s0);
        proof {
            assert forall|j: int| 0 <= j < i implies seq_lt(#[trigger] s0[j].0, key@) by {
                assert(s0[j].0 == entries@[j].0@);
            }
            if i < n {
                assert(s0[i as int].0 == entries@[i as int].0@);
            }
        }
        if i < n && str_eq(entries[i].0.as_str(), key.as_str()) {
            let old_value = entries[i].1;
            proof {
                lemma_sorted_replace(s0, i as int, value);
                lemma_lookup_at(s0, i as int);
            }
            entries.set(i, (key, value));
            assert(entries@.map_values(|e: (String, TweakValue)| (e.0@, e.1)) =~= s0.update(
                i as int,
                (s0[i as int].0, value),
            ));
            self.entries = entries;
            Some(old_value)
        } else {
            let ghost kv = key@;
            proof {
                lemma_sorted_insert(s0, i as int, kv, value);
            }
            entries.insert(i, (key, value));
            assert(entries@.map_values(|e: (String, TweakValue)| (e.0@, e.1)) =~= s0.insert(
                i as int,
                (kv, value),
            ));
            self.entries = entries;
            None
        }
    }

    /// Entries built from pairs; a later pair wins over an earlier one with the same key, as
    /// `BTreeMap::from` does.
    pub fn from_pairs(pairs: Vec<(String, TweakValue)>) -> (r: Self)
        ensures
            keys_sorted(r@),
            forall|k: Seq<char>|
                #![trigger lookup(r@, k)]
                lookup(r@, k) == lookup(
                    pairs@.map_values(|e: (String, TweakValue)| (e.0@, e.1)),
                    k,
                ),
    {
        let ghost pv = pairs@.map_values(|e: (String, TweakValue)| (e.0@, e.1));
        let mut m = TweakEntries::new();
        let mut i: usize = 0;
        let n = pairs.len();
        while i < n
            invariant
                n == pairs@.len(),
                i <= n,
                pv == pairs@.map_values(|e: (String, TweakValue)| (e.0@, e.1)),
                keys_sorted(m@),
                forall|k: Seq<char>|
                    #![trigger lookup(m@, k)]
                    lookup(m@, k) == lookup(pv.subrange(0, i as int), k),
            decreases n - i,
        {
            let k = pairs[i].0.clone();
            let v = pairs[i].1;
            proof {
                assert(k@ == pv[i as int].0);
                assert(v == pv[i as int].1);
            }
            let _ = m.insert(k, v);
            i = i + 1;
            proof {
                let sub = pv.subrange(0, i as int);
                assert(sub.drop_last() =~= pv.subrange(0, i - 1));
                assert forall|key: Seq<char>| #![trigger lookup(m@, key)]
                    lookup(m@, key) == lookup(sub, key) by {
                    assert(sub.last() == pv[i - 1]);
                }
            }
        }
        assert(pv.subrange(0, n as int) =~= pv);
        m
    }
}

/// A saved set of tweak values, as a tweak pack file holds it.
#[derive(Debug, Clone, PartialEq)]
pub struct TweakPack {
    pub schema_version: String,
    pub entries: TweakEntries,
}

impl TweakPack {
    /// A pack of the current schema version with these entries.
    pub fn new(entries: TweakEntries) -> (r: Self)
        ensures
            r.schema_version@ == TWEAK_PACK_SCHEMA_VERSION@,
            r.entries@ == entries@,
    {
        TweakPack { schema_version: string_of(TWEAK_PACK_SCHEMA_VERSION), entries }
    }

    /// Accepts a pack of the current schema version and refuses any other.
    pub fn validate(&self) -> (r: Result<(), TweakError>)
        ensures
            r.is_ok() == (self.schema_version@ == TWEAK_PACK_SCHEMA_VERSION@),
            match r {
                Ok(()) => true,
                Err(e) => e matches TweakError::InvalidSchemaVersion { found }
                    && found@ == self.schema_version@,
            },
    {
        if str_eq(self.schema_version.as_str(), TWEAK_PACK_SCHEMA_VERSION) {
            Ok(())
        } else {
            Err(TweakError::InvalidSchemaVersion { found: self.schema_version.clone() })
        }
    }
}

/// The position of a namespace in `TweakNamespace::all()`.
pub open spec fn namespace_index(n: TweakNamespace) -> int {
    match n {
        TweakNamespace::World => 0,
        TweakNamespace::Atmosphere => 1,
        TweakNamespace::Lighting => 2,
        TweakNamespace::Foliage => 3,
        TweakNamespace::Player => 4,
        TweakNamespace::Combat => 5,
        TweakNamespace::Wraith => 6,
        TweakNamespace::Vfx => 7,
    }
}

fn namespace_position(n: TweakNamespace) -> (r: usize)
    ensures
        r == namespace_index(n),
{
    match n {
        TweakNamespace::World => 0,
        TweakNamespace::Atmosphere => 1,
        TweakNamespace::Lighting => 2,
        TweakNamespace::Foliage => 3,
        TweakNamespace::Player => 4,
        TweakNamespace::Combat => 5,
        TweakNamespace::Wraith => 6,
        TweakNamespace::Vfx => 7,
    }
}

/// The state of a registry: the live value of each built-in tweak, in definition order, and
/// whether each namespace changed, in the order of `TweakNamespace::all()`.
pub type RegistryState = (Seq<TweakValue>, Seq<bool>);

/// A value of the built-in tweak's kind for each tweak, and a flag for each namespace.
pub open spec fn registry_state_valid(m: RegistryState) -> bool {
    &&& m.0.len() == 8
    &&& m.1.len() == 8
    &&& forall|i: int|
        0 <= i < 8 ==> value_kind(#[trigger] m.0[i]) == value_kind(
            default_definitions()[i].default_value,
        )
}

/// A fresh registry: every tweak at its default and no namespace changed.
pub open spec fn default_registry_state() -> RegistryState {
    (Seq::new(8, |i: int| default_definitions()[i].default_value), Seq::new(8, |i: int| false))
}

/// What setting `key` to `v` does to a registry in state `m`; `None` when it is refused, for an
/// unknown key or a value of the wrong kind. A value equal to the live one changes nothing;
/// another one replaces it and marks the tweak's namespace changed.
pub open spec fn set_step(m: RegistryState, key: Seq<char>, v: TweakValue) -> Option<RegistryState> {
    match definition_slot(key) {
        None => None,
        Some(i) => if value_kind(default_definitions()[i].default_value) != value_kind(v) {
            None
        } else if tweak_values_eq(m.0[i], v) {
            Some(m)
        } else {
            Some(
                (
                    m.0.update(i, v),
                    m.1.update(namespace_index(default_definitions()[i].namespace), true),
                ),
            )
        },
    }
}

/// Setting `key` to `v` in state `m` is accepted and replaces the live value.
pub open spec fn set_changes(m: RegistryState, key: Seq<char>, v: TweakValue) -> bool {
    &&& set_step(m, key, v).is_some()
    &&& !tweak_values_eq(m.0[definition_slot(key).unwrap()], v)
}

/// `e` is the error that refusing to set `key` to `v` gives: an unknown key, or the kind that the
/// tweak expects and the kind that was given.
pub open spec fn refusal_is(e: TweakError, key: Seq<char>, v: TweakValue) -> bool {
    match definition_slot(key) {
        None => e matches TweakError::UnknownKey { key: k } && k@ == key,
        Some(i) => e matches TweakError::TypeMismatch { key: k, expected, found } && k@ == key
            && expected == value_kind(default_definitions()[i].default_value) && found
            == value_kind(v),
    }
}

/// Setting pack entries one after another, from state `m`: the state reached and, when an entry
/// is refused, its position. The entries after a refused one are not set.
pub open spec fn apply_entries(m: RegistryState, s: Seq<(Seq<char>, TweakValue)>) -> (
    RegistryState,
    Option<int>,
)
    decreases s.len(),
{
    if s.len() == 0 {
        (m, None)
    } else {
        match set_step(m, s[0].0, s[0].1) {
            None => (m, Some(0)),
            Some(m2) => {
                let r = apply_entries(m2, s.drop_first());
                (
                    r.0,
                    match r.1 {
                        Some(j) => Some(j + 1),
                        None => None,
                    },
                )
            },
        }
    }
}

/// `r` shifted by `n` positions.
pub open spec fn shift_position(r: Option<int>, n: int) -> Option<int> {
    match r {
        Some(j) => Some(j + n),
        None => None,
    }
}

/// What applying `pack` to a registry in state `m` gives: the state after and what was returned.
/// A pack of another schema version is refused and changes nothing; otherwise its entries are set
/// in key order up to the first refused one, whose error is returned.
pub open spec fn apply_pack_outcome(
    m: RegistryState,
    pack_schema: Seq<char>,
    entries: Seq<(Seq<char>, TweakValue)>,
    after: RegistryState,
    r: Result<(), TweakError>,
) -> bool {
    if pack_schema != TWEAK_PACK_SCHEMA_VERSION@ {
        &&& after == m
        &&& r matches Err(TweakError::InvalidSchemaVersion { found }) && found@ == pack_schema
    } else {
        let (reached, refused) = apply_entries(m, entries);
        &&& after == reached
        &&& match r {
            Ok(()) => refused.is_none(),
            Err(e) => refused.is_some() && refusal_is(
                e,
                entries[refused.unwrap()].0,
                entries[refused.unwrap()].1,
            ),
        }
    }
}

/// What a snapshot of state `m` holds under key `k`: the live value of that built-in tweak when
/// it differs (`!=`) from its default, else nothing.
pub open spec fn snapshot_value(m: RegistryState, k: Seq<char>) -> Option<TweakValue> {
    match definition_slot(k) {
        Some(i) => if tweak_values_eq(m.0[i], default_definitions()[i].default_value) {
            None
        } else {
            Some(m.0[i])
        },
        None => None,
    }
}

/// A snapshot of state `m` built from the first `n` built-in tweaks.
pub open spec fn snapshot_upto(m: RegistryState, k: Seq<char>, n: int) -> Option<TweakValue>
    decreases n,
{
    if n <= 0 {
        None
    } else if definition_key(n - 1) == k && !tweak_values_eq(
        m.0[n - 1],
        default_definitions()[n - 1].default_value,
    ) {
        Some(m.0[n - 1])
    } else {
        snapshot_upto(m, k, n - 1)
    }
}

proof fn lemma_snapshot_upto(m: RegistryState, k: Seq<char>, n: int)
    requires
        0 <= n <= 8,
    ensures
        snapshot_upto(m, k, n) == match definition_slot(k) {
            Some(i) => if i < n {
                snapshot_value(m, k)
            } else {
                None
            },
            None => None,
        },
    decreases n,
{
    lemma_definition_keys_distinct();
    if n > 0 {
        lemma_snapshot_upto(m, k, n - 1);
        if definition_key(n - 1) == k {
            let i = choose|i: int| 0 <= i < 8 && #[trigger] definition_key(i) == k;
            assert(i == n - 1);
        }
    }
}

proof fn lemma_apply_entries_step(m: RegistryState, s: Seq<(Seq<char>, TweakValue)>, i: int)
    requires
        0 <= i < s.len(),
    ensures
        s.skip(i)[0] == s[i],
        s.skip(i).drop_first() == s.skip(i + 1),
        apply_entries(m, s.skip(i)) == match set_step(m, s[i].0, s[i].1) {
            None => (m, Some(0int)),
            Some(m2) => (
                apply_entries(m2, s.skip(i + 1)).0,
                shift_position(apply_entries(m2, s.skip(i + 1)).1, 1),
            ),
        },
{
    assert(s.skip(i).drop_first() =~= s.skip(i + 1));
}

fn values_with(v: &Vec<TweakValue>, i: usize, x: TweakValue) -> (r: Vec<TweakValue>)
    requires
        i < v@.len(),
    ensures
        r@ == v@.update(i as int, x),
{
    let mut r: Vec<TweakValue> = Vec::new();
    let mut j: usize = 0;
    while j < v.len()
        invariant
            i < v@.len(),
            j <= v@.len(),
            r@ =~= v@.update(i as int, x).take(j as int),
        decreases v@.len() - j,
    {
        if j == i {
            r.push(x);
        } else {
            r.push(v[j]);
        }
        j = j + 1;
    }
    assert(v@.update(i as int, x).take(v@.len() as int) =~= v@.update(i as int, x));
    r
}

fn flags_with(v: &Vec<bool>, i: usize, x: bool) -> (r: Vec<bool>)
    requires
        i < v@.len(),
    ensures
        r@ == v@.update(i as int, x),
{
    let mut r: Vec<bool> = Vec::new();
    let mut j: usize = 0;
    while j < v.len()
        invariant
            i < v@.len(),
            j <= v@.len(),
            r@ =~= v@.update(i as int, x).take(j as int),
        decreases v@.len() - j,
    {
        if j == i {
            r.push(x);
        } else {
            r.push(v[j]);
        }
        j = j + 1;
    }
    assert(v@.update(i as int, x).take(v@.len() as int) =~= v@.update(i as int, x));
    r
}

/// Entries that name built-in tweaks only, with values of the tweaks' kinds.
pub open spec fn entries_fit_definitions(s: Seq<(Seq<char>, TweakValue)>) -> bool {
    forall|j: int|
        0 <= j < s.len() ==> match definition_slot(#[trigger] s[j].0) {
            Some(i) => value_kind(s[j].1) == value_kind(default_definitions()[i].default_value),
            None => false,
        }
}

/// The live value of tweak `i` after entries `s` were applied to state `m`.
pub open spec fn value_after_entries(
    m: RegistryState,
    s: Seq<(Seq<char>, TweakValue)>,
    i: int,
) -> TweakValue {
    match lookup(s, definition_key(i)) {
        Some(v) => if tweak_values_eq(m.0[i], v) {
            m.0[i]
        } else {
            v
        },
        None => m.0[i],
    }
}

/// Whether namespace `n` is marked changed after entries `s` were applied to state `m`: it
/// already was, or its tweak got a value that differs from its live one.
pub open spec fn dirty_after_entries(
    m: RegistryState,
    s: Seq<(Seq<char>, TweakValue)>,
    n: int,
) -> bool {
    m.1[n] || match lookup(s, definition_key(n)) {
        Some(v) => !tweak_values_eq(m.0[n], v),
        None => false,
    }
}

proof fn lemma_definition_namespaces()
    ensures
        forall|i: int|
            0 <= i < 8 ==> namespace_index(#[trigger] default_definitions()[i].namespace) == i,
{
}

proof fn lemma_lookup_first(s: Seq<(Seq<char>, TweakValue)>, k: Seq<char>)
    requires
        keys_sorted(s),
        s.len() > 0,
    ensures
        keys_sorted(s.drop_first()),
        lookup(s, k) == if s[0].0 == k {
            Some(s[0].1)
        } else {
            lookup(s.drop_first(), k)
        },
{
    let t = s.drop_first();
    assert(keys_sorted(t)) by {
        assert forall|a: int, b: int| 0 <= a < b < t.len() implies seq_lt(
            #[trigger] t[a].0,
            #[trigger] t[b].0,
        ) by {
            assert(t[a] == s[a + 1]);
            assert(t[b] == s[b + 1]);
        }
    }
    if s[0].0 == k {
        lemma_lookup_at(s, 0);
    } else if exists|j: int| 0 <= j < t.len() && #[trigger] t[j].0 == k {
        let j = choose|j: int| 0 <= j < t.len() && #[trigger] t[j].0 == k;
        assert(t[j] == s[j + 1]);
        lemma_lookup_at(s, j + 1);
        lemma_lookup_at(t, j);
    } else {
        assert forall|j: int| 0 <= j < s.len() implies #[trigger] s[j].0 != k by {
            if j > 0 {
                assert(s[j] == t[j - 1]);
            }
        }
        lemma_lookup_absent(s, k);
        lemma_lookup_absent(t, k);
    }
}

/// Applying entries in key order that name built-in tweaks, with values of their kinds, is never
/// refused; afterwards each named tweak holds its entry's value (or its live one when the two are
/// equal), the others are untouched, and exactly the namespaces whose tweak got a different value
/// are newly marked changed.
pub proof fn lemma_apply_fitting_entries(m: RegistryState, s: Seq<(Seq<char>, TweakValue)>)
    requires
        registry_state_valid(m),
        keys_sorted(s),
        entries_fit_definitions(s),
    ensures
        apply_entries(m, s).1.is_none(),
        apply_entries(m, s).0 == (
            Seq::new(8, |i: int| value_after_entries(m, s, i)),
            Seq::new(8, |n: int| dirty_after_entries(m, s, n)),
        ),
    decreases s.len(),
{
    lemma_definition_keys_distinct();
    lemma_definition_namespaces();
    if s.len() == 0 {
        assert forall|i: int| 0 <= i < 8 implies lookup(s, #[trigger] definition_key(i))
            is None by {}
        assert(m.0 =~= Seq::new(8, |i: int| value_after_entries(m, s, i)));
        assert(m.1 =~= Seq::new(8, |n: int| dirty_after_entries(m, s, n)));
    } else {
        let k = s[0].0;
        let v = s[0].1;
        let i0 = definition_slot(k).unwrap();
        let t = s.drop_first();
        assert(definition_slot(s[0].0).is_some());
        assert(definition_key(i0) == k);
        let m1 = set_step(m, k, v).unwrap();
        lemma_lookup_first(s, k);
        assert(entries_fit_definitions(t)) by {
            assert forall|j: int| 0 <= j < t.len() implies match definition_slot(
                #[trigger] t[j].0,
            ) {
                Some(i) => value_kind(t[j].1) == value_kind(default_definitions()[i].default_value),
                None => false,
            } by {
                assert(t[j] == s[j + 1]);
            }
        }
        assert(registry_state_valid(m1));
        lemma_apply_fitting_entries(m1, t);
        assert forall|j: int| 0 <= j < t.len() implies #[trigger] t[j].0 != k by {
            assert(t[j] == s[j + 1]);
            assert(seq_lt(s[0].0, s[j + 1].0));
            lemma_seq_lt_irreflexive(k);
        }
        lemma_lookup_absent(t, k);
        assert forall|i: int| 0 <= i < 8 implies lookup(s, #[trigger] definition_key(i)) == if i
            == i0 {
            Some(v)
        } else {
            lookup(t, definition_key(i))
        } by {
            lemma_lookup_first(s, definition_key(i));
        }
        assert(Seq::new(8, |i: int| value_after_entries(m1, t, i)) =~= Seq::new(
            8,
            |i: int| value_after_entries(m, s, i),
        ));
        assert(Seq::new(8, |n: int| dirty_after_entries(m1, t, n)) =~= Seq::new(
            8,
            |n: int| dirty_after_entries(m, s, n),
        ));
    }
}

/// Setting a tweak again to the value it was just set to is accepted and changes nothing, unless
/// that value is a NaN, which is never equal to itself.
pub proof fn lemma_repeated_set_is_silent(m: RegistryState, key: Seq<char>, v: TweakValue)
    requires
        registry_state_valid(m),
        set_step(m, key, v).is_some(),
        !(v matches TweakValue::Scalar(b) && f32_bits_is_nan(b)),
    ensures
        set_step(set_step(m, key, v).unwrap(), key, v) == set_step(m, key, v),
        !set_changes(set_step(m, key, v).unwrap(), key, v),
{
}

/// The defaults are neither NaNs nor zeros, so a value `==` to a default is that default.
proof fn lemma_default_values_exact()
    ensures
        forall|i: int, v: TweakValue|
            0 <= i < 8 && #[trigger] tweak_values_eq(v, default_definitions()[i].default_value)
                ==> v == default_definitions()[i].default_value,
{
    assert(!f32_bits_is_nan(0x3eb3_3333u32) && !f32_bits_is_zero(0x3eb3_3333u32)
        && !f32_bits_is_nan(0x3f80_0000u32) && !f32_bits_is_zero(0x3f80_0000u32)
        && !f32_bits_is_nan(0x3f26_6666u32) && !f32_bits_is_zero(0x3f26_6666u32)
        && !f32_bits_is_nan(0x3ee6_6666u32) && !f32_bits_is_zero(0x3ee6_6666u32)
        && !f32_bits_is_nan(0x3f0c_cccdu32) && !f32_bits_is_zero(0x3f0c_cccdu32)
        && !f32_bits_is_nan(0x3f40_0000u32) && !f32_bits_is_zero(0x3f40_0000u32)) by (bit_vector);
}

/// Saving a registry and loading the pack into a fresh registry gives back every live value
/// exactly, and marks changed exactly the namespaces whose tweak differs from its default.
pub proof fn lemma_snapshot_restores(m: RegistryState, s: Seq<(Seq<char>, TweakValue)>)
    requires
        registry_state_valid(m),
        keys_sorted(s),
        forall|k: Seq<char>| #![trigger lookup(s, k)] lookup(s, k) == snapshot_value(m, k),
    ensures
        apply_entries(default_registry_state(), s) == (
            (
                m.0,
                Seq::new(
                    8,
                    |n: int| !tweak_values_eq(m.0[n], default_definitions()[n].default_value),
                ),
            ),
            None::<int>,
        ),
{
    lemma_definition_keys_distinct();
    lemma_default_values_exact();
    let d = default_registry_state();
    assert(entries_fit_definitions(s)) by {
        assert forall|j: int| 0 <= j < s.len() implies match definition_slot(#[trigger] s[j].0) {
            Some(i) => value_kind(s[j].1) == value_kind(default_definitions()[i].default_value),
            None => false,
        } by {
            lemma_lookup_at(s, j);
            assert(lookup(s, s[j].0) == snapshot_value(m, s[j].0));
        }
    }
    assert(registry_state_valid(d));
    lemma_apply_fitting_entries(d, s);
    assert forall|i: int| 0 <= i < 8 implies #[trigger] definition_slot(definition_key(i))
        == Some(i) by {
        let c = choose|c: int| 0 <= c < 8 && #[trigger] definition_key(c) == definition_key(i);
        assert(c == i);
    }
    assert forall|i: int| 0 <= i < 8 implies value_after_entries(d, s, i) == #[trigger] m.0[i] by {
        assert(lookup(s, definition_key(i)) == snapshot_value(m, definition_key(i)));
    }
    assert(Seq::new(8, |i: int| value_after_entries(d, s, i)) =~= m.0);
    assert forall|n: int| 0 <= n < 8 implies dirty_after_entries(d, s, n) == !tweak_values_eq(
        #[trigger] m.0[n],
        default_definitions()[n].default_value,
    ) by {
        assert(lookup(s, definition_key(n)) == snapshot_value(m, definition_key(n)));
    }
    assert(Seq::new(8, |n: int| dirty_after_entries(d, s, n)) =~= Seq::new(
        8,
        |n: int| !tweak_values_eq(m.0[n], default_definitions()[n].default_value),
    ));
}

/// The live values of the built-in tweaks and the namespaces they changed.
#[derive(Debug, PartialEq)]
pub struct TweakRegistry {
    values: Vec<TweakValue>,
    dirty: Vec<bool>,
}

impl View for TweakRegistry {
    type V = RegistryState;

    closed spec fn view(&self) -> RegistryState {
        (self.values@, self.dirty@)
    }
}

impl Clone for TweakRegistry {
    fn clone(&self) -> (r: Self)
        ensures
            r@ == self@,
    {
        proof {
            use_type_invariant(self);
        }
        let mut values: Vec<TweakValue> = Vec::new();
        let mut dirty: Vec<bool> = Vec::new();
        let mut i: usize = 0;
        while i < 8
            invariant
                i <= 8,
                registry_state_valid(self@),
                values@ =~= self@.0.subrange(0, i as int),
                dirty@ =~= self@.1.subrange(0, i as int),
            decreases 8 - i,
        {
            values.push(self.values[i]);
            dirty.push(self.dirty[i]);
            i = i + 1;
        }
        TweakRegistry { values, dirty }
    }
}

/// One built-in tweak as the tweak UI shows it: its definition, live value and whether its
/// namespace changed.
#[derive(Debug, Clone, PartialEq)]
pub struct TweakRegistryEntry {
    pub key: &'static str,
    pub namespace: TweakNamespace,
    pub label: &'static str,
    pub description: &'static str,
    pub default_value: TweakValue,
    pub value: TweakValue,
    pub namespace_dirty: bool,
}

/// The entry of the `i`-th built-in tweak in registry state `m`.
pub open spec fn registry_entry(m: RegistryState, i: int) -> TweakRegistryEntry {
    let d = default_definitions()[i];
    TweakRegistryEntry {
        key: d.key,
        namespace: d.namespace,
        label: d.label,
        description: d.description,
        default_value: d.default_value,
        value: m.0[i],
        namespace_dirty: m.1[namespace_index(d.namespace)],
    }
}

/// The entries of every built-in tweak, in definition order.
pub open spec fn registry_entries(m: RegistryState) -> Seq<TweakRegistryEntry> {
    Seq::new(8, |i: int| registry_entry(m, i))
}

impl Default for TweakRegistry {
    /// A registry with every tweak at its default and no namespace changed.
    fn default() -> (r: Self)
        ensures
            r@ == default_registry_state(),
    {
        let defs = default_tweak_definitions();
        let mut values: Vec<TweakValue> = Vec::new();
        let mut dirty: Vec<bool> = Vec::new();
        let mut i: usize = 0;
        while i < 8
            invariant
                i <= 8,
                defs@ == default_definitions(),
                values@ =~= default_registry_state().0.subrange(0, i as int),
                dirty@ =~= default_registry_state().1.subrange(0, i as int),
            decreases 8 - i,
        {
            values.push(defs[i].default_value);
            dirty.push(false);
            i = i + 1;
        }
        TweakRegistry { values, dirty }
    }
}

impl TweakRegistry {
    #[verifier::type_invariant]
    closed spec fn valid(self) -> bool {
        registry_state_valid(self@)
    }

    /// The built-in tweaks.
    pub fn definitions(&self) -> (r: [TweakDefinition; 8])
        ensures
            r@ == default_definitions(),
    {
        default_tweak_definitions()
    }

    /// The built-in tweak with this key.
    pub fn definition(&self, key: &str) -> (r: Option<TweakDefinition>)
        ensures
            r == match definition_slot(key@) {
                Some(i) => Some(default_definitions()[i]),
                None => None::<TweakDefinition>,
            },
    {
        match definition_for_key(key) {
            Some(i) => {
                let defs = default_tweak_definitions();
                Some(defs[i])
            },
            None => None,
        }
    }

    /// The live value of the tweak with this key.
    pub fn value(&self, key: &str) -> (r: Option<TweakValue>)
        ensures
            r == match definition_slot(key@) {
                Some(i) => Some(self@.0[i]),
                None => None::<TweakValue>,
            },
    {
        proof {
            use_type_invariant(self);
        }
        match definition_for_key(key) {
            Some(i) => Some(self.values[i]),
            None => None,
        }
    }

    /// Whether a value of this namespace changed since the flags were last cleared.
    pub fn is_namespace_dirty(&self, namespace: TweakNamespace) -> (r: bool)
        ensures
            r == self@.1[namespace_index(namespace)],
    {
        proof {
            use_type_invariant(self);
        }
        self.dirty[namespace_position(namespace)]
    }

    /// The namespaces that changed, in namespace order.
    pub fn dirty_namespaces(&self) -> (r: Vec<TweakNamespace>)
        ensures
            r@ == TweakNamespace::all_spec().filter(
                |n: TweakNamespace| self@.1[namespace_index(n)],
            ),
    {
        proof {
            use_type_invariant(self);
        }
        let all = TweakNamespace::all();
        let mut r: Vec<TweakNamespace> = Vec::new();
        let mut i: usize = 0;
        while i < 8
            invariant
                i <= 8,
                all@ == TweakNamespace::all_spec(),
                registry_state_valid(self@),
                r@ == TweakNamespace::all_spec().take(i as int).filter(
                    |n: TweakNamespace| self@.1[namespace_index(n)],
                ),
            decreases 8 - i,
        {
            proof {
                assert(TweakNamespace::all_spec().take(i + 1).drop_last()
                    =~= TweakNamespace::all_spec().take(i as int));
                reveal(Seq::filter);
            }
            if self.dirty[namespace_position(all[i])] {
                r.push(all[i]);
            }
            i = i + 1;
        }
        assert(TweakNamespace::all_spec().take(8) =~= TweakNamespace::all_spec());
        r
    }

    /// Forgets which namespaces changed.
    pub fn clear_dirty_namespaces(&mut self)
        ensures
            final(self)@.0 == old(self)@.0,
            final(self)@.1 == Seq::new(8, |i: int| false),
    {
        proof {
            use_type_invariant(&*self);
        }
        let mut dirty: Vec<bool> = Vec::new();
        let mut i: usize = 0;
        while i < 8
            invariant
                i <= 8,
                dirty@ =~= Seq::new(8, |i: int| false).subrange(0, i as int),
            decreases 8 - i,
        {
            dirty.push(false);
            i = i + 1;
        }
        self.dirty = dirty;
    }

    /// Sets a live tweak. An unknown key or a value of the wrong kind is refused and changes
    /// nothing; a value equal (`==`) to the live one changes nothing and gives `Ok(false)`; any
    /// other replaces it, marks its namespace changed and gives `Ok(true)`.
    pub fn set_value(&mut self, key: &str, value: TweakValue) -> (r: Result<bool, TweakError>)
        ensures
            registry_state_valid(final(self)@),
            r.is_ok() == set_step(old(self)@, key@, value).is_some(),
            match r {
                Ok(changed) => set_step(old(self)@, key@, value) == Some(final(self)@) && changed
                    == set_changes(old(self)@, key@, value),
                Err(e) => final(self)@ == old(self)@ && refusal_is(e, key@, value),
            },
    {
        proof {
            use_type_invariant(&*self);
        }
        let defs = default_tweak_definitions();
        let i = match definition_for_key(key) {
            Some(i) => i,
            None => {
                return Err(TweakError::UnknownKey { key: string_of(key) });
            },
        };
        let expected = defs[i].default_value.kind();
        let found = value.kind();
        if expected != found {
            return Err(TweakError::TypeMismatch { key: string_of(key), expected, found });
        }
        if self.values[i] == value {
            return Ok(false);
        }
        let ns = namespace_position(defs[i].namespace);
        let values = values_with(&self.values, i, value);
        let dirty = flags_with(&self.dirty, ns, true);
        self.values = values;
        self.dirty = dirty;
        Ok(true)
    }

    /// Sets every entry of a pack, in key order. A pack of another schema version is refused
    /// before anything is set; the first refused entry stops the rest and its error is returned.
    pub fn apply_pack(&mut self, pack: &TweakPack) -> (r: Result<(), TweakError>)
        ensures
            registry_state_valid(final(self)@),
            apply_pack_outcome(old(self)@, pack.schema_version@, pack.entries@, final(self)@, r),
    {
        proof {
            use_type_invariant(&*self);
        }
        match pack.validate() {
            Ok(()) => {},
            Err(e) => {
                return Err(e);
            },
        }
        let ghost m0 = self@;
        let ghost s = pack.entries@;
        let n = pack.entries.len();
        let mut i: usize = 0;
        assert(s.skip(0) =~= s);
        while i < n
            invariant
                n == s.len(),
                s == pack.entries@,
                m0 == old(self)@,
                pack.schema_version@ == TWEAK_PACK_SCHEMA_VERSION@,
                i <= n,
                registry_state_valid(self@),
                apply_entries(m0, s).0 == apply_entries(self@, s.skip(i as int)).0,
                apply_entries(m0, s).1 == shift_position(
                    apply_entries(self@, s.skip(i as int)).1,
                    i as int,
                ),
            decreases n - i,
        {
            let key = pack.entries.key_at(i);
            let value = pack.entries.value_at(i);
            proof {
                lemma_apply_entries_step(self@, s, i as int);
            }
            match self.set_value(key.as_str(), value) {
                Ok(_) => {},
                Err(e) => {
                    return Err(e);
                },
            }
            i = i + 1;
        }
        proof {
            assert(s.skip(n as int) =~= Seq::<(Seq<char>, TweakValue)>::empty());
        }
        Ok(())
    }

    /// The pack that saves every tweak whose live value differs (`!=`) from its default.
    pub fn snapshot_pack(&self) -> (r: TweakPack)
        ensures
            r.schema_version@ == TWEAK_PACK_SCHEMA_VERSION@,
            keys_sorted(r.entries@),
            forall|k: Seq<char>|
                #![trigger lookup(r.entries@, k)]
                lookup(r.entries@, k) == snapshot_value(self@, k),
    {
        proof {
            use_type_invariant(self);
        }
        let defs = default_tweak_definitions();
        let mut entries = TweakEntries::new();
        let mut i: usize = 0;
        while i < 8
            invariant
                i <= 8,
                defs@ == default_definitions(),
                registry_state_valid(self@),
                keys_sorted(entries@),
                forall|k: Seq<char>|
                    #![trigger lookup(entries@, k)]
                    lookup(entries@, k) == snapshot_upto(self@, k, i as int),
            decreases 8 - i,
        {
            let value = self.values[i];
            if value != defs[i].default_value {
                let _ = entries.insert(string_of(defs[i].key), value);
            }
            i = i + 1;
        }
        proof {
            assert forall|k: Seq<char>| #![trigger lookup(entries@, k)]
                lookup(entries@, k) == snapshot_value(self@, k) by {
                lemma_snapshot_upto(self@, k, 8);
            }
        }
        TweakPack::new(entries)
    }

    fn entry_at(&self, i: usize) -> (r: TweakRegistryEntry)
        requires
            i < 8,
        ensures
            r == registry_entry(self@, i as int),
    {
        proof {
            use_type_invariant(self);
        }
        let defs = default_tweak_definitions();
        let d = defs[i];
        TweakRegistryEntry {
            key: d.key,
            namespace: d.namespace,
            label: d.label,
            description: d.description,
            default_value: d.default_value,
            value: self.values[i],
            namespace_dirty: self.dirty[namespace_position(d.namespace)],
        }
    }

    /// Every built-in tweak with its live value, in definition order.
    pub fn entries(&self) -> (r: Vec<TweakRegistryEntry>)
        ensures
            r@ == registry_entries(self@),
    {
        let mut r: Vec<TweakRegistryEntry> = Vec::new();
        let mut i: usize = 0;
        while i < 8
            invariant
                i <= 8,
                r@ =~= registry_entries(self@).take(i as int),
            decreases 8 - i,
        {
            r.push(self.entry_at(i));
            i = i + 1;
        }
        r
    }

    /// The built-in tweaks of one namespace with their live values, in definition order.
    pub fn entries_in_namespace(&self, namespace: TweakNamespace) -> (r: Vec<TweakRegistryEntry>)
        ensures
            r@ == registry_entries(self@).filter(
                |e: TweakRegistryEntry| e.namespace == namespace,
            ),
    {
        let defs = default_tweak_definitions();
        let mut r: Vec<TweakRegistryEntry> = Vec::new();
        let mut i: usize = 0;
        while i < 8
            invariant
                i <= 8,
                defs@ == default_definitions(),
                r@ == registry_entries(self@).take(i as int).filter(
                    |e: TweakRegistryEntry| e.namespace == namespace,
                ),
            decreases 8 - i,
        {
            proof {
                assert(registry_entries(self@).take(i + 1).drop_last() =~= registry_entries(
                    self@,
                ).take(i as int));
                reveal(Seq::filter);
            }
            if defs[i].namespace == namespace {
                r.push(self.entry_at(i));
            }
            i = i + 1;
        }
        assert(registry_entries(self@).take(8) =~= registry_entries(self@));
        r
    }

    /// The built-in tweak with this key and its live value.
    pub fn entry(&self, key: &str) -> (r: Option<TweakRegistryEntry>)
        ensures
            r == match definition_slot(key@) {
                Some(i) => Some(registry_entry(self@, i)),
                None => None::<TweakRegistryEntry>,
            },
    {
        match definition_for_key(key) {
            Some(i) => Some(self.entry_at(i)),
            None => None,
        }
    }

    /// How many namespaces changed.
    pub fn dirty_namespace_count(&self) -> (r: usize)
        ensures
            r == TweakNamespace::all_spec().filter(
                |n: TweakNamespace| self@.1[namespace_index(n)],
            ).len(),
    {
        self.dirty_namespaces().len()
    }
}

/// Why a tweak or tweak pack was refused or could not be read or written.
#[derive(Debug, Clone, PartialEq, Eq)]
pub enum TweakError {
    Io(String),
    Serialize(String),
    Deserialize(String),
    InvalidSchemaVersion { found: String },
    UnknownKey { key: String },
    TypeMismatch { key: String, expected: TweakValueKind, found: TweakValueKind },
}

/// The text that `Display` gives for a tweak error.
pub open spec fn tweak_error_text(e: TweakError) -> Seq<char> {
    match e {
        TweakError::Io(error) => "i/o error: "@ + error@,
        TweakError::Serialize(error) => "tweak pack serialization failed: "@ + error@,
        TweakError::Deserialize(error) => "tweak pack deserialization failed: "@ + error@,
        TweakError::InvalidSchemaVersion { found } => "expected tweak pack schema version `"@
            + TWEAK_PACK_SCHEMA_VERSION@ + "`, found `"@ + found@ + "`"@,
        TweakError::UnknownKey { key } => "unknown tweak key `"@ + key@ + "`"@,
        TweakError::TypeMismatch { key, expected, found } => "tweak `"@ + key@ + "` expected "@
            + value_kind_label(expected) + " but found "@ + value_kind_label(found),
    }
}

impl TweakError {
    /// The error's message.
    pub fn to_string(&self) -> (r: String)
        ensures
            r@ == tweak_error_text(*self),
    {
        match self {
            TweakError::Io(error) => {
                let mut r = string_of("i/o error: ");
                push_str(&mut r, error.as_str());
                r
            },
            TweakError::Serialize(error) => {
                let mut r = string_of("tweak pack serialization failed: ");
                push_str(&mut r, error.as_str());
                r
            },
            TweakError::Deserialize(error) => {
                let mut r = string_of("tweak pack deserialization failed: ");
                push_str(&mut r, error.as_str());
                r
            },
            TweakError::InvalidSchemaVersion { found } => {
                let mut r = string_of("expected tweak pack schema version `");
                push_str(&mut r, TWEAK_PACK_SCHEMA_VERSION);
                push_str(&mut r, "`, found `");
                push_str(&mut r, found.as_str());
                push_str(&mut r, "`");
                r
            },
            TweakError::UnknownKey { key } => {
                let mut r = string_of("unknown tweak key `");
                push_str(&mut r, key.as_str());
                push_str(&mut r, "`");
                r
            },
            TweakError::TypeMismatch { key, expected, found } => {
                let mut r = string_of("tweak `");
                push_str(&mut r, key.as_str());
                push_str(&mut r, "` expected ");
                push_str(&mut r, expected.label());
                push_str(&mut r, " but found ");
                push_str(&mut r, found.label());
                r
            },
        }
    }
}

} // verus!
