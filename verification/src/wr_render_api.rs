use vstd::prelude::*;

use crate::text::{chars_of, is_white_space, string_of, trim, trim_bounds};
use crate::wr_core::{CrateBoundary, CrateEntryPoint, entry_card};

verus! {

/// The entry point of the render API crate: a subsystem, not integration-only.
pub fn init_entrypoint() -> (r: CrateEntryPoint)
    ensures
        entry_card(r, "wr_render_api"@, CrateBoundary::Subsystem, false),
{
    CrateEntryPoint::new("wr_render_api", CrateBoundary::Subsystem, false)
}

/// The size of a render target in pixels.
#[derive(Debug, Clone, Copy, PartialEq, Eq, Structural)]
pub struct RenderSize {
    pub width: u32,
    pub height: u32,
}

/// The message for a render target with a zero side.
pub open spec fn zero_render_size_message() -> Seq<char> {
    "render target dimensions must be greater than zero"@
}

impl RenderSize {
    pub fn new(width: u32, height: u32) -> (r: Self)
        ensures
            r.width == width,
            r.height == height,
    {
        RenderSize { width, height }
    }

    /// The number of pixels.
    pub fn pixel_count(self) -> (r: u64)
        ensures
            r == self.width * self.height,
    {
        proof {
            vstd::arithmetic::mul::lemma_mul_upper_bound(
                self.width as int,
                u32::MAX as int,
                self.height as int,
                u32::MAX as int,
            );
        }
        self.width as u64 * self.height as u64
    }

    /// The size itself when both sides are positive.
    pub fn validate(self) -> (r: Result<Self, String>)
        ensures
            self.width == 0 || self.height == 0 ==> (r matches Err(m) && m@
                == zero_render_size_message()),
            self.width != 0 && self.height != 0 ==> r == Ok::<Self, String>(self),
    {
        if self.width == 0 || self.height == 0 {
            return Err(string_of("render target dimensions must be greater than zero"));
        }
        Ok(self)
    }
}

/// A colour with 8-bit channels.
#[derive(Debug, Clone, Copy, PartialEq, Eq, Structural)]
pub struct ColorRgba8 {
    pub red: u8,
    pub green: u8,
    pub blue: u8,
    pub alpha: u8,
}

impl ColorRgba8 {
    pub fn new(red: u8, green: u8, blue: u8, alpha: u8) -> (r: Self)
        ensures
            r == (ColorRgba8 { red, green, blue, alpha }),
    {
        ColorRgba8 { red, green, blue, alpha }
    }
}

/// The colour space of captured frames.
#[derive(Debug, Clone, Copy, PartialEq, Eq, Structural)]
pub enum RenderColorSpace {
    Rgba8UnormSrgb,
}

impl RenderColorSpace {
    /// The stable name of the colour space.
    pub fn as_str(self) -> (r: &'static str)
        ensures
            r@ == "rgba8_unorm_srgb"@,
    {
        match self {
            RenderColorSpace::Rgba8UnormSrgb => "rgba8_unorm_srgb",
        }
    }
}

/// What a graphics adapter reports about itself.
#[derive(Debug, Clone, PartialEq, Eq)]
pub struct GraphicsAdapterInfo {
    pub backend: String,
    pub name: String,
    pub device_type: String,
    pub driver: Option<String>,
    pub driver_info: Option<String>,
    pub shading_language: String,
}

/// A request to render one frame off screen.
#[derive(Debug, Clone, PartialEq, Eq, Structural)]
pub struct OffscreenRenderRequest {
    pub size: RenderSize,
    pub clear_color: ColorRgba8,
}

impl OffscreenRenderRequest {
    /// Accepts a request whose target has two positive sides.
    pub fn validate(&self) -> (r: Result<(), String>)
        ensures
            self.size.width == 0 || self.size.height == 0 ==> (r matches Err(m) && m@
                == zero_render_size_message()),
            self.size.width != 0 && self.size.height != 0 ==> r is Ok,
    {
        match self.size.validate() {
            Ok(_) => Ok(()),
            Err(e) => Err(e),
        }
    }
}

/// What a captured frame held.
#[derive(Debug, Clone, PartialEq, Eq, Structural)]
pub struct CapturedFrameInfo {
    pub size: RenderSize,
    pub color_space: RenderColorSpace,
    pub non_empty_pixels: u64,
}

// ---------------------------------------------------------------------------------------------
// Seed-derived clear colours
// ---------------------------------------------------------------------------------------------

/// `s.trim_start_matches(prefix)` for a two-character prefix.
pub open spec fn strip_all_prefix(s: Seq<char>, a: char, b: char) -> Seq<char>
    decreases s.len(),
{
    if s.len() >= 2 && s[0] == a && s[1] == b {
        strip_all_prefix(s.subrange(2, s.len() as int), a, b)
    } else {
        s
    }
}

/// The hex digits of a seed text: trimmed, then every leading `0x`, then every leading `0X`.
pub open spec fn seed_hex_digits(s: Seq<char>) -> Seq<char> {
    strip_all_prefix(strip_all_prefix(trim(s), '0', 'x'), '0', 'X')
}

/// The value of an ASCII hexadecimal digit byte.
pub open spec fn hex_byte_value(b: u8) -> Option<nat> {
    if 48 <= b <= 57 {
        Some((b - 48) as nat)
    } else if 65 <= b <= 70 {
        Some((b - 55) as nat)
    } else if 97 <= b <= 102 {
        Some((b - 87) as nat)
    } else {
        None
    }
}

/// The byte that a chunk of at most two bytes reads as, as `u8::from_str_radix(chunk, 16)`
/// would on a chunk that is valid UTF-8, with 0 for a chunk that does not read: one or two
/// hex digits, or a `+` followed by one hex digit.
pub open spec fn chunk_value(c: Seq<u8>) -> nat {
    if c.len() == 1 {
        match hex_byte_value(c[0]) {
            Some(v) => v,
            None => 0,
        }
    } else if c.len() == 2 {
        if c[0] == 43u8 {
            match hex_byte_value(c[1]) {
                Some(v) => v,
                None => 0,
            }
        } else {
            match (hex_byte_value(c[0]), hex_byte_value(c[1])) {
                (Some(h), Some(l)) => h * 16 + l,
                _ => 0,
            }
        }
    } else {
        0
    }
}

/// The `k`-th two-byte chunk of `b` counted from the end (`rchunks(2)`), if there is one.
pub open spec fn rchunk(b: Seq<u8>, k: int) -> Seq<u8> {
    let hi = b.len() - 2 * k;
    let lo = if hi - 2 < 0 {
        0
    } else {
        hi - 2
    };
    if hi <= 0 {
        seq![]
    } else {
        b.subrange(lo, hi)
    }
}

/// The four bytes of a seed text: its last eight hex-digit bytes in pairs, right-aligned,
/// missing pairs and pairs that do not read as a byte giving 0.
pub open spec fn seed_color_bytes(s: Seq<char>) -> Seq<nat> {
    let b = vstd::utf8::encode_utf8(seed_hex_digits(s));
    Seq::new(4, |i: int| chunk_value(rchunk(b, 3 - i)))
}

/// `byte + add`, capped at 255.
pub open spec fn saturating_add_u8(byte: nat, add: nat) -> nat {
    if byte + add > 255 {
        255
    } else {
        byte + add
    }
}

fn hex_byte(b: u8) -> (r: Option<u8>)
    ensures
        match hex_byte_value(b) {
            Some(v) => r == Some(v as u8),
            None => r.is_none(),
        },
{
    if 48 <= b && b <= 57 {
        Some(b - 48)
    } else if 65 <= b && b <= 70 {
        Some(b - 55)
    } else if 97 <= b && b <= 102 {
        Some(b - 87)
    } else {
        None
    }
}

fn read_chunk(bytes: &[u8], lo: usize, hi: usize) -> (r: u8)
    requires
        lo <= hi <= bytes@.len(),
        hi - lo <= 2,
    ensures
        r == chunk_value(bytes@.subrange(lo as int, hi as int)),
{
    let ghost c = bytes@.subrange(lo as int, hi as int);
    if hi - lo == 1 {
        assert(c[0] == bytes@[lo as int]);
        match hex_byte(bytes[lo]) {
            Some(v) => v,
            None => 0,
        }
    } else if hi - lo == 2 {
        assert(c[0] == bytes@[lo as int]);
        assert(c[1] == bytes@[lo + 1]);
        if bytes[lo] == 43 {
            match hex_byte(bytes[lo + 1]) {
                Some(v) => v,
                None => 0,
            }
        } else {
            match (hex_byte(bytes[lo]), hex_byte(bytes[lo + 1])) {
                (Some(h), Some(l)) => h * 16 + l,
                _ => 0,
            }
        }
    } else {
        0
    }
}

/// Index of the first character after every leading `a b` pair in `v[lo..hi]`.
fn skip_all_prefix(v: &Vec<char>, lo: usize, hi: usize, a: char, b: char) -> (r: usize)
    requires
        lo <= hi <= v@.len(),
    ensures
        lo <= r <= hi,
        v@.subrange(r as int, hi as int) == strip_all_prefix(v@.subrange(lo as int, hi as int), a, b),
{
    let mut i = lo;
    while hi - i >= 2 && v[i] == a && v[i + 1] == b
        invariant
            lo <= i <= hi <= v@.len(),
            strip_all_prefix(v@.subrange(lo as int, hi as int), a, b) == strip_all_prefix(
                v@.subrange(i as int, hi as int),
                a,
                b,
            ),
        decreases hi - i,
    {
        proof {
            let t = v@.subrange(i as int, hi as int);
            assert(t.subrange(2, t.len() as int) =~= v@.subrange(i + 2, hi as int));
        }
        i = i + 2;
    }
    proof {
        let t = v@.subrange(i as int, hi as int);
        if t.len() >= 2 {
            assert(t[0] == v@[i as int]);
            assert(t[1] == v@[i + 1]);
        }
    }
    i
}

/// The clear colour derived from a seed text: its last four bytes read as hex pairs, plus 32,
/// 48 and 64 (saturating) for red, green and blue, fully opaque.
pub fn clear_color_from_seed_hex(seed_hex: &str) -> (r: ColorRgba8)
    ensures
        r.red == saturating_add_u8(seed_color_bytes(seed_hex@)[0], 32),
        r.green == saturating_add_u8(seed_color_bytes(seed_hex@)[1], 48),
        r.blue == saturating_add_u8(seed_color_bytes(seed_hex@)[2], 64),
        r.alpha == 255,
{
    let v = chars_of(seed_hex);
    let (lo, hi) = trim_bounds(&v);
    let after_lower = skip_all_prefix(&v, lo, hi, '0', 'x');
    let start = skip_all_prefix(&v, after_lower, hi, '0', 'X');
    let digits = seed_hex.substring_char(start, hi);
    let bytes = digits.as_bytes();
    let ghost d = seed_hex_digits(seed_hex@);
    assert(digits@ == d);
    let n = bytes.len();
    let mut out: [u8; 4] = [0u8; 4];
    let mut k: usize = 0;
    while k < 4
        invariant
            k <= 4,
            n == bytes@.len(),
            bytes@ == vstd::utf8::encode_utf8(d),
            out@.len() == 4,
            forall|i: int| 3 - k < i < 4 ==> out@[i] == chunk_value(rchunk(bytes@, 3 - i)),
        decreases 4 - k,
    {
        let v = if n >= 2 * k + 1 {
            let hi_b = n - 2 * k;
            let lo_b = if hi_b >= 2 {
                hi_b - 2
            } else {
                0
            };
            read_chunk(bytes, lo_b, hi_b)
        } else {
            0
        };
        proof {
            if n < 2 * k + 1 {
                assert(rchunk(bytes@, k as int).len() == 0);
            }
        }
        out[3 - k] = v;
        k = k + 1;
    }
    ColorRgba8 {
        red: out[0].saturating_add(32),
        green: out[1].saturating_add(48),
        blue: out[2].saturating_add(64),
        alpha: 255,
    }
}

} // verus!
