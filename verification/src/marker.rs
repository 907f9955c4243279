//! Marker identifiers, markers, and colors.
//!
//! A marker's animation phase is derived from its identifier with an
//! explicit, versioned hash so that every platform computes the same value:
//! 64-bit FNV-1a over a tag byte (`b's'` for text, `b'n'` for numeric)
//! followed by the identifier payload (UTF-8 bytes, or the 8 little-endian
//! bytes of the number). The phase is returned in ten-thousandths of a full
//! turn; the host multiplies by 2*pi/10000 for radians.
//!
//! Intensities are in micro-units (1_000_000 = full intensity) and radii in
//! micropixels; color channels are 8-bit values, so a channel of 255 is full
//! brightness.

use crate::error::CoreError;
use crate::projection::{coord_in_range, GeoCoord};
use vstd::prelude::*;
use vstd::string::{StringExecFns, StringSliceAdditionalSpecFns};

verus! {

/// Relied on only as an opaque carrier: `serde_json::Value` is held in a
/// marker's optional metadata and never inspected by the library.
#[verifier::external_type_specification]
#[verifier::external_body]
pub struct ExJsonValue(serde_json::Value);

/// Default marker intensity in micro-units (full intensity).
pub const DEFAULT_INTENSITY_MICRO: u32 = 1_000_000;

/// Largest valid intensity in micro-units.
pub const INTENSITY_MAX_MICRO: u32 = 1_000_000;

/// Default marker radius in micropixels (5 pixels).
pub const DEFAULT_RADIUS_MICROPX: u32 = 5_000_000;

/// FNV-1a 64-bit offset basis.
pub const FNV_OFFSET_BASIS: u64 = 0xcbf29ce484222325;

/// FNV-1a 64-bit prime.
pub const FNV_PRIME: u64 = 0x100000001b3;

/// Number of distinct phase steps per full turn.
pub const PHASE_STEPS: u64 = 10000;

/// Unique identifier for a marker: either text or a number.
#[derive(Debug, Clone, PartialEq, Eq, Hash)]
pub enum MarkerId {
    /// Text identifier; must be non-empty to be valid.
    String(String),
    /// Numeric identifier; always valid.
    Number(u64),
}

/// Whether a marker identifier is valid: text identifiers must be non-empty.
pub open spec fn id_valid(id: MarkerId) -> bool {
    match id {
        MarkerId::String(s) => s@.len() > 0,
        MarkerId::Number(_) => true,
    }
}

/// The eight little-endian bytes of a 64-bit number.
pub open spec fn spec_u64_le_bytes(n: u64) -> Seq<u8> {
    seq![
        (n % 256) as u8,
        ((n / 256) % 256) as u8,
        ((n / 65536) % 256) as u8,
        ((n / 16777216) % 256) as u8,
        ((n / 4294967296) % 256) as u8,
        ((n / 1099511627776) % 256) as u8,
        ((n / 281474976710656) % 256) as u8,
        ((n / 72057594037927936) % 256) as u8,
    ]
}

/// The byte string hashed for a marker identifier: a tag byte distinguishing
/// the variants, then the payload.
pub open spec fn spec_id_bytes(id: MarkerId) -> Seq<u8> {
    match id {
        MarkerId::String(s) => seq![115u8] + vstd::utf8::encode_utf8(s@),
        MarkerId::Number(n) => seq![110u8] + spec_u64_le_bytes(n),
    }
}

/// FNV-1a 64-bit hash of a byte string.
pub open spec fn spec_fnv1a(bytes: Seq<u8>) -> u64
    decreases bytes.len(),
{
    if bytes.len() == 0 {
        FNV_OFFSET_BASIS
    } else {
        (spec_fnv1a(bytes.drop_last()) ^ (bytes.last() as u64)).wrapping_mul(FNV_PRIME)
    }
}

/// The animation phase of an identifier, in ten-thousandths of a full turn.
pub open spec fn spec_phase(id: MarkerId) -> u64 {
    spec_fnv1a(spec_id_bytes(id)) % PHASE_STEPS
}

impl MarkerId {
    /// Validates the identifier: a text identifier must be non-empty.
    ///
    /// Fails with `CoreError::InvalidMarkerId` carrying the (empty) text
    /// exactly when the identifier is the empty text.
    pub fn validate(&self) -> (r: Result<(), CoreError>)
        ensures
            id_valid(*self) ==> r == Ok::<(), CoreError>(()),
            !id_valid(*self) ==> (r matches Err(e) && e matches CoreError::InvalidMarkerId { id }
                && id@ == Seq::<char>::empty()),
    {
        match self {
            MarkerId::String(s) => {
                if s.as_str().is_empty() {
                    Err(CoreError::InvalidMarkerId { id: s.clone() })
                } else {
                    Ok(())
                }
            },
            MarkerId::Number(_) => Ok(()),
        }
    }

    /// The byte string hashed for this identifier.
    fn id_bytes(&self) -> (r: Vec<u8>)
        ensures
            r@ == spec_id_bytes(*self),
    {
        let mut out: Vec<u8> = Vec::new();
        match self {
            MarkerId::String(s) => {
                out.push(115u8);
                let bytes = s.as_str().as_bytes();
                let n = bytes.len();
                let mut i: usize = 0;
                while i < n
                    invariant
                        i <= n,
                        n == bytes@.len(),
                        bytes@ == vstd::utf8::encode_utf8(s@),
                        out@ == seq![115u8] + bytes@.subrange(0, i as int),
                    decreases n - i,
                {
                    out.push(bytes[i]);
                    i += 1;
                    proof {
                        assert(bytes@.subrange(0, i as int) == bytes@.subrange(0, i - 1).push(
                            bytes@[i - 1],
                        ));
                    }
                }
                proof {
                    assert(bytes@.subrange(0, n as int) == bytes@);
                }
            },
            MarkerId::Number(n) => {
                out.push(110u8);
                let v = *n;
                out.push((v % 256) as u8);
                out.push(((v / 256) % 256) as u8);
                out.push(((v / 65536) % 256) as u8);
                out.push(((v / 16777216) % 256) as u8);
                out.push(((v / 4294967296) % 256) as u8);
                out.push(((v / 1099511627776) % 256) as u8);
                out.push(((v / 281474976710656) % 256) as u8);
                out.push(((v / 72057594037927936) % 256) as u8);
                proof {
                    assert(out@ =~= seq![110u8] + spec_u64_le_bytes(v));
                }
            },
        }
        out
    }
}

/// FNV-1a 64-bit hash of a byte string.
fn fnv1a(bytes: &Vec<u8>) -> (r: u64)
    ensures
        r == spec_fnv1a(bytes@),
{
    let mut h: u64 = FNV_OFFSET_BASIS;
    let n = bytes.len();
    let mut i: usize = 0;
    while i < n
        invariant
            i <= n,
            n == bytes@.len(),
            h == spec_fnv1a(bytes@.subrange(0, i as int)),
        decreases n - i,
    {
        h = (h ^ (bytes[i] as u64)).wrapping_mul(FNV_PRIME);
        i += 1;
        proof {
            let pre = bytes@.subrange(0, i as int);
            assert(pre.drop_last() == bytes@.subrange(0, i - 1));
            assert(pre.last() == bytes@[i - 1]);
        }
    }
    proof {
        assert(bytes@.subrange(0, n as int) == bytes@);
    }
    h
}

/// RGBA color with 8-bit channels (255 = full brightness).
#[derive(Debug, Clone, Copy, PartialEq, Eq, Structural)]
pub struct Color {
    /// Red channel.
    pub r: u8,
    /// Green channel.
    pub g: u8,
    /// Blue channel.
    pub b: u8,
    /// Alpha channel.
    pub a: u8,
}

/// The value of an ASCII hexadecimal digit, if the byte is one.
pub open spec fn spec_hex_digit(b: u8) -> Option<u8> {
    if 48 <= b <= 57 {
        Some((b - 48) as u8)
    } else if 97 <= b <= 102 {
        Some((b - 87) as u8)
    } else if 65 <= b <= 70 {
        Some((b - 55) as u8)
    } else {
        None
    }
}

/// The channel value of the two hexadecimal digits at position `i`.
pub open spec fn spec_hex_pair(s: Seq<u8>, i: int) -> Option<u8>
    recommends
        0 <= i && i + 1 < s.len(),
{
    match (spec_hex_digit(s[i]), spec_hex_digit(s[i + 1])) {
        (Some(hi), Some(lo)) => Some((hi * 16 + lo) as u8),
        _ => None,
    }
}

/// The byte string with every leading `#` removed.
pub open spec fn spec_strip_hash(s: Seq<u8>) -> Seq<u8>
    decreases s.len(),
{
    if s.len() > 0 && s[0] == 35 {
        spec_strip_hash(s.drop_first())
    } else {
        s
    }
}

/// The color denoted by a hex text: after stripping leading `#`, six or
/// eight hexadecimal digits giving red, green, blue and optionally alpha
/// (255 when absent).
pub open spec fn spec_color_from_hex(s0: Seq<u8>) -> Option<Color> {
    let s = spec_strip_hash(s0);
    if s.len() == 6 || s.len() == 8 {
        match (spec_hex_pair(s, 0), spec_hex_pair(s, 2), spec_hex_pair(s, 4)) {
            (Some(r), Some(g), Some(b)) => {
                if s.len() == 8 {
                    match spec_hex_pair(s, 6) {
                        Some(a) => Some(Color { r, g, b, a }),
                        None => None,
                    }
                } else {
                    Some(Color { r, g, b, a: 255 })
                }
            },
            _ => None,
        }
    } else {
        None
    }
}

/// The value of an ASCII hexadecimal digit, if the byte is one.
fn hex_digit(b: u8) -> (r: Option<u8>)
    ensures
        r == spec_hex_digit(b),
{
    if 48 <= b && b <= 57 {
        Some(b - 48)
    } else if 97 <= b && b <= 102 {
        Some(b - 87)
    } else if 65 <= b && b <= 70 {
        Some(b - 55)
    } else {
        None
    }
}

/// The channel value of the two hexadecimal digits at position `k`.
fn hex_pair(bytes: &[u8], k: usize) -> (r: Option<u8>)
    requires
        k + 1 < bytes@.len(),
    ensures
        r == spec_hex_pair(bytes@, k as int),
{
    match (hex_digit(bytes[k]), hex_digit(bytes[k + 1])) {
        (Some(hi), Some(lo)) => Some(hi * 16 + lo),
        _ => None,
    }
}

impl Color {
    /// Creates a color from its four channels.
    pub fn rgba(r: u8, g: u8, b: u8, a: u8) -> (c: Self)
        ensures
            c == (Color { r, g, b, a }),
    {
        Color { r, g, b, a }
    }

    /// Parses a color from hex text such as `#FF0000` or `#FF000080`.
    ///
    /// Succeeds exactly when, after stripping leading `#`, the text is six
    /// or eight hexadecimal digits; otherwise fails with
    /// `CoreError::ThemeValidationFailed`, whose reason names the offending
    /// input as it was given.
    pub fn from_hex(hex: &str) -> (r: Result<Color, CoreError>)
        ensures
            spec_color_from_hex(hex.spec_bytes()) matches Some(c) ==> r == Ok::<
                Color,
                CoreError,
            >(c),
            spec_color_from_hex(hex.spec_bytes()) is None ==> (r matches Err(e) && e matches
                CoreError::ThemeValidationFailed { reason } && reason@ == "invalid hex color: "@
                + hex@),
    {
        let bytes = hex.as_bytes();
        let n = bytes.len();
        let mut i: usize = 0;
        proof {
            assert(bytes@.subrange(0, n as int) =~= bytes@);
        }
        while i < n && bytes[i] == 35
            invariant
                i <= n,
                n == bytes@.len(),
                spec_strip_hash(bytes@) == spec_strip_hash(bytes@.subrange(i as int, n as int)),
            decreases n - i,
        {
            proof {
                let t = bytes@.subrange(i as int, n as int);
                assert(t.drop_first() == bytes@.subrange(i + 1, n as int));
            }
            i += 1;
        }
        let ghost t = bytes@.subrange(i as int, n as int);
        proof {
            assert(spec_strip_hash(bytes@) == t);
        }
        let m = n - i;
        if m != 6 && m != 8 {
            return Err(CoreError::ThemeValidationFailed {
                    reason: String::from_str("invalid hex color: ").concat(hex),
                });
        }
        let red = hex_pair(bytes, i);
        let green = hex_pair(bytes, i + 2);
        let blue = hex_pair(bytes, i + 4);
        proof {
            assert(spec_hex_pair(t, 0) == spec_hex_pair(bytes@, i as int));
            assert(spec_hex_pair(t, 2) == spec_hex_pair(bytes@, i + 2));
            assert(spec_hex_pair(t, 4) == spec_hex_pair(bytes@, i + 4));
        }
        let (red, green, blue) = match (red, green, blue) {
            (Some(red), Some(green), Some(blue)) => (red, green, blue),
            _ => {
                return Err(
                    CoreError::ThemeValidationFailed {
                    reason: String::from_str("invalid hex color: ").concat(hex),
                },
                );
            },
        };
        if m == 8 {
            let alpha = hex_pair(bytes, i + 6);
            proof {
                assert(spec_hex_pair(t, 6) == spec_hex_pair(bytes@, i + 6));
            }
            match alpha {
                Some(alpha) => Ok(Color { r: red, g: green, b: blue, a: alpha }),
                None => Err(
                    CoreError::ThemeValidationFailed {
                    reason: String::from_str("invalid hex color: ").concat(hex),
                },
                ),
            }
        } else {
            Ok(Color { r: red, g: green, b: blue, a: 255 })
        }
    }
}

/// A map marker: identifier, position, appearance, and opaque metadata.
#[derive(Debug, Clone)]
pub struct Marker {
    /// Unique marker identifier.
    pub id: MarkerId,
    /// Geographic coordinates.
    pub coord: GeoCoord,
    /// Glow intensity in micro-units (0 to 1_000_000).
    pub intensity: u32,
    /// Optional custom color.
    pub color: Option<Color>,
    /// Marker radius in micropixels; must be positive.
    pub radius: u32,
    /// Optional metadata, carried opaquely.
    pub meta: Option<serde_json::Value>,
}

/// Whether a marker's identifier, intensity and radius are all valid.
pub open spec fn marker_valid(m: Marker) -> bool {
    &&& id_valid(m.id)
    &&& m.intensity <= INTENSITY_MAX_MICRO
    &&& m.radius > 0
}

impl Marker {
    /// Creates a marker with the given identifier and position and default
    /// appearance: full intensity, 5-pixel radius, no color override, no
    /// metadata.
    ///
    /// Fails on an invalid identifier or an out-of-range coordinate.
    pub fn new(id: MarkerId, lat: i64, lon: i64) -> (r: Result<Marker, CoreError>)
        ensures
            !id_valid(id) ==> (r matches Err(e) && e matches CoreError::InvalidMarkerId { id: t }
                && t@ == Seq::<char>::empty()),
            id_valid(id) && !coord_in_range(lat as int, lon as int) ==> r == Err::<
                Marker,
                CoreError,
            >(CoreError::InvalidCoordinates { lat, lon }),
            id_valid(id) && coord_in_range(lat as int, lon as int) ==> (r matches Ok(m) && m.id
                == id && m.coord == (GeoCoord { lat, lon }) && m.intensity
                == DEFAULT_INTENSITY_MICRO && m.color is None && m.radius == DEFAULT_RADIUS_MICROPX
                && m.meta is None && marker_valid(m)),
    {
        match id.validate() {
            Ok(_) => {},
            Err(e) => {
                return Err(e);
            },
        }
        let coord = match GeoCoord::new(lat, lon) {
            Ok(c) => c,
            Err(e) => {
                return Err(e);
            },
        };
        Ok(
            Marker {
                id,
                coord,
                intensity: DEFAULT_INTENSITY_MICRO,
                color: None,
                radius: DEFAULT_RADIUS_MICROPX,
                meta: None,
            },
        )
    }

    /// Re-validates the marker: identifier, intensity range, positive radius,
    /// failing on the first violation found. Identifier and numeric-range
    /// violations share the `InvalidMarkerId` error kind.
    pub fn validate(&self) -> (r: Result<(), CoreError>)
        ensures
            marker_valid(*self) <==> r is Ok,
            !id_valid(self.id) ==> (r matches Err(e) && e matches CoreError::InvalidMarkerId {
                id: t } && t@ == Seq::<char>::empty()),
            id_valid(self.id) && self.intensity > INTENSITY_MAX_MICRO ==> (r matches Err(e)
                && e matches CoreError::InvalidMarkerId { id: t } && t@
                == "intensity out of range [0, 1]"@),
            id_valid(self.id) && self.intensity <= INTENSITY_MAX_MICRO && self.radius == 0 ==> (
            r matches Err(e) && e matches CoreError::InvalidMarkerId { id: t } && t@
                == "invalid radius"@),
    {
        match self.id.validate() {
            Ok(_) => {},
            Err(e) => {
                return Err(e);
            },
        }
        if self.intensity > INTENSITY_MAX_MICRO {
            return Err(
                CoreError::InvalidMarkerId { id: "intensity out of range [0, 1]".to_owned() },
            );
        }
        if self.radius == 0 {
            return Err(CoreError::InvalidMarkerId { id: "invalid radius".to_owned() });
        }
        Ok(())
    }

    /// Deterministic animation phase in ten-thousandths of a full turn,
    /// derived from the identifier with 64-bit FNV-1a (see the module
    /// documentation for the exact byte string hashed).
    pub fn phase(&self) -> (r: u64)
        ensures
            r == spec_phase(self.id),
            r < PHASE_STEPS,
    {
        let bytes = self.id.id_bytes();
        fnv1a(&bytes) % PHASE_STEPS
    }
}

/// Law: the phase is a function of the identifier alone. Markers with equal
/// identifiers always have equal phases.
pub proof fn lemma_phase_deterministic(a: Marker, b: Marker)
    requires
        a.id == b.id,
    ensures
        spec_phase(a.id) == spec_phase(b.id),
{
}

} // verus!
