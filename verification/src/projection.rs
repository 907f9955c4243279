//! Geographic coordinates and the equirectangular screen projection.
//!
//! Latitudes and longitudes are carried in microdegrees (one millionth of a
//! degree), screen positions in subpixels (2^-30 of a pixel). With these
//! scales the equirectangular projection has an exact inverse: unprojecting a
//! projected coordinate returns the original microdegree values, which is
//! proved in [`lemma_equirect_round_trip`].

use crate::error::CoreError;
use vstd::arithmetic::div_mod::{
    lemma_div_is_ordered, lemma_div_multiples_vanish, lemma_fundamental_div_mod,
    lemma_fundamental_div_mod_converse,
};
use vstd::arithmetic::mul::{lemma_mul_is_associative, lemma_mul_nonnegative};
use vstd::prelude::*;

verus! {

/// Largest valid latitude, in microdegrees (90 degrees).
pub const LAT_LIMIT_MICRODEG: i64 = 90_000_000;

/// Largest valid longitude, in microdegrees (180 degrees).
pub const LON_LIMIT_MICRODEG: i64 = 180_000_000;

/// Number of subpixels per pixel (2^30).
pub const SUBPIXELS_PER_PIXEL: u64 = 1_073_741_824;

/// Whether a latitude/longitude pair (in microdegrees) lies in the valid
/// ranges [-90, 90] and [-180, 180] degrees.
pub open spec fn coord_in_range(lat: int, lon: int) -> bool {
    &&& -90_000_000 <= lat <= 90_000_000
    &&& -180_000_000 <= lon <= 180_000_000
}

/// Geographic coordinate (latitude, longitude) in microdegrees.
#[derive(Debug, Clone, Copy, PartialEq, Eq, Hash, Structural)]
pub struct GeoCoord {
    /// Latitude in microdegrees (-90_000_000 to 90_000_000).
    pub lat: i64,
    /// Longitude in microdegrees (-180_000_000 to 180_000_000).
    pub lon: i64,
}

impl GeoCoord {
    /// Whether the coordinate lies in the valid ranges.
    pub open spec fn valid(&self) -> bool {
        coord_in_range(self.lat as int, self.lon as int)
    }

    /// Creates a new geographic coordinate, validating both components.
    ///
    /// Succeeds exactly when the latitude is within [-90, 90] degrees and the
    /// longitude within [-180, 180] degrees, returning those same values;
    /// otherwise fails with `CoreError::InvalidCoordinates`.
    pub fn new(lat: i64, lon: i64) -> (r: Result<GeoCoord, CoreError>)
        ensures
            coord_in_range(lat as int, lon as int) ==> r == Ok::<GeoCoord, CoreError>(
                GeoCoord { lat, lon },
            ),
            !coord_in_range(lat as int, lon as int) ==> r == Err::<GeoCoord, CoreError>(
                CoreError::InvalidCoordinates { lat, lon },
            ),
    {
        if lat < -LAT_LIMIT_MICRODEG || lat > LAT_LIMIT_MICRODEG || lon < -LON_LIMIT_MICRODEG
            || lon > LON_LIMIT_MICRODEG {
            return Err(CoreError::InvalidCoordinates { lat, lon });
        }
        Ok(GeoCoord { lat, lon })
    }
}

/// Projected coordinate in screen space, in subpixels (2^-30 pixel).
#[derive(Debug, Clone, Copy, PartialEq, Eq, Structural)]
pub struct ProjectedCoord {
    /// X coordinate in subpixels.
    pub x: u64,
    /// Y coordinate in subpixels.
    pub y: u64,
}

/// Equirectangular (plate carree) projection onto a width x height pixel
/// viewport: linear in both axes, with an exact inverse.
#[derive(Debug, Clone, Copy)]
pub struct EquirectangularProjection {
    width: u32,
    height: u32,
}

/// The x subpixel the projection maps a longitude (microdegrees) to:
/// (lon + 180 deg) / 360 deg scaled to `width` pixels, rounded down.
pub open spec fn spec_project_x(width: u32, lon: int) -> int {
    ((lon + 180_000_000) * (width as int) * (SUBPIXELS_PER_PIXEL as int)) / 360_000_000
}

/// The y subpixel the projection maps a latitude (microdegrees) to:
/// (90 deg - lat) / 180 deg scaled to `height` pixels, rounded down.
pub open spec fn spec_project_y(height: u32, lat: int) -> int {
    ((90_000_000 - lat) * (height as int) * (SUBPIXELS_PER_PIXEL as int)) / 180_000_000
}

/// The longitude (microdegrees) recovered from an x subpixel: the inverse
/// linear map, rounded to the nearest microdegree.
pub open spec fn spec_unproject_lon(width: u32, x: int) -> int {
    (x * 360_000_000 + ((width as int) * (SUBPIXELS_PER_PIXEL as int)) / 2) / ((width as int)
        * (SUBPIXELS_PER_PIXEL as int)) - 180_000_000
}

/// The latitude (microdegrees) recovered from a y subpixel: the inverse
/// linear map, rounded to the nearest microdegree.
pub open spec fn spec_unproject_lat(height: u32, y: int) -> int {
    90_000_000 - (y * 180_000_000 + ((height as int) * (SUBPIXELS_PER_PIXEL as int)) / 2) / (
    (height as int) * (SUBPIXELS_PER_PIXEL as int))
}

impl EquirectangularProjection {
    /// Whether the projection was built with a non-empty viewport.
    pub closed spec fn wf(&self) -> bool {
        self.width >= 1 && self.height >= 1
    }

    /// Viewport width in pixels.
    pub closed spec fn spec_width(&self) -> u32 {
        self.width
    }

    /// Viewport height in pixels.
    pub closed spec fn spec_height(&self) -> u32 {
        self.height
    }

    /// Creates a new equirectangular projection for the given viewport.
    pub fn new(width: u32, height: u32) -> (r: Self)
        requires
            1 <= width,
            1 <= height,
        ensures
            r.wf(),
            r.spec_width() == width,
            r.spec_height() == height,
    {
        EquirectangularProjection { width, height }
    }

    /// Projects a geographic coordinate to screen space.
    ///
    /// The result is the exact linear map of [`spec_project_x`] and
    /// [`spec_project_y`], and stays within the viewport.
    pub fn project(&self, coord: GeoCoord) -> (r: ProjectedCoord)
        requires
            self.wf(),
            coord.valid(),
        ensures
            r.x as int == spec_project_x(self.spec_width(), coord.lon as int),
            r.y as int == spec_project_y(self.spec_height(), coord.lat as int),
            r.x as int <= (self.spec_width() as int) * (SUBPIXELS_PER_PIXEL as int),
            r.y as int <= (self.spec_height() as int) * (SUBPIXELS_PER_PIXEL as int),
    {
        let a: u128 = (coord.lon + LON_LIMIT_MICRODEG) as u128;
        let w: u128 = self.width as u128;
        assert(a <= 360_000_000);
        assert(a * w <= 360_000_000 * 4_294_967_296) by (nonlinear_arith)
            requires
                a <= 360_000_000,
                w <= 4_294_967_296,
        ;
        let num: u128 = a * w * (SUBPIXELS_PER_PIXEL as u128);
        assert(a * w * (SUBPIXELS_PER_PIXEL as int) <= 360_000_000 * 4_294_967_296 * (
        SUBPIXELS_PER_PIXEL as int)) by (nonlinear_arith)
            requires
                a * w <= 360_000_000 * 4_294_967_296,
        ;
        let x128: u128 = num / 360_000_000;
        proof {
            lemma_x_in_viewport(a as int, self.width, coord.lon as int);
        }
        let b: u128 = (LAT_LIMIT_MICRODEG - coord.lat) as u128;
        let h: u128 = self.height as u128;
        assert(b <= 180_000_000);
        assert(b * h <= 180_000_000 * 4_294_967_296) by (nonlinear_arith)
            requires
                b <= 180_000_000,
                h <= 4_294_967_296,
        ;
        let num_y: u128 = b * h * (SUBPIXELS_PER_PIXEL as u128);
        assert(b * h * (SUBPIXELS_PER_PIXEL as int) <= 180_000_000 * 4_294_967_296 * (
        SUBPIXELS_PER_PIXEL as int)) by (nonlinear_arith)
            requires
                b * h <= 180_000_000 * 4_294_967_296,
        ;
        let y128: u128 = num_y / 180_000_000;
        proof {
            lemma_y_in_viewport(b as int, self.height, coord.lat as int);
        }
        ProjectedCoord { x: x128 as u64, y: y128 as u64 }
    }

    /// Unprojects a screen-space coordinate back to geographic space.
    ///
    /// The result is the exact inverse linear map of [`spec_unproject_lon`]
    /// and [`spec_unproject_lat`], rounded to the nearest microdegree, and is
    /// a valid coordinate whenever the input lies within the viewport.
    pub fn unproject(&self, coord: ProjectedCoord) -> (r: GeoCoord)
        requires
            self.wf(),
            coord.x as int <= (self.spec_width() as int) * (SUBPIXELS_PER_PIXEL as int),
            coord.y as int <= (self.spec_height() as int) * (SUBPIXELS_PER_PIXEL as int),
        ensures
            r.lon as int == spec_unproject_lon(self.spec_width(), coord.x as int),
            r.lat as int == spec_unproject_lat(self.spec_height(), coord.y as int),
            r.valid(),
    {
        let s: u128 = (self.width as u128) * (SUBPIXELS_PER_PIXEL as u128);
        let num: u128 = (coord.x as u128) * 360_000_000 + s / 2;
        proof {
            lemma_unproject_bound(coord.x as int, self.width as int, 360_000_000);
        }
        let q: u128 = num / s;
        let lon: i64 = (q as i64) - LON_LIMIT_MICRODEG;

        let s2: u128 = (self.height as u128) * (SUBPIXELS_PER_PIXEL as u128);
        let num_y: u128 = (coord.y as u128) * 180_000_000 + s2 / 2;
        proof {
            lemma_unproject_bound(coord.y as int, self.height as int, 180_000_000);
        }
        let q2: u128 = num_y / s2;
        let lat: i64 = LAT_LIMIT_MICRODEG - (q2 as i64);
        GeoCoord { lat, lon }
    }
}

/// A map projection: a pair of maps between geographic and screen space.
/// Each implementation fixes its own mathematical maps as spec functions and
/// promises that the executable methods compute them. New projections are
/// added as new implementations, never as branches in caller code.
pub trait Projection {
    /// Whether the projection is usable (a non-empty viewport).
    spec fn proj_wf(&self) -> bool;

    /// The screen point the projection maps a valid coordinate to.
    spec fn spec_projection(&self, coord: GeoCoord) -> ProjectedCoord;

    /// The screen region whose points can be unprojected.
    spec fn in_domain(&self, coord: ProjectedCoord) -> bool;

    /// The geographic coordinate a screen point maps back to.
    spec fn spec_unprojection(&self, coord: ProjectedCoord) -> GeoCoord;

    /// Projects geographic coordinates to screen space.
    fn project(&self, coord: GeoCoord) -> (r: ProjectedCoord)
        requires
            self.proj_wf(),
            coord.valid(),
        ensures
            r == self.spec_projection(coord),
    ;

    /// Unprojects screen coordinates to geographic space.
    fn unproject(&self, coord: ProjectedCoord) -> (r: GeoCoord)
        requires
            self.proj_wf(),
            self.in_domain(coord),
        ensures
            r == self.spec_unprojection(coord),
    ;
}

impl Projection for EquirectangularProjection {
    open spec fn proj_wf(&self) -> bool {
        self.wf()
    }

    open spec fn spec_projection(&self, coord: GeoCoord) -> ProjectedCoord {
        ProjectedCoord {
            x: spec_project_x(self.spec_width(), coord.lon as int) as u64,
            y: spec_project_y(self.spec_height(), coord.lat as int) as u64,
        }
    }

    open spec fn in_domain(&self, coord: ProjectedCoord) -> bool {
        &&& coord.x as int <= (self.spec_width() as int) * (SUBPIXELS_PER_PIXEL as int)
        &&& coord.y as int <= (self.spec_height() as int) * (SUBPIXELS_PER_PIXEL as int)
    }

    open spec fn spec_unprojection(&self, coord: ProjectedCoord) -> GeoCoord {
        GeoCoord {
            lat: spec_unproject_lat(self.spec_height(), coord.y as int) as i64,
            lon: spec_unproject_lon(self.spec_width(), coord.x as int) as i64,
        }
    }

    fn project(&self, coord: GeoCoord) -> (r: ProjectedCoord) {
        EquirectangularProjection::project(self, coord)
    }

    fn unproject(&self, coord: ProjectedCoord) -> (r: GeoCoord) {
        EquirectangularProjection::unproject(self, coord)
    }
}

/// Bounds the projected x: for `a = lon + 180 deg` at most the full span,
/// the scaled quotient is at most `width` pixels of subpixels.
proof fn lemma_x_in_viewport(a: int, width: u32, lon: int)
    requires
        0 <= a <= 360_000_000,
        1 <= width,
        a == lon + 180_000_000,
    ensures
        0 <= (a * (width as int) * (SUBPIXELS_PER_PIXEL as int)) / 360_000_000 <= (width as int)
            * (SUBPIXELS_PER_PIXEL as int),
        spec_project_x(width, lon) == (a * (width as int) * (SUBPIXELS_PER_PIXEL as int))
            / 360_000_000,
{
    let w = width as int;
    let sub = SUBPIXELS_PER_PIXEL as int;
    lemma_mul_nonnegative(a, w);
    lemma_mul_nonnegative(a * w, sub);
    assert(a * w * sub <= 360_000_000 * (w * sub)) by (nonlinear_arith)
        requires
            0 <= a <= 360_000_000,
            0 <= w,
            0 <= sub,
    ;
    lemma_div_is_ordered(a * w * sub, 360_000_000 * (w * sub), 360_000_000);
    lemma_mul_nonnegative(w, sub);
    lemma_div_multiples_vanish(w * sub, 360_000_000);
    assert((a * w * sub) / 360_000_000 >= 0) by {
        vstd::arithmetic::div_mod::lemma_div_pos_is_pos(a * w * sub, 360_000_000);
    }
}

/// Bounds the projected y analogously for the latitude axis.
proof fn lemma_y_in_viewport(b: int, height: u32, lat: int)
    requires
        0 <= b <= 180_000_000,
        1 <= height,
        b == 90_000_000 - lat,
    ensures
        0 <= (b * (height as int) * (SUBPIXELS_PER_PIXEL as int)) / 180_000_000 <= (height as int)
            * (SUBPIXELS_PER_PIXEL as int),
        spec_project_y(height, lat) == (b * (height as int) * (SUBPIXELS_PER_PIXEL as int))
            / 180_000_000,
{
    let h = height as int;
    let sub = SUBPIXELS_PER_PIXEL as int;
    lemma_mul_nonnegative(b, h);
    lemma_mul_nonnegative(b * h, sub);
    assert(b * h * sub <= 180_000_000 * (h * sub)) by (nonlinear_arith)
        requires
            0 <= b <= 180_000_000,
            0 <= h,
            0 <= sub,
    ;
    lemma_div_is_ordered(b * h * sub, 180_000_000 * (h * sub), 180_000_000);
    lemma_mul_nonnegative(h, sub);
    lemma_div_multiples_vanish(h * sub, 180_000_000);
    assert((b * h * sub) / 180_000_000 >= 0) by {
        vstd::arithmetic::div_mod::lemma_div_pos_is_pos(b * h * sub, 180_000_000);
    }
}

/// Bounds the unprojected value: for `x` within the viewport, the rounded
/// quotient `(x * span + s/2) / s` is at most the full span.
proof fn lemma_unproject_bound(x: int, w: int, span: int)
    requires
        1 <= w <= 4_294_967_296,
        1 <= span,
        0 <= x <= w * (SUBPIXELS_PER_PIXEL as int),
    ensures
        0 <= (x * span + (w * (SUBPIXELS_PER_PIXEL as int)) / 2) / (w * (
        SUBPIXELS_PER_PIXEL as int)) <= span,
{
    let sub = SUBPIXELS_PER_PIXEL as int;
    let s = w * sub;
    lemma_mul_nonnegative(w, sub);
    assert(s >= sub) by (nonlinear_arith)
        requires
            w >= 1,
            sub >= 1,
            s == w * sub,
    ;
    lemma_mul_nonnegative(x, span);
    let num = x * span + s / 2;
    assert(num < (span + 1) * s) by (nonlinear_arith)
        requires
            0 <= x <= s,
            1 <= span,
            2 <= s,
            num == x * span + s / 2,
    ;
    assert(num / s <= span) by {
        lemma_div_is_ordered(num, (span + 1) * s - 1, s);
        vstd::arithmetic::div_mod::lemma_div_is_ordered_by_denominator(num, s, s);
        assert(((span + 1) * s - 1) / s == span) by {
            assert((span + 1) * s == span * s + s) by (nonlinear_arith);
            lemma_fundamental_div_mod_converse((span + 1) * s - 1, s, span, s - 1);
        }
    }
    vstd::arithmetic::div_mod::lemma_div_pos_is_pos(num, s);
}

/// The key rounding fact behind the exact round trip: scaling `a` up by
/// `s / d` with truncation and back down with rounding returns `a`, provided
/// one unit of `d` spans at least two units of `s`.
proof fn lemma_scale_round_trip(a: int, s: int, d: int)
    requires
        0 <= a,
        1 <= d,
        2 * d <= s,
    ensures
        ((a * s) / d * d + s / 2) / s == a,
{
    let q = (a * s) / d;
    lemma_mul_nonnegative(a, s);
    lemma_fundamental_div_mod(a * s, d);
    let r = (a * s) % d;
    let t = q * d + s / 2;
    assert(t == a * s - r + s / 2);
    assert(0 <= r < d);
    assert(d <= s / 2);
    assert(t - a * s == s / 2 - r);
    assert(0 <= t - a * s < s);
    lemma_fundamental_div_mod_converse(t, s, a, t - a * s);
}

/// Law: the equirectangular projection round-trips exactly. For every valid
/// coordinate, unprojecting the projected point recovers the same latitude
/// and longitude, to the microdegree.
pub proof fn lemma_equirect_round_trip(proj: EquirectangularProjection, c: GeoCoord)
    requires
        proj.wf(),
        c.valid(),
    ensures
        spec_unproject_lon(proj.spec_width(), spec_project_x(proj.spec_width(), c.lon as int))
            == c.lon as int,
        spec_unproject_lat(proj.spec_height(), spec_project_y(proj.spec_height(), c.lat as int))
            == c.lat as int,
{
    let sub = SUBPIXELS_PER_PIXEL as int;
    let w = proj.spec_width() as int;
    let h = proj.spec_height() as int;
    let a = c.lon as int + 180_000_000;
    let s = w * sub;
    assert(2 * 360_000_000 <= s) by (nonlinear_arith)
        requires
            w >= 1,
            s == w * sub,
            sub == 1_073_741_824,
    ;
    lemma_mul_is_associative(a, w, sub);
    assert(spec_project_x(proj.spec_width(), c.lon as int) == (a * s) / 360_000_000);
    lemma_scale_round_trip(a, s, 360_000_000);
    assert(spec_unproject_lon(proj.spec_width(), (a * s) / 360_000_000) == a - 180_000_000);

    let b = 90_000_000 - c.lat as int;
    let s2 = h * sub;
    assert(2 * 180_000_000 <= s2) by (nonlinear_arith)
        requires
            h >= 1,
            s2 == h * sub,
            sub == 1_073_741_824,
    ;
    lemma_mul_is_associative(b, h, sub);
    assert(spec_project_y(proj.spec_height(), c.lat as int) == (b * s2) / 180_000_000);
    lemma_scale_round_trip(b, s2, 180_000_000);
    assert(spec_unproject_lat(proj.spec_height(), (b * s2) / 180_000_000) == 90_000_000 - b);
}

} // verus!
