//! World topology: normalization of a feature-collection payload into line
//! geometries, and line/point counting.
//!
//! The host hands the library the payload in raw form: an ordered list of
//! features, each with an optional geometry of one of the supported kinds,
//! positions given as `[longitude, latitude, ...]` component lists in
//! microdegrees (extra components ignored). Normalization folds polygon
//! rings into multi-line-strings (rings are treated as open lines, with no
//! fill semantics), drops malformed positions individually, drops features
//! with unsupported geometry kinds, and rejects payloads that are not
//! feature collections.

use crate::error::CoreError;
use crate::projection::{coord_in_range, GeoCoord};
use vstd::prelude::*;

verus! {

/// A raw geometry as found in a feature-collection payload, with positions
/// in microdegrees, longitude first.
#[derive(Debug, Clone)]
pub enum RawGeometry {
    /// A single line of positions.
    LineString(Vec<Vec<i64>>),
    /// Several lines of positions.
    MultiLineString(Vec<Vec<Vec<i64>>>),
    /// One polygon: a list of rings, each a line of positions.
    Polygon(Vec<Vec<Vec<i64>>>),
    /// Several polygons.
    MultiPolygon(Vec<Vec<Vec<Vec<i64>>>>),
    /// Any other geometry kind; dropped from collections.
    Unsupported,
}

/// A raw feature: an optional geometry.
#[derive(Debug, Clone)]
pub struct RawFeature {
    /// The feature's geometry, if it has one.
    pub geometry: Option<RawGeometry>,
}

/// A raw topology payload: either a feature collection or something else.
#[derive(Debug, Clone)]
pub enum RawPayload {
    /// An ordered feature collection.
    FeatureCollection(Vec<RawFeature>),
    /// Any other top-level shape; rejected.
    Other,
}

/// Normalized geometry: only two cases remain after parsing.
#[derive(Debug, Clone)]
pub enum Geometry {
    /// Single line string.
    LineString(Vec<GeoCoord>),
    /// Multiple line strings.
    MultiLineString(Vec<Vec<GeoCoord>>),
}

/// A geographic feature wrapping one normalized geometry.
#[derive(Debug, Clone)]
pub struct Feature {
    /// Feature geometry.
    pub geometry: Geometry,
}

/// World map topology: an ordered sequence of features, immutable after
/// parse.
#[derive(Debug, Clone)]
pub struct WorldTopology {
    /// The normalized features.
    pub features: Vec<Feature>,
}

/// The coordinate denoted by one raw position: longitude first, then
/// latitude, extra components ignored. A position with fewer than two
/// components, or out-of-range values, denotes nothing and is dropped.
pub open spec fn spec_point(pos: Seq<i64>) -> Option<GeoCoord> {
    if pos.len() >= 2 && coord_in_range(pos[1] as int, pos[0] as int) {
        Some(GeoCoord { lat: pos[1], lon: pos[0] })
    } else {
        None
    }
}

/// The coordinates denoted by a raw line, dropped positions omitted.
pub open spec fn spec_points(line: Seq<Vec<i64>>) -> Seq<GeoCoord>
    decreases line.len(),
{
    if line.len() == 0 {
        Seq::empty()
    } else {
        spec_points(line.drop_last()) + match spec_point(line.last()@) {
            Some(c) => seq![c],
            None => Seq::empty(),
        }
    }
}

/// The lines denoted by a list of raw lines, in order.
pub open spec fn spec_lines(lines: Seq<Vec<Vec<i64>>>) -> Seq<Seq<GeoCoord>>
    decreases lines.len(),
{
    if lines.len() == 0 {
        Seq::empty()
    } else {
        spec_lines(lines.drop_last()) + seq![spec_points(lines.last()@)]
    }
}

/// Every ring of every polygon, flattened into one list of lines, in order.
pub open spec fn spec_poly_lines(polys: Seq<Vec<Vec<Vec<i64>>>>) -> Seq<Seq<GeoCoord>>
    decreases polys.len(),
{
    if polys.len() == 0 {
        Seq::empty()
    } else {
        spec_poly_lines(polys.drop_last()) + spec_lines(polys.last()@)
    }
}

/// The lines of a normalized multi-line-string, as sequences.
pub open spec fn lines_view(v: Vec<Vec<GeoCoord>>) -> Seq<Seq<GeoCoord>> {
    v@.map_values(|l: Vec<GeoCoord>| l@)
}

/// Whether a normalized feature is the parse of a raw geometry: line strings
/// keep their points, multi-line-strings their lines, and polygon kinds are
/// folded ring by ring into a multi-line-string.
pub open spec fn feature_matches(g: RawGeometry, f: Feature) -> bool {
    match g {
        RawGeometry::LineString(coords) => f.geometry matches Geometry::LineString(pts) && pts@
            == spec_points(coords@),
        RawGeometry::MultiLineString(lines) => f.geometry matches Geometry::MultiLineString(ls)
            && lines_view(ls) == spec_lines(lines@),
        RawGeometry::Polygon(rings) => f.geometry matches Geometry::MultiLineString(ls)
            && lines_view(ls) == spec_lines(rings@),
        RawGeometry::MultiPolygon(polys) => f.geometry matches Geometry::MultiLineString(ls)
            && lines_view(ls) == spec_poly_lines(polys@),
        RawGeometry::Unsupported => false,
    }
}

/// The geometries a feature collection keeps: present and of a supported
/// kind, in order.
pub open spec fn kept_geometries(fs: Seq<RawFeature>) -> Seq<RawGeometry>
    decreases fs.len(),
{
    if fs.len() == 0 {
        Seq::empty()
    } else {
        kept_geometries(fs.drop_last()) + match fs.last().geometry {
            Some(g) => if !(g is Unsupported) {
                seq![g]
            } else {
                Seq::empty()
            },
            None => Seq::empty(),
        }
    }
}

/// Whether every coordinate of a line is in range.
pub open spec fn line_ok(pts: Seq<GeoCoord>) -> bool {
    forall|j: int| 0 <= j < pts.len() ==> (#[trigger] pts[j]).valid()
}

/// Whether every coordinate of a normalized geometry is in range.
pub open spec fn geometry_ok(g: Geometry) -> bool {
    match g {
        Geometry::LineString(pts) => line_ok(pts@),
        Geometry::MultiLineString(ls) => forall|k: int|
            0 <= k < ls@.len() ==> line_ok((#[trigger] ls@[k])@),
    }
}

/// Whether every coordinate of a topology is in range.
pub open spec fn topology_ok(t: WorldTopology) -> bool {
    forall|i: int| 0 <= i < t.features@.len() ==> geometry_ok((#[trigger] t.features@[i]).geometry)
}

/// Every coordinate a raw line parses to is in range.
proof fn lemma_points_ok(line: Seq<Vec<i64>>)
    ensures
        line_ok(spec_points(line)),
    decreases line.len(),
{
    if line.len() > 0 {
        lemma_points_ok(line.drop_last());
    }
}

/// Every line a raw line list parses to contains only in-range coordinates.
proof fn lemma_lines_ok(lines: Seq<Vec<Vec<i64>>>)
    ensures
        forall|k: int| 0 <= k < spec_lines(lines).len() ==> line_ok(#[trigger] spec_lines(lines)[k]),
    decreases lines.len(),
{
    if lines.len() > 0 {
        lemma_lines_ok(lines.drop_last());
        lemma_points_ok(lines.last()@);
        assert forall|k: int| 0 <= k < spec_lines(lines).len() implies line_ok(
            #[trigger] spec_lines(lines)[k],
        ) by {
            let prefix = spec_lines(lines.drop_last());
            if k < prefix.len() {
                assert(spec_lines(lines)[k] == prefix[k]);
            } else {
                assert(spec_lines(lines)[k] == spec_points(lines.last()@));
            }
        }
    }
}

/// Every line a polygon list parses to contains only in-range coordinates.
proof fn lemma_poly_lines_ok(polys: Seq<Vec<Vec<Vec<i64>>>>)
    ensures
        forall|k: int|
            0 <= k < spec_poly_lines(polys).len() ==> line_ok(#[trigger] spec_poly_lines(polys)[k]),
    decreases polys.len(),
{
    if polys.len() > 0 {
        lemma_poly_lines_ok(polys.drop_last());
        lemma_lines_ok(polys.last()@);
        assert forall|k: int| 0 <= k < spec_poly_lines(polys).len() implies line_ok(
            #[trigger] spec_poly_lines(polys)[k],
        ) by {
            let prefix = spec_poly_lines(polys.drop_last());
            if k < prefix.len() {
                assert(spec_poly_lines(polys)[k] == prefix[k]);
            } else {
                assert(spec_poly_lines(polys)[k] == spec_lines(polys.last()@)[k - prefix.len()]);
            }
        }
    }
}

/// Law: parsing establishes the coordinate invariant. A feature parsed from
/// any raw geometry contains only in-range coordinates.
pub proof fn lemma_parsed_feature_ok(g: RawGeometry, f: Feature)
    requires
        feature_matches(g, f),
    ensures
        geometry_ok(f.geometry),
{
    match g {
        RawGeometry::LineString(coords) => {
            lemma_points_ok(coords@);
        },
        RawGeometry::MultiLineString(lines) => {
            lemma_lines_ok(lines@);
            if let Geometry::MultiLineString(ls) = f.geometry {
                assert(forall|k: int|
                    0 <= k < ls@.len() ==> (#[trigger] ls@[k])@ == lines_view(ls)[k]);
            }
        },
        RawGeometry::Polygon(rings) => {
            lemma_lines_ok(rings@);
            if let Geometry::MultiLineString(ls) = f.geometry {
                assert(forall|k: int|
                    0 <= k < ls@.len() ==> (#[trigger] ls@[k])@ == lines_view(ls)[k]);
            }
        },
        RawGeometry::MultiPolygon(polys) => {
            lemma_poly_lines_ok(polys@);
            if let Geometry::MultiLineString(ls) = f.geometry {
                assert(forall|k: int|
                    0 <= k < ls@.len() ==> (#[trigger] ls@[k])@ == lines_view(ls)[k]);
            }
        },
        RawGeometry::Unsupported => {},
    }
}

/// Law: a topology parsed from a feature collection contains only in-range
/// coordinates; no invalid coordinate can reach the renderer through it.
pub proof fn lemma_parsed_topology_ok(fs: Seq<RawFeature>, t: WorldTopology)
    requires
        t.features@.len() == kept_geometries(fs).len(),
        forall|i: int|
            0 <= i < t.features@.len() ==> feature_matches(
                kept_geometries(fs)[i],
                #[trigger] t.features@[i],
            ),
    ensures
        topology_ok(t),
{
    assert forall|i: int| 0 <= i < t.features@.len() implies geometry_ok(
        (#[trigger] t.features@[i]).geometry,
    ) by {
        lemma_parsed_feature_ok(kept_geometries(fs)[i], t.features@[i]);
    }
}

/// Converts the raw positions of one line, dropping malformed positions
/// individually.
fn points_of(line: &Vec<Vec<i64>>) -> (r: Vec<GeoCoord>)
    ensures
        r@ == spec_points(line@),
{
    let mut out: Vec<GeoCoord> = Vec::new();
    let n = line.len();
    let mut i: usize = 0;
    proof {
        assert(line@.subrange(0, 0) =~= Seq::<Vec<i64>>::empty());
        assert(out@ =~= spec_points(line@.subrange(0, 0)));
    }
    while i < n
        invariant
            i <= n,
            n == line@.len(),
            out@ == spec_points(line@.subrange(0, i as int)),
        decreases n - i,
    {
        let pos = &line[i];
        if pos.len() >= 2 {
            match GeoCoord::new(pos[1], pos[0]) {
                Ok(c) => out.push(c),
                Err(_) => {},
            }
        }
        i += 1;
        proof {
            let pre = line@.subrange(0, i as int);
            assert(pre.drop_last() =~= line@.subrange(0, i - 1));
            assert(pre.last() == line@[i - 1]);
        }
    }
    proof {
        assert(line@.subrange(0, n as int) =~= line@);
    }
    out
}

/// Converts a list of raw lines, line by line.
fn lines_of(lines: &Vec<Vec<Vec<i64>>>) -> (r: Vec<Vec<GeoCoord>>)
    ensures
        lines_view(r) == spec_lines(lines@),
{
    let mut out: Vec<Vec<GeoCoord>> = Vec::new();
    let n = lines.len();
    let mut i: usize = 0;
    proof {
        assert(lines@.subrange(0, 0) =~= Seq::<Vec<Vec<i64>>>::empty());
        assert(lines_view(out) =~= spec_lines(lines@.subrange(0, 0)));
    }
    while i < n
        invariant
            i <= n,
            n == lines@.len(),
            lines_view(out) == spec_lines(lines@.subrange(0, i as int)),
        decreases n - i,
    {
        let ghost prev = out@;
        let pts = points_of(&lines[i]);
        out.push(pts);
        i += 1;
        proof {
            let pre = lines@.subrange(0, i as int);
            assert(pre.drop_last() =~= lines@.subrange(0, i - 1));
            assert(pre.last() == lines@[i - 1]);
            assert(lines_view(out) =~= spec_lines(lines@.subrange(0, i - 1)) + seq![
                spec_points(lines@[i - 1]@),
            ]);
        }
    }
    proof {
        assert(lines@.subrange(0, n as int) =~= lines@);
    }
    out
}

/// Total line count of a normalized geometry: one for a line string, one per
/// line for a multi-line-string.
pub open spec fn spec_geometry_line_count(g: Geometry) -> int {
    match g {
        Geometry::LineString(_) => 1,
        Geometry::MultiLineString(ls) => ls@.len() as int,
    }
}

/// Total line count of a sequence of features.
pub open spec fn spec_line_count(fs: Seq<Feature>) -> int
    decreases fs.len(),
{
    if fs.len() == 0 {
        0
    } else {
        spec_line_count(fs.drop_last()) + spec_geometry_line_count(fs.last().geometry)
    }
}

/// Total point count of a list of lines.
pub open spec fn spec_total_points(ls: Seq<Vec<GeoCoord>>) -> int
    decreases ls.len(),
{
    if ls.len() == 0 {
        0
    } else {
        spec_total_points(ls.drop_last()) + ls.last()@.len()
    }
}

/// Total point count of a normalized geometry.
pub open spec fn spec_geometry_point_count(g: Geometry) -> int {
    match g {
        Geometry::LineString(pts) => pts@.len() as int,
        Geometry::MultiLineString(ls) => spec_total_points(ls@),
    }
}

/// Total point count of a sequence of features.
pub open spec fn spec_point_count(fs: Seq<Feature>) -> int
    decreases fs.len(),
{
    if fs.len() == 0 {
        0
    } else {
        spec_point_count(fs.drop_last()) + spec_geometry_point_count(fs.last().geometry)
    }
}

/// Line counts are never negative.
proof fn lemma_line_count_nonneg(fs: Seq<Feature>)
    ensures
        spec_line_count(fs) >= 0,
    decreases fs.len(),
{
    if fs.len() > 0 {
        lemma_line_count_nonneg(fs.drop_last());
    }
}

/// Point counts of line lists are never negative.
proof fn lemma_total_points_nonneg(ls: Seq<Vec<GeoCoord>>)
    ensures
        spec_total_points(ls) >= 0,
    decreases ls.len(),
{
    if ls.len() > 0 {
        lemma_total_points_nonneg(ls.drop_last());
    }
}

/// Point counts are never negative.
proof fn lemma_point_count_nonneg(fs: Seq<Feature>)
    ensures
        spec_point_count(fs) >= 0,
    decreases fs.len(),
{
    if fs.len() > 0 {
        lemma_point_count_nonneg(fs.drop_last());
        match fs.last().geometry {
            Geometry::LineString(_) => {},
            Geometry::MultiLineString(ls) => {
                lemma_total_points_nonneg(ls@);
            },
        }
    }
}

/// Adds with saturation at the largest machine value.
fn sat_add(a: usize, b: usize) -> (r: usize)
    ensures
        a + b <= usize::MAX ==> r == a + b,
        a + b > usize::MAX ==> r == usize::MAX,
{
    if a > usize::MAX - b {
        usize::MAX
    } else {
        a + b
    }
}

/// Point count of one normalized geometry, saturating at the largest
/// machine value.
fn geometry_point_count(g: &Geometry) -> (r: usize)
    ensures
        spec_geometry_point_count(*g) <= usize::MAX ==> r == spec_geometry_point_count(*g),
        spec_geometry_point_count(*g) > usize::MAX ==> r == usize::MAX,
{
    match g {
        Geometry::LineString(pts) => pts.len(),
        Geometry::MultiLineString(ls) => {
            let mut acc: usize = 0;
            let n = ls.len();
            let mut i: usize = 0;
            proof {
                assert(ls@.subrange(0, 0) =~= Seq::<Vec<GeoCoord>>::empty());
            }
            while i < n
                invariant
                    i <= n,
                    n == ls@.len(),
                    spec_total_points(ls@.subrange(0, i as int)) <= usize::MAX ==> acc
                        == spec_total_points(ls@.subrange(0, i as int)),
                    spec_total_points(ls@.subrange(0, i as int)) > usize::MAX ==> acc
                        == usize::MAX,
                decreases n - i,
            {
                acc = sat_add(acc, ls[i].len());
                i += 1;
                proof {
                    let pre = ls@.subrange(0, i as int);
                    assert(pre.drop_last() =~= ls@.subrange(0, i - 1));
                    assert(pre.last() == ls@[i - 1]);
                    lemma_total_points_nonneg(ls@.subrange(0, i - 1));
                }
            }
            proof {
                assert(ls@.subrange(0, n as int) =~= ls@);
            }
            acc
        },
    }
}

impl WorldTopology {
    /// Normalizes one raw geometry into a feature.
    ///
    /// Every supported kind parses; polygon kinds are folded ring by ring
    /// into a multi-line-string. An unsupported kind fails with
    /// `CoreError::TopologyParseError`.
    pub fn parse_geometry(geometry: &RawGeometry) -> (r: Result<Feature, CoreError>)
        ensures
            !(geometry is Unsupported) ==> (r matches Ok(f) && feature_matches(*geometry, f)),
            geometry is Unsupported ==> (r matches Err(e) && e matches
                CoreError::TopologyParseError { details } && details@
                == "Unsupported geometry type"@),
    {
        match geometry {
            RawGeometry::LineString(coords) => Ok(
                Feature { geometry: Geometry::LineString(points_of(coords)) },
            ),
            RawGeometry::MultiLineString(lines) => Ok(
                Feature { geometry: Geometry::MultiLineString(lines_of(lines)) },
            ),
            RawGeometry::Polygon(rings) => Ok(
                Feature { geometry: Geometry::MultiLineString(lines_of(rings)) },
            ),
            RawGeometry::MultiPolygon(polys) => {
                let mut multi: Vec<Vec<GeoCoord>> = Vec::new();
                let n = polys.len();
                let mut i: usize = 0;
                proof {
                    assert(polys@.subrange(0, 0) =~= Seq::<Vec<Vec<Vec<i64>>>>::empty());
                    assert(lines_view(multi) =~= spec_poly_lines(polys@.subrange(0, 0)));
                }
                while i < n
                    invariant
                        i <= n,
                        n == polys@.len(),
                        lines_view(multi) == spec_poly_lines(polys@.subrange(0, i as int)),
                    decreases n - i,
                {
                    let ghost prev = multi@;
                    let mut ringlines = lines_of(&polys[i]);
                    let ghost added = ringlines@;
                    multi.append(&mut ringlines);
                    i += 1;
                    proof {
                        let pre = polys@.subrange(0, i as int);
                        assert(pre.drop_last() =~= polys@.subrange(0, i - 1));
                        assert(pre.last() == polys@[i - 1]);
                        assert((prev + added).map_values(|l: Vec<GeoCoord>| l@)
                            =~= prev.map_values(|l: Vec<GeoCoord>| l@) + added.map_values(
                            |l: Vec<GeoCoord>| l@,
                        ));
                    }
                }
                proof {
                    assert(polys@.subrange(0, n as int) =~= polys@);
                }
                Ok(Feature { geometry: Geometry::MultiLineString(multi) })
            },
            RawGeometry::Unsupported => Err(
                CoreError::TopologyParseError { details: "Unsupported geometry type".to_owned() },
            ),
        }
    }

    /// Parses a raw topology payload.
    ///
    /// A feature collection always parses: each feature's geometry, when
    /// present and of a supported kind, is normalized in order, and the rest
    /// are dropped. Any other top-level shape fails with
    /// `CoreError::TopologyParseError`.
    pub fn from_payload(payload: &RawPayload) -> (r: Result<WorldTopology, CoreError>)
        ensures
            payload matches RawPayload::FeatureCollection(fs) ==> (r matches Ok(t) && t.features@
                .len() == kept_geometries(fs@).len() && (forall|i: int|
                0 <= i < t.features@.len() ==> feature_matches(
                    kept_geometries(fs@)[i],
                    #[trigger] t.features@[i],
                ))),
            payload is Other ==> (r matches Err(e) && e matches CoreError::TopologyParseError {
                details } && details@ == "Expected FeatureCollection"@),
    {
        match payload {
            RawPayload::FeatureCollection(fs) => {
                let mut out: Vec<Feature> = Vec::new();
                let n = fs.len();
                let mut i: usize = 0;
                proof {
                    assert(fs@.subrange(0, 0) =~= Seq::<RawFeature>::empty());
                }
                while i < n
                    invariant
                        i <= n,
                        n == fs@.len(),
                        out@.len() == kept_geometries(fs@.subrange(0, i as int)).len(),
                        forall|j: int|
                            0 <= j < out@.len() ==> feature_matches(
                                kept_geometries(fs@.subrange(0, i as int))[j],
                                #[trigger] out@[j],
                            ),
                    decreases n - i,
                {
                    match &fs[i].geometry {
                        Some(g) => {
                            match Self::parse_geometry(g) {
                                Ok(f) => out.push(f),
                                Err(_) => {},
                            }
                        },
                        None => {},
                    }
                    i += 1;
                    proof {
                        let pre = fs@.subrange(0, i as int);
                        assert(pre.drop_last() =~= fs@.subrange(0, i - 1));
                        assert(pre.last() == fs@[i - 1]);
                    }
                }
                proof {
                    assert(fs@.subrange(0, n as int) =~= fs@);
                }
                Ok(WorldTopology { features: out })
            },
            RawPayload::Other => Err(
                CoreError::TopologyParseError { details: "Expected FeatureCollection".to_owned() },
            ),
        }
    }

    /// Total number of line strings in the topology: one per line string
    /// feature plus the line count of each multi-line-string. Saturates at
    /// the largest machine value.
    pub fn line_count(&self) -> (r: usize)
        ensures
            spec_line_count(self.features@) <= usize::MAX ==> r == spec_line_count(
                self.features@,
            ),
            spec_line_count(self.features@) > usize::MAX ==> r == usize::MAX,
    {
        let mut acc: usize = 0;
        let n = self.features.len();
        let mut i: usize = 0;
        proof {
            assert(self.features@.subrange(0, 0) =~= Seq::<Feature>::empty());
        }
        while i < n
            invariant
                i <= n,
                n == self.features@.len(),
                spec_line_count(self.features@.subrange(0, i as int)) <= usize::MAX ==> acc
                    == spec_line_count(self.features@.subrange(0, i as int)),
                spec_line_count(self.features@.subrange(0, i as int)) > usize::MAX ==> acc
                    == usize::MAX,
            decreases n - i,
        {
            let c: usize = match &self.features[i].geometry {
                Geometry::LineString(_) => 1,
                Geometry::MultiLineString(ls) => ls.len(),
            };
            acc = sat_add(acc, c);
            i += 1;
            proof {
                let pre = self.features@.subrange(0, i as int);
                assert(pre.drop_last() =~= self.features@.subrange(0, i - 1));
                assert(pre.last() == self.features@[i - 1]);
                lemma_line_count_nonneg(self.features@.subrange(0, i - 1));
            }
        }
        proof {
            assert(self.features@.subrange(0, n as int) =~= self.features@);
        }
        acc
    }

    /// Total number of coordinate points in the topology, summed
    /// analogously. Saturates at the largest machine value.
    pub fn point_count(&self) -> (r: usize)
        ensures
            spec_point_count(self.features@) <= usize::MAX ==> r == spec_point_count(
                self.features@,
            ),
            spec_point_count(self.features@) > usize::MAX ==> r == usize::MAX,
    {
        let mut acc: usize = 0;
        let n = self.features.len();
        let mut i: usize = 0;
        proof {
            assert(self.features@.subrange(0, 0) =~= Seq::<Feature>::empty());
        }
        while i < n
            invariant
                i <= n,
                n == self.features@.len(),
                spec_point_count(self.features@.subrange(0, i as int)) <= usize::MAX ==> acc
                    == spec_point_count(self.features@.subrange(0, i as int)),
                spec_point_count(self.features@.subrange(0, i as int)) > usize::MAX ==> acc
                    == usize::MAX,
            decreases n - i,
        {
            let c = geometry_point_count(&self.features[i].geometry);
            acc = sat_add(acc, c);
            i += 1;
            proof {
                let pre = self.features@.subrange(0, i as int);
                assert(pre.drop_last() =~= self.features@.subrange(0, i - 1));
                assert(pre.last() == self.features@[i - 1]);
                lemma_point_count_nonneg(self.features@.subrange(0, i - 1));
                match self.features@[i - 1].geometry {
                    Geometry::LineString(_) => {},
                    Geometry::MultiLineString(ls) => {
                        lemma_total_points_nonneg(ls@);
                    },
                }
            }
        }
        proof {
            assert(self.features@.subrange(0, n as int) =~= self.features@);
        }
        acc
    }
}

} // verus!
