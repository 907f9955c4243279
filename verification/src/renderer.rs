//! Basemap vertex building: flattening a topology into a static line-list
//! vertex array.
//!
//! Every consecutive pair of points in every line (a line string, or each
//! line of a multi-line-string) contributes one segment of four values: the
//! two endpoints' x and y subpixel positions, in order. The host uploads the
//! resulting array once per construction or resize and draws it unchanged
//! every frame. Lines already projected by another projection can be
//! flattened with [`build_vertices_projected`].

use crate::projection::{
    spec_project_x, spec_project_y, EquirectangularProjection, GeoCoord, ProjectedCoord,
};
use crate::topology::{line_ok, topology_ok, Geometry, WorldTopology};
use vstd::prelude::*;

verus! {

/// The screen point the projection maps a coordinate to.
pub open spec fn spec_projected(proj: EquirectangularProjection, c: GeoCoord) -> ProjectedCoord {
    ProjectedCoord {
        x: spec_project_x(proj.spec_width(), c.lon as int) as u64,
        y: spec_project_y(proj.spec_height(), c.lat as int) as u64,
    }
}

/// A whole line mapped through the projection.
pub open spec fn spec_project_line(proj: EquirectangularProjection, pts: Seq<GeoCoord>) -> Seq<
    ProjectedCoord,
> {
    pts.map_values(|c: GeoCoord| spec_projected(proj, c))
}

/// The vertex values of the first `k` segments of a projected line: for each
/// consecutive pair, both endpoints' x and y.
pub open spec fn spec_segments(pts: Seq<ProjectedCoord>, k: int) -> Seq<u64>
    recommends
        k < pts.len(),
    decreases k,
{
    if k <= 0 {
        Seq::empty()
    } else {
        spec_segments(pts, k - 1) + seq![pts[k - 1].x, pts[k - 1].y, pts[k].x, pts[k].y]
    }
}

/// The vertex values of all segments of a projected line.
pub open spec fn spec_line_vertices(pts: Seq<ProjectedCoord>) -> Seq<u64> {
    spec_segments(pts, pts.len() - 1)
}

/// The vertex values of a list of projected lines, concatenated in order.
pub open spec fn spec_lines_vertices(lines: Seq<Vec<ProjectedCoord>>) -> Seq<u64>
    decreases lines.len(),
{
    if lines.len() == 0 {
        Seq::empty()
    } else {
        spec_lines_vertices(lines.drop_last()) + spec_line_vertices(lines.last()@)
    }
}

/// The vertex values of a list of geographic lines under the projection.
pub open spec fn spec_multi_vertices(proj: EquirectangularProjection, ls: Seq<Vec<GeoCoord>>)
    -> Seq<u64>
    decreases ls.len(),
{
    if ls.len() == 0 {
        Seq::empty()
    } else {
        spec_multi_vertices(proj, ls.drop_last()) + spec_line_vertices(
            spec_project_line(proj, ls.last()@),
        )
    }
}

/// The vertex values of one feature's geometry under the projection.
pub open spec fn spec_feature_vertices(proj: EquirectangularProjection, g: Geometry) -> Seq<u64> {
    match g {
        Geometry::LineString(pts) => spec_line_vertices(spec_project_line(proj, pts@)),
        Geometry::MultiLineString(ls) => spec_multi_vertices(proj, ls@),
    }
}

/// The full basemap vertex array of a topology under the projection.
pub open spec fn spec_build_vertices(
    proj: EquirectangularProjection,
    fs: Seq<crate::topology::Feature>,
) -> Seq<u64>
    decreases fs.len(),
{
    if fs.len() == 0 {
        Seq::empty()
    } else {
        spec_build_vertices(proj, fs.drop_last()) + spec_feature_vertices(
            proj,
            fs.last().geometry,
        )
    }
}

/// Projects a whole line of coordinates.
fn project_line(projection: &EquirectangularProjection, points: &Vec<GeoCoord>) -> (r: Vec<
    ProjectedCoord,
>)
    requires
        projection.wf(),
        line_ok(points@),
    ensures
        r@ == spec_project_line(*projection, points@),
{
    let mut out: Vec<ProjectedCoord> = Vec::new();
    let n = points.len();
    let mut i: usize = 0;
    proof {
        assert(out@ =~= spec_project_line(*projection, points@.subrange(0, 0)));
    }
    while i < n
        invariant
            i <= n,
            n == points@.len(),
            projection.wf(),
            line_ok(points@),
            out@ == spec_project_line(*projection, points@.subrange(0, i as int)),
        decreases n - i,
    {
        assert(points@[i as int].valid());
        let p = projection.project(points[i]);
        out.push(p);
        i += 1;
        proof {
            assert(out@ =~= spec_project_line(*projection, points@.subrange(0, i as int)));
        }
    }
    proof {
        assert(points@.subrange(0, n as int) =~= points@);
    }
    out
}

/// Appends the segment vertices of one already-projected line: one pair of
/// endpoints per consecutive point pair.
fn add_projected_line(vertices: &mut Vec<u64>, points: &Vec<ProjectedCoord>)
    ensures
        final(vertices)@ == old(vertices)@ + spec_line_vertices(points@),
{
    let n = points.len();
    let mut i: usize = 0;
    while i + 1 < n
        invariant
            n == points@.len(),
            n == 0 ==> i == 0,
            n > 0 ==> i <= n - 1,
            vertices@ == old(vertices)@ + spec_segments(points@, i as int),
        decreases n - i,
    {
        let p1 = points[i];
        let p2 = points[i + 1];
        vertices.push(p1.x);
        vertices.push(p1.y);
        vertices.push(p2.x);
        vertices.push(p2.y);
        i += 1;
        proof {
            assert(vertices@ =~= old(vertices)@ + spec_segments(points@, i as int));
        }
    }
}

/// Appends the segment vertices of one geographic line under the projection.
fn add_line(
    vertices: &mut Vec<u64>,
    points: &Vec<GeoCoord>,
    projection: &EquirectangularProjection,
)
    requires
        projection.wf(),
        line_ok(points@),
    ensures
        final(vertices)@ == old(vertices)@ + spec_line_vertices(
            spec_project_line(*projection, points@),
        ),
{
    let projected = project_line(projection, points);
    add_projected_line(vertices, &projected);
}

/// Flattens a whole topology into the static basemap vertex array under the
/// projection: each line contributes one segment per consecutive point pair,
/// features in order.
pub fn build_vertices(topology: &WorldTopology, projection: &EquirectangularProjection) -> (r: Vec<
    u64,
>)
    requires
        projection.wf(),
        topology_ok(*topology),
    ensures
        r@ == spec_build_vertices(*projection, topology.features@),
{
    let mut vertices: Vec<u64> = Vec::new();
    let n = topology.features.len();
    let mut i: usize = 0;
    proof {
        assert(topology.features@.subrange(0, 0) =~= Seq::<crate::topology::Feature>::empty());
        assert(vertices@ =~= spec_build_vertices(*projection, topology.features@.subrange(0, 0)));
    }
    while i < n
        invariant
            i <= n,
            n == topology.features@.len(),
            projection.wf(),
            topology_ok(*topology),
            vertices@ == spec_build_vertices(
                *projection,
                topology.features@.subrange(0, i as int),
            ),
        decreases n - i,
    {
        assert(crate::topology::geometry_ok(topology.features@[i as int].geometry));
        match &topology.features[i].geometry {
            Geometry::LineString(pts) => {
                add_line(&mut vertices, pts, projection);
            },
            Geometry::MultiLineString(ls) => {
                let m = ls.len();
                let mut k: usize = 0;
                let ghost base = vertices@;
                proof {
                    assert(ls@.subrange(0, 0) =~= Seq::<Vec<GeoCoord>>::empty());
                    assert(vertices@ =~= base + spec_multi_vertices(
                        *projection,
                        ls@.subrange(0, 0),
                    ));
                }
                while k < m
                    invariant
                        k <= m,
                        m == ls@.len(),
                        projection.wf(),
                        forall|j: int| 0 <= j < ls@.len() ==> line_ok((#[trigger] ls@[j])@),
                        vertices@ == base + spec_multi_vertices(
                            *projection,
                            ls@.subrange(0, k as int),
                        ),
                    decreases m - k,
                {
                    add_line(&mut vertices, &ls[k], projection);
                    k += 1;
                    proof {
                        let pre = ls@.subrange(0, k as int);
                        assert(pre.drop_last() =~= ls@.subrange(0, k - 1));
                        assert(pre.last() == ls@[k - 1]);
                    }
                }
                proof {
                    assert(ls@.subrange(0, m as int) =~= ls@);
                }
            },
        }
        i += 1;
        proof {
            let pre = topology.features@.subrange(0, i as int);
            assert(pre.drop_last() =~= topology.features@.subrange(0, i - 1));
            assert(pre.last() == topology.features@[i - 1]);
        }
    }
    proof {
        assert(topology.features@.subrange(0, n as int) =~= topology.features@);
    }
    vertices
}

/// Flattens lines already projected by any projection into the basemap
/// vertex array: each line contributes one segment per consecutive point
/// pair, lines in order.
pub fn build_vertices_projected(lines: &Vec<Vec<ProjectedCoord>>) -> (r: Vec<u64>)
    ensures
        r@ == spec_lines_vertices(lines@),
{
    let mut vertices: Vec<u64> = Vec::new();
    let n = lines.len();
    let mut i: usize = 0;
    proof {
        assert(lines@.subrange(0, 0) =~= Seq::<Vec<ProjectedCoord>>::empty());
        assert(vertices@ =~= spec_lines_vertices(lines@.subrange(0, 0)));
    }
    while i < n
        invariant
            i <= n,
            n == lines@.len(),
            vertices@ == spec_lines_vertices(lines@.subrange(0, i as int)),
        decreases n - i,
    {
        add_projected_line(&mut vertices, &lines[i]);
        i += 1;
        proof {
            let pre = lines@.subrange(0, i as int);
            assert(pre.drop_last() =~= lines@.subrange(0, i - 1));
            assert(pre.last() == lines@[i - 1]);
        }
    }
    proof {
        assert(lines@.subrange(0, n as int) =~= lines@);
    }
    vertices
}

} // verus!
