//! Geometry model and the bounding-box extractor.
//!
//! Coordinates are plain fixed-point integers: a degree value scaled by a
//! constant factor the caller picks once (the surrounding binary uses
//! microdegrees). The extractor only compares and selects coordinates, so any
//! order-preserving encoding gives the same bounding box.

use vstd::prelude::*;
use crate::error::SearchError;

verus! {

/// One vertex of a ring, as fixed-point scaled degrees.
#[derive(Clone, Copy, Debug, PartialEq, Eq, Structural)]
pub struct Coord {
    pub x: i64,
    pub y: i64,
}

impl DeepView for Coord {
    type V = Coord;

    open spec fn deep_view(&self) -> Coord {
        *self
    }
}

/// A polygon: one exterior ring and zero or more interior rings (holes).
#[derive(Clone, Debug)]
pub struct Polygon {
    pub exterior: Vec<Coord>,
    pub holes: Vec<Vec<Coord>>,
}

/// An input geometry. Only polygons carry data: the search logic rejects
/// every other kind, so nothing of their content is ever read.
#[derive(Clone, Debug)]
pub enum Geometry {
    Polygon(Polygon),
    Point,
    MultiPoint,
    LineString,
    MultiLineString,
    MultiPolygon,
    GeometryCollection,
}

/// The minimal axis-aligned box `[min_x, min_y, max_x, max_y]` around a
/// polygon, in the same fixed-point encoding as `Coord`.
#[derive(Clone, Copy, Debug, PartialEq, Eq, Structural)]
pub struct BoundingBox {
    pub min_x: i64,
    pub min_y: i64,
    pub max_x: i64,
    pub max_y: i64,
}

/// The smaller of two values.
pub open spec fn spec_min(a: int, b: int) -> int {
    if a < b { a } else { b }
}

/// The larger of two values.
pub open spec fn spec_max(a: int, b: int) -> int {
    if a > b { a } else { b }
}

/// The least x coordinate in a non-empty vertex sequence.
pub open spec fn min_x_of(vs: Seq<Coord>) -> int
    recommends vs.len() > 0,
    decreases vs.len(),
{
    if vs.len() <= 1 { vs[0].x as int } else { spec_min(min_x_of(vs.drop_last()), vs.last().x as int) }
}

/// The greatest x coordinate in a non-empty vertex sequence.
pub open spec fn max_x_of(vs: Seq<Coord>) -> int
    recommends vs.len() > 0,
    decreases vs.len(),
{
    if vs.len() <= 1 { vs[0].x as int } else { spec_max(max_x_of(vs.drop_last()), vs.last().x as int) }
}

/// The least y coordinate in a non-empty vertex sequence.
pub open spec fn min_y_of(vs: Seq<Coord>) -> int
    recommends vs.len() > 0,
    decreases vs.len(),
{
    if vs.len() <= 1 { vs[0].y as int } else { spec_min(min_y_of(vs.drop_last()), vs.last().y as int) }
}

/// The greatest y coordinate in a non-empty vertex sequence.
pub open spec fn max_y_of(vs: Seq<Coord>) -> int
    recommends vs.len() > 0,
    decreases vs.len(),
{
    if vs.len() <= 1 { vs[0].y as int } else { spec_max(max_y_of(vs.drop_last()), vs.last().y as int) }
}

impl Polygon {
    /// Every vertex of the polygon, exterior ring first, then each hole in
    /// order.
    pub open spec fn all_vertices(self) -> Seq<Coord> {
        self.exterior@ + self.holes.deep_view().flatten()
    }
}

impl BoundingBox {
    /// The box holds exactly the coordinate extremes of `vs`.
    pub open spec fn is_bbox_of(self, vs: Seq<Coord>) -> bool {
        &&& vs.len() > 0
        &&& self.min_x == min_x_of(vs)
        &&& self.max_x == max_x_of(vs)
        &&& self.min_y == min_y_of(vs)
        &&& self.max_y == max_y_of(vs)
    }
}

/// Each extreme of a non-empty vertex sequence bounds every vertex and is
/// attained at one of them; in particular each minimum is at most the
/// matching maximum.
pub proof fn lemma_extremes_bound(vs: Seq<Coord>)
    requires
        vs.len() > 0,
    ensures
        forall|i: int| 0 <= i < vs.len() ==> min_x_of(vs) <= (#[trigger] vs[i]).x <= max_x_of(vs),
        forall|i: int| 0 <= i < vs.len() ==> min_y_of(vs) <= (#[trigger] vs[i]).y <= max_y_of(vs),
        exists|i: int| 0 <= i < vs.len() && (#[trigger] vs[i]).x == min_x_of(vs),
        exists|i: int| 0 <= i < vs.len() && (#[trigger] vs[i]).x == max_x_of(vs),
        exists|i: int| 0 <= i < vs.len() && (#[trigger] vs[i]).y == min_y_of(vs),
        exists|i: int| 0 <= i < vs.len() && (#[trigger] vs[i]).y == max_y_of(vs),
        min_x_of(vs) <= max_x_of(vs),
        min_y_of(vs) <= max_y_of(vs),
    decreases vs.len(),
{
    if vs.len() > 1 {
        lemma_extremes_bound(vs.drop_last());
        assert(forall|i: int| 0 <= i < vs.len() - 1 ==> vs[i] == #[trigger] vs.drop_last()[i]);
        assert forall|i: int| 0 <= i < vs.len() implies min_x_of(vs) <= (#[trigger] vs[i]).x
            <= max_x_of(vs) by {
            if i < vs.len() - 1 {
                assert(vs.drop_last()[i] == vs[i]);
            } else {
                assert(vs.last() == vs[i]);
            }
        }
        assert forall|i: int| 0 <= i < vs.len() implies min_y_of(vs) <= (#[trigger] vs[i]).y
            <= max_y_of(vs) by {
            if i < vs.len() - 1 {
                assert(vs.drop_last()[i] == vs[i]);
            } else {
                assert(vs.last() == vs[i]);
            }
        }
        let w = choose|i: int|
            0 <= i < vs.drop_last().len() && (#[trigger] vs.drop_last()[i]).x == min_x_of(
                vs.drop_last(),
            );
        if min_x_of(vs) == min_x_of(vs.drop_last()) {
            assert(vs[w].x == min_x_of(vs));
        } else {
            assert(vs[vs.len() - 1].x == min_x_of(vs));
        }
        let w2 = choose|i: int|
            0 <= i < vs.drop_last().len() && (#[trigger] vs.drop_last()[i]).x == max_x_of(
                vs.drop_last(),
            );
        if max_x_of(vs) == max_x_of(vs.drop_last()) {
            assert(vs[w2].x == max_x_of(vs));
        } else {
            assert(vs[vs.len() - 1].x == max_x_of(vs));
        }
        let w3 = choose|i: int|
            0 <= i < vs.drop_last().len() && (#[trigger] vs.drop_last()[i]).y == min_y_of(
                vs.drop_last(),
            );
        if min_y_of(vs) == min_y_of(vs.drop_last()) {
            assert(vs[w3].y == min_y_of(vs));
        } else {
            assert(vs[vs.len() - 1].y == min_y_of(vs));
        }
        let w4 = choose|i: int|
            0 <= i < vs.drop_last().len() && (#[trigger] vs.drop_last()[i]).y == max_y_of(
                vs.drop_last(),
            );
        if max_y_of(vs) == max_y_of(vs.drop_last()) {
            assert(vs[w4].y == max_y_of(vs));
        } else {
            assert(vs[vs.len() - 1].y == max_y_of(vs));
        }
    } else {
        assert(vs[0].x == min_x_of(vs));
        assert(vs[0].x == max_x_of(vs));
        assert(vs[0].y == min_y_of(vs));
        assert(vs[0].y == max_y_of(vs));
    }
}

/// Narrows the extremes seen so far with one more vertex.
fn fold_vertex(b: BoundingBox, v: Coord, Ghost(seen): Ghost<Seq<Coord>>) -> (r: BoundingBox)
    requires
        b.is_bbox_of(seen),
    ensures
        r.is_bbox_of(seen.push(v)),
{
    proof {
        assert(seen.push(v).drop_last() =~= seen);
        assert(seen.push(v).last() == v);
    }
    BoundingBox {
        min_x: if v.x < b.min_x { v.x } else { b.min_x },
        max_x: if v.x > b.max_x { v.x } else { b.max_x },
        min_y: if v.y < b.min_y { v.y } else { b.min_y },
        max_y: if v.y > b.max_y { v.y } else { b.max_y },
    }
}

/// Extends a bounding box over one more ring of vertices.
fn fold_ring(b: BoundingBox, ring: &Vec<Coord>, Ghost(seen): Ghost<Seq<Coord>>) -> (r: BoundingBox)
    requires
        b.is_bbox_of(seen),
    ensures
        r.is_bbox_of(seen + ring@),
{
    let mut acc = b;
    let ghost mut done: Seq<Coord> = seen;
    for k in 0..ring.len()
        invariant
            acc.is_bbox_of(done),
            done =~= seen + ring@.subrange(0, k as int),
    {
        acc = fold_vertex(acc, ring[k], Ghost(done));
        proof {
            done = done.push(ring@[k as int]);
            assert(done =~= seen + ring@.subrange(0, k + 1));
        }
    }
    proof {
        assert(ring@.subrange(0, ring@.len() as int) =~= ring@);
    }
    acc
}

/// Reduces a polygon to its axis-aligned bounding box: the exact minimum and
/// maximum of the vertex coordinates over the exterior ring and every hole.
/// A degenerate polygon, one whose exterior ring has no vertices, yields
/// `GeometryError`.
pub fn polygon_bbox(p: &Polygon) -> (r: Result<BoundingBox, SearchError>)
    ensures
        match r {
            Ok(b) => p.exterior@.len() > 0 && b.is_bbox_of(p.all_vertices()),
            Err(e) => e == SearchError::GeometryError && p.exterior@.len() == 0,
        },
{
    if p.exterior.len() == 0 {
        return Err(SearchError::GeometryError);
    }
    let first = p.exterior[0];
    let init = BoundingBox { min_x: first.x, max_x: first.x, min_y: first.y, max_y: first.y };
    let ghost seen0: Seq<Coord> = seq![p.exterior@[0]];
    proof {
        assert(init.is_bbox_of(seen0));
    }
    let mut acc = init;
    let ghost mut done: Seq<Coord> = seen0;
    for k in 1..p.exterior.len()
        invariant
            1 <= k <= p.exterior@.len(),
            acc.is_bbox_of(done),
            done =~= p.exterior@.subrange(0, k as int),
    {
        acc = fold_vertex(acc, p.exterior[k], Ghost(done));
        proof {
            done = done.push(p.exterior@[k as int]);
            assert(done =~= p.exterior@.subrange(0, k + 1));
        }
    }
    proof {
        assert(done =~= p.exterior@);
    }
    let ghost mut hseen: Seq<Seq<Coord>> = Seq::empty();
    proof {
        assert(hseen.flatten() =~= Seq::<Coord>::empty());
        assert(p.exterior@ + hseen.flatten() =~= p.exterior@);
    }
    for h in 0..p.holes.len()
        invariant
            acc.is_bbox_of(p.exterior@ + hseen.flatten()),
            hseen =~~= p.holes.deep_view().subrange(0, h as int),
    {
        let ghost before: Seq<Coord> = p.exterior@ + hseen.flatten();
        acc = fold_ring(acc, &p.holes[h], Ghost(before));
        proof {
            let hole: Seq<Coord> = p.holes@[h as int]@;
            assert(p.holes@[h as int].deep_view() =~= hole);
            let prev = hseen;
            hseen = hseen.push(hole);
            assert(hseen =~~= p.holes.deep_view().subrange(0, h + 1));
            prev.lemma_flatten_push(hole);
            assert(before + hole =~= p.exterior@ + hseen.flatten());
        }
    }
    proof {
        assert(hseen =~~= p.holes.deep_view());
        assert(p.exterior@ + hseen.flatten() =~= p.all_vertices()) by {
            assert(hseen.flatten() == p.holes.deep_view().flatten());
        }
    }
    Ok(acc)
}

/// The bounding-box extractor for an arbitrary input geometry: polygons are
/// reduced to their box, everything else is a `GeometryError`.
pub fn extract_bbox(g: &Geometry) -> (r: Result<BoundingBox, SearchError>)
    ensures
        match r {
            Ok(b) => {
                &&& g is Polygon
                &&& g->Polygon_0.exterior@.len() > 0
                &&& b.is_bbox_of(g->Polygon_0.all_vertices())
                &&& b.min_x <= b.max_x
                &&& b.min_y <= b.max_y
            },
            Err(e) => {
                &&& e == SearchError::GeometryError
                &&& (g is Polygon ==> g->Polygon_0.exterior@.len() == 0)
            },
        },
{
    match g {
        Geometry::Polygon(p) => {
            let r = polygon_bbox(p);
            proof {
                if let Ok(b) = r {
                    lemma_extremes_bound(p.all_vertices());
                }
            }
            r
        }
        _ => Err(SearchError::GeometryError),
    }
}

} // verus!
