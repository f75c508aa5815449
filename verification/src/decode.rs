//! The result decoder: turns the engine's raw output back into shapes.
//!
//! The engine returns a flat collection of polygons, each a flat run of
//! paths, each a vertex run, with no metadata beyond path order.  Decoding
//! keeps every vertex run exactly as returned — no reversal, no
//! deduplication, no re-closing — and only regroups: as polygons (first path
//! exterior, later paths holes) or as one flat line collection.

use vstd::prelude::*;

use crate::descriptors::{closed_ring_vertices, PathDescView, PolygonDescView, PolyType};
use crate::descriptors::polygon_descriptor_views;
use crate::shapes::{
    views_of, Coordinate, LineString, MultiLineString, MultiPolygon, Polygon, PolygonView,
};

verus! {

/// One polygon of the engine's raw output: a run of vertex runs in the
/// order the engine produced them.
#[derive(Clone, Debug, PartialEq, Eq)]
pub struct RawPolygon {
    pub paths: Vec<LineString>,
}

impl View for RawPolygon {
    type V = Seq<Seq<Coordinate>>;

    open spec fn view(&self) -> Seq<Seq<Coordinate>> {
        views_of(self.paths@)
    }
}

/// The polygon one raw polygon decodes to: its first path is the exterior
/// ring, every later path is a hole ring, in returned order.
pub open spec fn decoded_polygon(paths: Seq<Seq<Coordinate>>) -> PolygonView
    recommends
        paths.len() > 0,
{
    PolygonView { exterior: paths[0], interiors: paths.drop_first() }
}

/// The polygons a raw result decodes to: one per raw polygon with at least
/// one path, in returned order; raw polygons with no paths are dropped.
pub open spec fn decoded_polygons(raw: Seq<Seq<Seq<Coordinate>>>) -> Seq<PolygonView>
    decreases raw.len(),
{
    if raw.len() == 0 {
        Seq::empty()
    } else {
        let rest = decoded_polygons(raw.drop_last());
        if raw.last().len() > 0 {
            rest.push(decoded_polygon(raw.last()))
        } else {
            rest
        }
    }
}

/// The flat line collection a raw result decodes to: every path of every
/// raw polygon, in polygon order then path order; grouping is discarded.
pub open spec fn flattened_paths(raw: Seq<Seq<Seq<Coordinate>>>) -> Seq<Seq<Coordinate>>
    decreases raw.len(),
{
    if raw.len() == 0 {
        Seq::empty()
    } else {
        flattened_paths(raw.drop_last()) + raw.last()
    }
}

/// Copies one vertex run unchanged.
fn copy_line_string(ls: &LineString) -> (r: LineString)
    ensures
        r@ == ls@,
{
    let n = ls.0.len();
    let mut points: Vec<Coordinate> = Vec::new();
    let mut i: usize = 0;
    while i < n
        invariant
            n == ls.0.len(),
            i <= n,
            points@ == ls@.subrange(0, i as int),
        decreases n - i,
    {
        points.push(ls.0[i]);
        proof {
            assert(ls@.subrange(0, i as int).push(ls@[i as int])
                =~= ls@.subrange(0, i + 1 as int));
        }
        i = i + 1;
    }
    proof {
        assert(ls@.subrange(0, n as int) =~= ls@);
    }
    LineString(points)
}

/// Decodes a raw result as a multi-polygon: each raw polygon with at least
/// one path becomes one polygon, its first path the exterior and the rest
/// holes; raw polygons with no paths are dropped silently.
pub fn decode_multi_polygon(raw: &Vec<RawPolygon>) -> (r: MultiPolygon)
    ensures
        r@ == decoded_polygons(views_of(raw@)),
{
    let ghost rv = views_of(raw@);
    let n = raw.len();
    let mut out: Vec<Polygon> = Vec::new();
    let mut i: usize = 0;
    while i < n
        invariant
            n == raw@.len(),
            i <= n,
            rv == views_of(raw@),
            views_of(out@) =~~= decoded_polygons(rv.subrange(0, i as int)),
        decreases n - i,
    {
        let ghost prev = out@;
        let rp = &raw[i];
        let m = rp.paths.len();
        if m > 0 {
            let exterior = copy_line_string(&rp.paths[0]);
            let mut interiors: Vec<LineString> = Vec::new();
            let mut j: usize = 1;
            while j < m
                invariant
                    m == rp.paths.len(),
                    1 <= j <= m,
                    views_of(interiors@) =~~= views_of(rp.paths@).subrange(1, j as int),
                decreases m - j,
            {
                let ghost prev_interiors = interiors@;
                interiors.push(copy_line_string(&rp.paths[j]));
                proof {
                    assert(views_of(interiors@)
                        =~= views_of(prev_interiors).push(interiors@.last()@));
                    assert(interiors@.last()@ == views_of(rp.paths@)[j as int]);
                    assert(views_of(prev_interiors).push(views_of(rp.paths@)[j as int])
                        =~~= views_of(rp.paths@).subrange(1, j + 1 as int));
                }
                j = j + 1;
            }
            let polygon = Polygon { exterior, interiors };
            proof {
                assert(views_of(rp.paths@).subrange(1, m as int) =~= rp@.drop_first());
                assert(polygon@ =~~= decoded_polygon(rv[i as int]));
            }
            out.push(polygon);
        }
        proof {
            assert(rv.subrange(0, i + 1 as int).drop_last() =~= rv.subrange(0, i as int));
            assert(rv.subrange(0, i + 1 as int).last() == rv[i as int]);
            if rp.paths.len() > 0 {
                assert(views_of(out@) =~~= views_of(prev).push(decoded_polygon(rv[i as int])));
            }
            assert(views_of(out@) =~~= decoded_polygons(rv.subrange(0, i + 1 as int)));
        }
        i = i + 1;
    }
    proof {
        assert(rv.subrange(0, n as int) =~= rv);
    }
    MultiPolygon(out)
}

/// Decodes a raw result as a flat line collection: every path of every raw
/// polygon, in polygon order then path order.
pub fn decode_multi_line_string(raw: &Vec<RawPolygon>) -> (r: MultiLineString)
    ensures
        r@ == flattened_paths(views_of(raw@)),
{
    let ghost rv = views_of(raw@);
    let n = raw.len();
    let mut out: Vec<LineString> = Vec::new();
    let mut i: usize = 0;
    while i < n
        invariant
            n == raw@.len(),
            i <= n,
            rv == views_of(raw@),
            views_of(out@) =~~= flattened_paths(rv.subrange(0, i as int)),
        decreases n - i,
    {
        let rp = &raw[i];
        let m = rp.paths.len();
        let mut j: usize = 0;
        while j < m
            invariant
                m == rp.paths.len(),
                j <= m,
                rv == views_of(raw@),
                n == raw@.len(),
                i < n,
                rp == &raw[i as int],
                views_of(out@) =~~= flattened_paths(rv.subrange(0, i as int))
                    + views_of(rp.paths@).subrange(0, j as int),
            decreases m - j,
        {
            let ghost prev_out = out@;
            out.push(copy_line_string(&rp.paths[j]));
            proof {
                assert(views_of(out@) =~= views_of(prev_out).push(out@.last()@));
                assert(out@.last()@ == views_of(rp.paths@)[j as int]);
                assert(views_of(prev_out).push(views_of(rp.paths@)[j as int])
                    =~~= flattened_paths(rv.subrange(0, i as int))
                        + views_of(rp.paths@).subrange(0, j + 1 as int));
            }
            j = j + 1;
        }
        proof {
            assert(views_of(rp.paths@).subrange(0, m as int) =~= rv[i as int]);
            assert(rv.subrange(0, i + 1 as int).drop_last() =~= rv.subrange(0, i as int));
            assert(rv.subrange(0, i + 1 as int).last() == rv[i as int]);
            assert(views_of(out@) =~~= flattened_paths(rv.subrange(0, i + 1 as int)));
        }
        i = i + 1;
    }
    proof {
        assert(rv.subrange(0, n as int) =~= rv);
    }
    MultiLineString(out)
}

/// The vertex runs of one descriptor's paths, as the engine would see them.
pub open spec fn path_vertex_runs(paths: Seq<PathDescView>) -> Seq<Seq<Coordinate>> {
    Seq::new(paths.len(), |i: int| paths[i].vertices)
}

/// The vertex runs of a whole descriptor list.
pub open spec fn descriptor_vertex_runs(descs: Seq<PolygonDescView>) -> Seq<Seq<Seq<Coordinate>>> {
    Seq::new(descs.len(), |i: int| path_vertex_runs(descs[i].paths))
}

/// One polygon with every ring's stored duplicate closing point elided.
pub open spec fn elided_polygon_view(p: PolygonView) -> PolygonView {
    PolygonView {
        exterior: closed_ring_vertices(p.exterior),
        interiors: Seq::new(p.interiors.len(), |i: int| closed_ring_vertices(p.interiors[i])),
    }
}

/// Round trip law: building descriptors from a run of polygons and reading
/// the descriptors' vertex runs back through the polygon decoder reproduces
/// every polygon, with each ring's duplicate closing point elided and every
/// remaining vertex kept in order.
pub proof fn lemma_round_trip(polygons: Seq<PolygonView>, poly_type: PolyType)
    ensures
        decoded_polygons(descriptor_vertex_runs(polygon_descriptor_views(polygons, poly_type)))
            == Seq::new(polygons.len(), |i: int| elided_polygon_view(polygons[i])),
    decreases polygons.len(),
{
    let descs = polygon_descriptor_views(polygons, poly_type);
    let runs = descriptor_vertex_runs(descs);
    let expected = Seq::new(polygons.len(), |i: int| elided_polygon_view(polygons[i]));
    if polygons.len() == 0 {
        assert(decoded_polygons(runs) =~~= expected);
    } else {
        let head = polygons.drop_last();
        lemma_round_trip(head, poly_type);
        assert(runs.drop_last()
            =~~= descriptor_vertex_runs(polygon_descriptor_views(head, poly_type)));
        assert(runs.last().len() > 0);
        assert(decoded_polygon(runs.last()) =~~= elided_polygon_view(polygons.last()));
        assert(decoded_polygons(runs) =~~= expected);
    }
}

} // verus!
