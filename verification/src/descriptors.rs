//! The owned geometry buffer: flat, engine-ready descriptors built from
//! nested shapes.
//!
//! Each input shape contributes polygon descriptors; a polygon descriptor is
//! a run of path descriptors under one role tag, and a path descriptor is a
//! run of vertices with a closed/open flag.  A closed ring's stored duplicate
//! closing point is elided here: the first stored point is dropped, because
//! the engine's closed flag already supplies the final edge back to it.

use vstd::prelude::*;

use crate::shapes::{
    views_of, Coordinate, LineString, MultiLineString, MultiPolygon, Polygon, PolygonView,
};

verus! {

/// Role tag of a descriptor.  `Subject` marks the left-hand operand of a
/// boolean operation or the sole operand of an offset; `Clip` marks the
/// right-hand operand of a boolean operation.  The engine receives one flat
/// list mixing Subject then Clip descriptors; nothing else tells the two
/// operands apart.
#[derive(Clone, Copy, PartialEq, Eq, Structural, Debug)]
pub enum PolyType {
    Subject,
    Clip,
}

/// A contiguous vertex run handed to the engine, with its closed/open flag.
#[derive(Clone, Debug, PartialEq, Eq)]
pub struct PathDescriptor {
    pub vertices: Vec<Coordinate>,
    pub closed: bool,
}

/// The mathematical value of a path descriptor.
#[verifier::ext_equal]
pub ghost struct PathDescView {
    pub vertices: Seq<Coordinate>,
    pub closed: bool,
}

impl View for PathDescriptor {
    type V = PathDescView;

    open spec fn view(&self) -> PathDescView {
        PathDescView { vertices: self.vertices@, closed: self.closed }
    }
}

/// A run of path descriptors under one role tag: what one closed polygon, or
/// one whole collection of open paths, contributes to an engine call.
#[derive(Clone, Debug, PartialEq, Eq)]
pub struct PolygonDescriptor {
    pub paths: Vec<PathDescriptor>,
    pub poly_type: PolyType,
}

/// The mathematical value of a polygon descriptor.
#[verifier::ext_equal]
pub ghost struct PolygonDescView {
    pub paths: Seq<PathDescView>,
    pub poly_type: PolyType,
}

impl View for PolygonDescriptor {
    type V = PolygonDescView;

    open spec fn view(&self) -> PolygonDescView {
        PolygonDescView { paths: views_of(self.paths@), poly_type: self.poly_type }
    }
}

/// The vertices the engine receives for one closed ring: the stored
/// duplicate closing point is elided by dropping the first stored point.
/// A ring with no points contributes an empty run.
pub open spec fn closed_ring_vertices(ring: Seq<Coordinate>) -> Seq<Coordinate> {
    if ring.len() == 0 {
        ring
    } else {
        ring.drop_first()
    }
}

/// The path descriptor of one closed ring.
pub open spec fn closed_path_view(ring: Seq<Coordinate>) -> PathDescView {
    PathDescView { vertices: closed_ring_vertices(ring), closed: true }
}

/// The path descriptor of one open path: no vertex is dropped.
pub open spec fn open_path_view(path: Seq<Coordinate>) -> PathDescView {
    PathDescView { vertices: path, closed: false }
}

/// The closed path descriptors of a run of rings, in order.
pub open spec fn closed_path_views(rings: Seq<Seq<Coordinate>>) -> Seq<PathDescView> {
    Seq::new(rings.len(), |i: int| closed_path_view(rings[i]))
}

/// The open path descriptors of a run of paths, in order.
pub open spec fn open_path_views(paths: Seq<Seq<Coordinate>>) -> Seq<PathDescView> {
    Seq::new(paths.len(), |i: int| open_path_view(paths[i]))
}

/// The descriptor one polygon contributes: its exterior ring first, then
/// each hole ring in stored order, all closed, under the given role.  Holes
/// keep their stored winding order; no normalization is applied.
pub open spec fn polygon_descriptor_view(p: PolygonView, poly_type: PolyType) -> PolygonDescView {
    PolygonDescView {
        paths: seq![closed_path_view(p.exterior)] + closed_path_views(p.interiors),
        poly_type: poly_type,
    }
}

/// The descriptors a run of polygons contributes, one each, in order.
pub open spec fn polygon_descriptor_views(
    polygons: Seq<PolygonView>,
    poly_type: PolyType,
) -> Seq<PolygonDescView> {
    Seq::new(polygons.len(), |i: int| polygon_descriptor_view(polygons[i], poly_type))
}

/// The single descriptor a collection of open paths contributes: one open
/// path per polyline, in stored order.
pub open spec fn line_strings_descriptor_view(
    paths: Seq<Seq<Coordinate>>,
    poly_type: PolyType,
) -> PolygonDescView {
    PolygonDescView { paths: open_path_views(paths), poly_type: poly_type }
}

/// Elision law: converting a ring that stores its duplicate closing point
/// drops exactly one of the two equal endpoint vertices.  A ring of N stored
/// points yields N - 1 engine vertices, and the run still ends on the value
/// of the ring's first point.
pub proof fn lemma_closing_vertex_elision(ring: Seq<Coordinate>)
    requires
        ring.len() > 0,
        ring.first() == ring.last(),
    ensures
        closed_ring_vertices(ring) == ring.drop_first(),
        closed_ring_vertices(ring).len() == ring.len() - 1,
        ring.len() > 1 ==> closed_ring_vertices(ring).last() == ring.first(),
{
}

/// Exclusively owns the flat descriptors built from one or more input shapes
/// for the duration of a single engine call.
pub struct OwnedPolygon {
    pub polygons: Vec<PolygonDescriptor>,
}

impl View for OwnedPolygon {
    type V = Seq<PolygonDescView>;

    open spec fn view(&self) -> Seq<PolygonDescView> {
        views_of(self.polygons@)
    }
}

impl OwnedPolygon {
    /// An empty buffer, ready to accumulate descriptors.
    pub fn new() -> (r: OwnedPolygon)
        ensures
            r@ == Seq::<PolygonDescView>::empty(),
    {
        let r = OwnedPolygon { polygons: Vec::new() };
        proof {
            assert(r@ =~= Seq::<PolygonDescView>::empty());
        }
        r
    }

    /// The current descriptor list, in the order the descriptors were added.
    /// This is what one engine call consumes.
    pub fn get_clipper_polygons(&self) -> (r: &Vec<PolygonDescriptor>)
        ensures
            views_of(r@) == self@,
    {
        &self.polygons
    }

    /// Builds the path descriptor of one closed ring, dropping the stored
    /// duplicate closing point.
    fn closed_path(ring: &LineString) -> (r: PathDescriptor)
        ensures
            r@ == closed_path_view(ring@),
    {
        let n = ring.0.len();
        let mut vertices: Vec<Coordinate> = Vec::new();
        let mut i: usize = 1;
        while i < n
            invariant
                n == ring.0.len(),
                n == 0 ==> i == 1 && vertices@ == Seq::<Coordinate>::empty(),
                n > 0 ==> 1 <= i <= n && vertices@ == ring@.subrange(1, i as int),
            decreases n - i,
        {
            vertices.push(ring.0[i]);
            proof {
                assert(ring@.subrange(1, i as int).push(ring@[i as int])
                    =~= ring@.subrange(1, i + 1 as int));
            }
            i = i + 1;
        }
        proof {
            if n > 0 {
                assert(ring@.subrange(1, n as int) =~= ring@.drop_first());
            }
        }
        PathDescriptor { vertices, closed: true }
    }

    /// Builds the path descriptor of one open path; every point is kept.
    fn open_path(path: &LineString) -> (r: PathDescriptor)
        ensures
            r@ == open_path_view(path@),
    {
        let n = path.0.len();
        let mut vertices: Vec<Coordinate> = Vec::new();
        let mut i: usize = 0;
        while i < n
            invariant
                n == path.0.len(),
                i <= n,
                vertices@ == path@.subrange(0, i as int),
            decreases n - i,
        {
            vertices.push(path.0[i]);
            proof {
                assert(path@.subrange(0, i as int).push(path@[i as int])
                    =~= path@.subrange(0, i + 1 as int));
            }
            i = i + 1;
        }
        proof {
            assert(path@.subrange(0, n as int) =~= path@);
        }
        PathDescriptor { vertices, closed: false }
    }

    /// Appends the descriptor of one closed polygon: its exterior ring, then
    /// each hole ring in stored order, all flagged closed.
    pub fn add_polygon(self, polygon: &Polygon, poly_type: PolyType) -> (r: Self)
        ensures
            r@ == self@.push(polygon_descriptor_view(polygon@, poly_type)),
    {
        let ghost orig = self@;
        let m = polygon.interiors.len();
        let mut paths: Vec<PathDescriptor> = Vec::new();
        paths.push(Self::closed_path(&polygon.exterior));
        let mut i: usize = 0;
        while i < m
            invariant
                m == polygon.interiors.len(),
                i <= m,
                views_of(paths@) =~~= seq![closed_path_view(polygon.exterior@)]
                    + closed_path_views(views_of(polygon.interiors@).subrange(0, i as int)),
            decreases m - i,
        {
            let ghost prev = paths@;
            paths.push(Self::closed_path(&polygon.interiors[i]));
            proof {
                let ghost ivs = views_of(polygon.interiors@);
                assert(views_of(paths@) =~= views_of(prev).push(paths@.last()@));
                assert(paths@.last()@ == closed_path_view(ivs[i as int]));
                assert(views_of(prev).push(closed_path_view(ivs[i as int]))
                    =~~= seq![closed_path_view(polygon.exterior@)]
                        + closed_path_views(ivs.subrange(0, i + 1)));
            }
            i = i + 1;
        }
        let descriptor = PolygonDescriptor { paths, poly_type };
        proof {
            assert(views_of(polygon.interiors@).subrange(0, m as int)
                =~= views_of(polygon.interiors@));
            assert(descriptor@ =~~= polygon_descriptor_view(polygon@, poly_type));
        }
        let mut polygons = self.polygons;
        polygons.push(descriptor);
        let r = OwnedPolygon { polygons };
        proof {
            assert(r@ =~~= orig.push(polygon_descriptor_view(polygon@, poly_type)));
        }
        r
    }

    /// Appends the single descriptor of a collection of open paths: one open
    /// path per polyline, no vertex dropped.
    pub fn add_line_strings(self, line_strings: &MultiLineString, poly_type: PolyType) -> (r: Self)
        ensures
            r@ == self@.push(line_strings_descriptor_view(line_strings@, poly_type)),
    {
        let ghost orig = self@;
        let m = line_strings.0.len();
        let mut paths: Vec<PathDescriptor> = Vec::new();
        let mut i: usize = 0;
        while i < m
            invariant
                m == line_strings.0.len(),
                i <= m,
                views_of(paths@) =~~= open_path_views(line_strings@.subrange(0, i as int)),
            decreases m - i,
        {
            let ghost prev = paths@;
            paths.push(Self::open_path(&line_strings.0[i]));
            proof {
                assert(views_of(paths@) =~= views_of(prev).push(paths@.last()@));
                assert(paths@.last()@ == open_path_view(line_strings@[i as int]));
                assert(views_of(prev).push(open_path_view(line_strings@[i as int]))
                    =~~= open_path_views(line_strings@.subrange(0, i + 1)));
            }
            i = i + 1;
        }
        let descriptor = PolygonDescriptor { paths, poly_type };
        proof {
            assert(line_strings@.subrange(0, m as int) =~= line_strings@);
            assert(descriptor@ =~~= line_strings_descriptor_view(line_strings@, poly_type));
        }
        let mut polygons = self.polygons;
        polygons.push(descriptor);
        let r = OwnedPolygon { polygons };
        proof {
            assert(r@ =~~= orig.push(line_strings_descriptor_view(line_strings@, poly_type)));
        }
        r
    }

    /// Appends one descriptor per member polygon, in stored order.
    pub fn add_polygons(self, polygon: &MultiPolygon, poly_type: PolyType) -> (r: Self)
        ensures
            r@ == self@ + polygon_descriptor_views(polygon@, poly_type),
    {
        let ghost orig = self@;
        let n = polygon.0.len();
        let mut owned = self;
        let mut i: usize = 0;
        while i < n
            invariant
                n == polygon.0.len(),
                i <= n,
                owned@ =~~= orig
                    + polygon_descriptor_views(polygon@.subrange(0, i as int), poly_type),
            decreases n - i,
        {
            owned = owned.add_polygon(&polygon.0[i], poly_type);
            proof {
                assert(owned@ =~~= orig
                    + polygon_descriptor_views(polygon@.subrange(0, i + 1), poly_type));
            }
            i = i + 1;
        }
        proof {
            assert(polygon@.subrange(0, n as int) =~= polygon@);
        }
        owned
    }
}

/// Conversion of one shape into the owned buffer it contributes to an engine
/// call, under a given role.
pub trait ToOwnedPolygon {
    /// The descriptor list this shape contributes under the given role.
    spec fn owned_polygon_spec(&self, poly_type: PolyType) -> Seq<PolygonDescView>;

    /// Every descriptor a shape contributes carries the requested role.
    proof fn owned_polygon_roles(&self, poly_type: PolyType)
        ensures
            forall|i: int|
                0 <= i < self.owned_polygon_spec(poly_type).len()
                    ==> (#[trigger] self.owned_polygon_spec(poly_type)[i]).poly_type == poly_type,
    ;

    /// Builds the owned buffer for this shape alone.
    fn to_polygon_owned(&self, poly_type: PolyType) -> (r: OwnedPolygon)
        ensures
            r@ == self.owned_polygon_spec(poly_type),
    ;
}

impl ToOwnedPolygon for Polygon {
    open spec fn owned_polygon_spec(&self, poly_type: PolyType) -> Seq<PolygonDescView> {
        seq![polygon_descriptor_view(self@, poly_type)]
    }

    proof fn owned_polygon_roles(&self, poly_type: PolyType) {
    }

    fn to_polygon_owned(&self, poly_type: PolyType) -> (r: OwnedPolygon) {
        let r = OwnedPolygon::new().add_polygon(self, poly_type);
        proof {
            assert(r@ =~~= seq![polygon_descriptor_view(self@, poly_type)]);
        }
        r
    }
}

impl ToOwnedPolygon for MultiPolygon {
    open spec fn owned_polygon_spec(&self, poly_type: PolyType) -> Seq<PolygonDescView> {
        polygon_descriptor_views(self@, poly_type)
    }

    proof fn owned_polygon_roles(&self, poly_type: PolyType) {
    }

    fn to_polygon_owned(&self, poly_type: PolyType) -> (r: OwnedPolygon) {
        let r = OwnedPolygon::new().add_polygons(self, poly_type);
        proof {
            assert(r@ =~~= self.owned_polygon_spec(poly_type));
        }
        r
    }
}

impl ToOwnedPolygon for MultiLineString {
    open spec fn owned_polygon_spec(&self, poly_type: PolyType) -> Seq<PolygonDescView> {
        seq![line_strings_descriptor_view(self@, poly_type)]
    }

    proof fn owned_polygon_roles(&self, poly_type: PolyType) {
    }

    fn to_polygon_owned(&self, poly_type: PolyType) -> (r: OwnedPolygon) {
        let r = OwnedPolygon::new().add_line_strings(self, poly_type);
        proof {
            assert(r@ =~~= seq![line_strings_descriptor_view(self@, poly_type)]);
        }
        r
    }
}

} // verus!
