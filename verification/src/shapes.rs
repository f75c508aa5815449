//! Caller-facing geometry model, in the engine's integer coordinate domain.
//!
//! A closed ring stores its first point once more as its last point; an open
//! path carries no such convention.  The host is responsible for scaling
//! floating-point coordinates into this fixed-point domain before building
//! shapes, and back out after decoding.

use vstd::prelude::*;

verus! {

/// The element-wise view of a sequence of viewable values.
pub open spec fn views_of<T: View>(s: Seq<T>) -> Seq<T::V> {
    Seq::new(s.len(), |i: int| s[i]@)
}

/// One point of the engine's fixed-point integer coordinate domain.
#[derive(Clone, Copy, PartialEq, Eq, Structural, Debug)]
pub struct Coordinate {
    pub x: i64,
    pub y: i64,
}

/// An ordered run of coordinates.  Serves both as a closed ring (first point
/// duplicated as last) and as an open polyline, depending on where it stands.
#[derive(Clone, Debug, PartialEq, Eq)]
pub struct LineString(pub Vec<Coordinate>);

impl View for LineString {
    type V = Seq<Coordinate>;

    open spec fn view(&self) -> Seq<Coordinate> {
        self.0@
    }
}

/// The mathematical value of a polygon: one exterior ring and its holes.
#[verifier::ext_equal]
pub ghost struct PolygonView {
    pub exterior: Seq<Coordinate>,
    pub interiors: Seq<Seq<Coordinate>>,
}

/// A closed polygon: one exterior ring and an ordered sequence of interior
/// rings (holes).  Hole containment is not validated by this layer.
#[derive(Clone, Debug, PartialEq, Eq)]
pub struct Polygon {
    pub exterior: LineString,
    pub interiors: Vec<LineString>,
}

impl View for Polygon {
    type V = PolygonView;

    open spec fn view(&self) -> PolygonView {
        PolygonView {
            exterior: self.exterior@,
            interiors: views_of(self.interiors@),
        }
    }
}

impl Polygon {
    pub fn new(exterior: LineString, interiors: Vec<LineString>) -> (r: Polygon)
        ensures
            r.exterior == exterior,
            r.interiors == interiors,
    {
        Polygon { exterior, interiors }
    }
}

/// An ordered collection of closed polygons.
#[derive(Clone, Debug, PartialEq, Eq)]
pub struct MultiPolygon(pub Vec<Polygon>);

impl View for MultiPolygon {
    type V = Seq<PolygonView>;

    open spec fn view(&self) -> Seq<PolygonView> {
        views_of(self.0@)
    }
}

/// An ordered collection of open polylines.
#[derive(Clone, Debug, PartialEq, Eq)]
pub struct MultiLineString(pub Vec<LineString>);

impl View for MultiLineString {
    type V = Seq<Seq<Coordinate>>;

    open spec fn view(&self) -> Seq<Seq<Coordinate>> {
        views_of(self.0@)
    }
}

/// Marker for open-path shapes: only difference, intersection and offset are
/// exposed for these.
pub trait OpenPath {}

/// Marker for closed-polygonal shapes: all four boolean operations and offset
/// are exposed for these, and only these may stand as the right-hand operand
/// of a boolean operation.
pub trait ClosedPoly {}

impl OpenPath for MultiLineString {}

impl OpenPath for LineString {}

impl ClosedPoly for MultiPolygon {}

impl ClosedPoly for Polygon {}

} // verus!
