//! Operation orchestration: everything one engine call consumes, built from
//! the operand shapes.
//!
//! A boolean call carries one flat descriptor list in which the Subject
//! operand's descriptors stand before the Clip operand's; an offset call
//! carries the sole operand under the Subject role together with the derived
//! miter-limit and round-precision parameters.  The host performs the one
//! foreign engine call on the built value, releases the engine's result
//! exactly once, and hands the raw output to the decoder.

use vstd::prelude::*;

use crate::descriptors::{OwnedPolygon, PolyType, PolygonDescView, ToOwnedPolygon};
use crate::params::{offset_parameters, spec_miter_limit, spec_round_precision, EndType, JoinType};
use crate::shapes::{ClosedPoly, OpenPath};

verus! {

/// A boolean set operation on a closed-polygonal clip operand.
#[derive(Clone, Copy, PartialEq, Eq, Structural, Debug)]
pub enum BooleanOp {
    Difference,
    Intersection,
    Union,
    Xor,
}

/// The boolean operations an open-path subject may take part in.  Union and
/// xor are not defined for open paths, so no variant exposes them.
#[derive(Clone, Copy, PartialEq, Eq, Structural, Debug)]
pub enum OpenBooleanOp {
    Difference,
    Intersection,
}

/// The general operation an open-path boolean operation runs as.
pub open spec fn spec_open_boolean_op(op: OpenBooleanOp) -> BooleanOp {
    match op {
        OpenBooleanOp::Difference => BooleanOp::Difference,
        OpenBooleanOp::Intersection => BooleanOp::Intersection,
    }
}

/// Everything one boolean engine call consumes besides the fixed non-zero
/// fill rule: the operation and the flat descriptor list.
pub struct BooleanCall {
    pub op: BooleanOp,
    pub polygons: OwnedPolygon,
}

/// The flat descriptor list of a boolean operation: the subject's
/// descriptors under the Subject role, then the clip's under the Clip role.
pub open spec fn boolean_descriptors<S: ToOwnedPolygon, C: ToOwnedPolygon>(
    subject: &S,
    clip: &C,
) -> Seq<PolygonDescView> {
    subject.owned_polygon_spec(PolyType::Subject) + clip.owned_polygon_spec(PolyType::Clip)
}

/// Builds the engine call of a boolean operation between closed-polygonal
/// shapes.  All four operations are available here.
pub fn boolean_operation_input<S: ToOwnedPolygon + ClosedPoly, C: ToOwnedPolygon + ClosedPoly>(
    op: BooleanOp,
    subject: &S,
    clip: &C,
) -> (r: BooleanCall)
    ensures
        r.op == op,
        r.polygons@ == boolean_descriptors(subject, clip),
{
    BooleanCall { op, polygons: combined_operands(subject, clip) }
}

/// Builds the engine call of a boolean operation between an open-path
/// subject and a closed-polygonal clip.  Only difference and intersection
/// exist for open subjects.
pub fn open_boolean_operation_input<S: ToOwnedPolygon + OpenPath, C: ToOwnedPolygon + ClosedPoly>(
    op: OpenBooleanOp,
    subject: &S,
    clip: &C,
) -> (r: BooleanCall)
    ensures
        r.op == spec_open_boolean_op(op),
        r.polygons@ == boolean_descriptors(subject, clip),
{
    let general = match op {
        OpenBooleanOp::Difference => BooleanOp::Difference,
        OpenBooleanOp::Intersection => BooleanOp::Intersection,
    };
    BooleanCall { op: general, polygons: combined_operands(subject, clip) }
}

/// Converts both operands and joins their descriptors, subject first.
fn combined_operands<S: ToOwnedPolygon, C: ToOwnedPolygon>(subject: &S, clip: &C) -> (r:
    OwnedPolygon)
    ensures
        r@ == boolean_descriptors(subject, clip),
{
    let subject_owned = subject.to_polygon_owned(PolyType::Subject);
    let clip_owned = clip.to_polygon_owned(PolyType::Clip);
    let mut polygons = subject_owned.polygons;
    let mut clip_polygons = clip_owned.polygons;
    polygons.append(&mut clip_polygons);
    let r = OwnedPolygon { polygons };
    proof {
        assert(r@ =~~= subject.owned_polygon_spec(PolyType::Subject)
            + clip.owned_polygon_spec(PolyType::Clip));
    }
    r
}

/// Role ordering law: in the flat descriptor list built for a boolean
/// operation, every descriptor drawn from the subject operand carries the
/// Subject role, every one drawn from the clip operand carries the Clip
/// role, and every Subject descriptor stands before every Clip descriptor,
/// whatever the operands are.
pub proof fn lemma_subject_precedes_clip<S: ToOwnedPolygon, C: ToOwnedPolygon>(
    subject: &S,
    clip: &C,
)
    ensures
        ({
            let ds = boolean_descriptors(subject, clip);
            forall|i: int, j: int|
                0 <= i < ds.len() && 0 <= j < ds.len()
                    && (#[trigger] ds[i]).poly_type == PolyType::Subject
                    && (#[trigger] ds[j]).poly_type == PolyType::Clip ==> i < j
        }),
{
    let s = subject.owned_polygon_spec(PolyType::Subject);
    let c = clip.owned_polygon_spec(PolyType::Clip);
    let ds = boolean_descriptors(subject, clip);
    subject.owned_polygon_roles(PolyType::Subject);
    clip.owned_polygon_roles(PolyType::Clip);
    assert forall|i: int, j: int|
        0 <= i < ds.len() && 0 <= j < ds.len() && (#[trigger] ds[i]).poly_type == PolyType::Subject
            && (#[trigger] ds[j]).poly_type == PolyType::Clip implies i < j by {
        if i >= s.len() {
            assert(ds[i] == c[i - s.len()]);
        }
        if j < s.len() {
            assert(ds[j] == s[j]);
        }
    }
}

/// Everything one offset engine call consumes: the sole operand under the
/// Subject role, the styles, and the parameters derived from them.  The host
/// scales the offset distance itself, and an offset result is always decoded
/// as a multi-polygon, whether the operand was closed or open.
pub struct OffsetCall {
    pub miter_limit: u64,
    pub round_precision: u64,
    pub join_type: JoinType,
    pub end_type: EndType,
    pub polygons: OwnedPolygon,
}

/// Builds the engine call of an offset operation.  Offsetting has a single
/// operand, always under the Subject role.
pub fn offset_operation_input<S: ToOwnedPolygon>(
    shape: &S,
    join_type: JoinType,
    end_type: EndType,
) -> (r: OffsetCall)
    ensures
        r.miter_limit == spec_miter_limit(join_type),
        r.round_precision == spec_round_precision(join_type, end_type),
        r.join_type == join_type,
        r.end_type == end_type,
        r.polygons@ == shape.owned_polygon_spec(PolyType::Subject),
{
    let (miter_limit, round_precision) = offset_parameters(join_type, end_type);
    OffsetCall {
        miter_limit,
        round_precision,
        join_type,
        end_type,
        polygons: shape.to_polygon_owned(PolyType::Subject),
    }
}

} // verus!
