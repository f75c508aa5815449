//! Tests of shape-to-buffer conversion, role ordering and offset parameters.

use geo_clipper::descriptors::{PolyType, ToOwnedPolygon};
use geo_clipper::ops::{
    boolean_operation_input, open_boolean_operation_input, offset_operation_input, BooleanOp,
    OpenBooleanOp,
};
use geo_clipper::params::{offset_parameters, EndType, JoinType};
use geo_clipper::shapes::{Coordinate, LineString, MultiLineString, MultiPolygon, Polygon};

fn c(x: i64, y: i64) -> Coordinate {
    Coordinate { x, y }
}

fn subject_polygon() -> Polygon {
    Polygon::new(
        LineString(vec![
            c(180, 200),
            c(260, 200),
            c(260, 150),
            c(180, 150),
            c(180, 200),
        ]),
        vec![LineString(vec![
            c(215, 160),
            c(230, 190),
            c(200, 190),
            c(215, 160),
        ])],
    )
}

fn clip_polygon() -> Polygon {
    Polygon::new(
        LineString(vec![
            c(190, 210),
            c(240, 210),
            c(240, 130),
            c(190, 130),
            c(190, 210),
        ]),
        vec![],
    )
}

#[test]
fn elision_drops_exactly_one_vertex() {
    let polygon = subject_polygon();
    let owned = polygon.to_polygon_owned(PolyType::Subject);
    assert_eq!(owned.polygons.len(), 1);
    let descriptor = &owned.polygons[0];
    assert_eq!(descriptor.poly_type, PolyType::Subject);
    assert_eq!(descriptor.paths.len(), 2);
    // A ring of 5 stored points yields 4 engine vertices: the first stored
    // point is dropped, the rest keep their order.
    assert!(descriptor.paths[0].closed);
    assert_eq!(
        descriptor.paths[0].vertices,
        vec![c(260, 200), c(260, 150), c(180, 150), c(180, 200)]
    );
    assert!(descriptor.paths[1].closed);
    assert_eq!(
        descriptor.paths[1].vertices,
        vec![c(230, 190), c(200, 190), c(215, 160)]
    );
}

#[test]
fn open_paths_drop_no_vertex() {
    let lines = MultiLineString(vec![
        LineString(vec![c(100, 100), c(400, 100)]),
        LineString(vec![c(1, 2), c(3, 4), c(5, 6)]),
    ]);
    let owned = lines.to_polygon_owned(PolyType::Subject);
    assert_eq!(owned.polygons.len(), 1);
    let descriptor = &owned.polygons[0];
    assert_eq!(descriptor.paths.len(), 2);
    assert!(!descriptor.paths[0].closed);
    assert_eq!(descriptor.paths[0].vertices, vec![c(100, 100), c(400, 100)]);
    assert!(!descriptor.paths[1].closed);
    assert_eq!(descriptor.paths[1].vertices, vec![c(1, 2), c(3, 4), c(5, 6)]);
}

#[test]
fn empty_ring_yields_empty_run() {
    let polygon = Polygon::new(LineString(vec![]), vec![]);
    let owned = polygon.to_polygon_owned(PolyType::Clip);
    assert_eq!(owned.polygons.len(), 1);
    assert_eq!(owned.polygons[0].paths.len(), 1);
    assert_eq!(owned.polygons[0].paths[0].vertices.len(), 0);
}

#[test]
fn multi_polygon_keeps_insertion_order() {
    let mp = MultiPolygon(vec![subject_polygon(), clip_polygon()]);
    let owned = mp.to_polygon_owned(PolyType::Subject);
    assert_eq!(owned.polygons.len(), 2);
    assert_eq!(owned.polygons[0].paths.len(), 2);
    assert_eq!(owned.polygons[1].paths.len(), 1);
    assert_eq!(
        owned.polygons[1].paths[0].vertices,
        vec![c(240, 210), c(240, 130), c(190, 130), c(190, 210)]
    );
}

#[test]
fn subject_descriptors_precede_clip_descriptors() {
    let subject = MultiPolygon(vec![subject_polygon(), clip_polygon()]);
    let clip = clip_polygon();
    let call = boolean_operation_input(BooleanOp::Intersection, &subject, &clip);
    assert_eq!(call.op, BooleanOp::Intersection);
    let roles: Vec<PolyType> = call
        .polygons
        .get_clipper_polygons()
        .iter()
        .map(|d| d.poly_type)
        .collect();
    assert_eq!(
        roles,
        vec![PolyType::Subject, PolyType::Subject, PolyType::Clip]
    );
}

#[test]
fn open_subject_precedes_clip_and_runs_general_op() {
    let subject = MultiLineString(vec![LineString(vec![c(100, 100), c(400, 100)])]);
    let clip = clip_polygon();
    let call = open_boolean_operation_input(OpenBooleanOp::Difference, &subject, &clip);
    assert_eq!(call.op, BooleanOp::Difference);
    let descriptors = call.polygons.get_clipper_polygons();
    assert_eq!(descriptors.len(), 2);
    assert_eq!(descriptors[0].poly_type, PolyType::Subject);
    assert!(!descriptors[0].paths[0].closed);
    assert_eq!(descriptors[1].poly_type, PolyType::Clip);
    assert!(descriptors[1].paths[0].closed);
}

#[test]
fn empty_subject_contributes_no_descriptors() {
    let subject = MultiPolygon(vec![]);
    let clip = clip_polygon();
    let call = boolean_operation_input(BooleanOp::Union, &subject, &clip);
    let descriptors = call.polygons.get_clipper_polygons();
    assert_eq!(descriptors.len(), 1);
    assert_eq!(descriptors[0].poly_type, PolyType::Clip);
}

#[test]
fn miter_join_sets_miter_limit_only() {
    let limit = (5.0f64).to_bits();
    let (miter_limit, round_precision) =
        offset_parameters(JoinType::Miter(limit), EndType::ClosedPolygon);
    assert_eq!(miter_limit, limit);
    assert_eq!(round_precision, 0);
    assert_eq!(f64::from_bits(round_precision), 0.0);
}

#[test]
fn round_join_precision_wins_over_open_round_end() {
    let join_precision = (0.25f64).to_bits();
    let end_precision = (2.0f64).to_bits();
    let (miter_limit, round_precision) = offset_parameters(
        JoinType::Round(join_precision),
        EndType::OpenRound(end_precision),
    );
    assert_eq!(miter_limit, 0);
    assert_eq!(round_precision, join_precision);
}

#[test]
fn open_round_end_supplies_precision_without_round_join() {
    let end_precision = (2.0f64).to_bits();
    let (miter_limit, round_precision) =
        offset_parameters(JoinType::Square, EndType::OpenRound(end_precision));
    assert_eq!(miter_limit, 0);
    assert_eq!(round_precision, end_precision);
}

#[test]
fn offset_input_uses_subject_role_only() {
    let subject = subject_polygon();
    let limit = (5.0f64).to_bits();
    let call = offset_operation_input(&subject, JoinType::Miter(limit), EndType::ClosedPolygon);
    assert_eq!(call.miter_limit, limit);
    assert_eq!(call.round_precision, 0);
    assert_eq!(call.join_type, JoinType::Miter(limit));
    assert_eq!(call.end_type, EndType::ClosedPolygon);
    let descriptors = call.polygons.get_clipper_polygons();
    assert_eq!(descriptors.len(), 1);
    assert_eq!(descriptors[0].poly_type, PolyType::Subject);
}

#[test]
fn offset_of_open_path_builds_open_subject() {
    let subject = MultiLineString(vec![LineString(vec![
        c(100, 100),
        c(400, 100),
        c(400, 400),
    ])]);
    let limit = (5.0f64).to_bits();
    let call = offset_operation_input(&subject, JoinType::Miter(limit), EndType::OpenSquare);
    let descriptors = call.polygons.get_clipper_polygons();
    assert_eq!(descriptors.len(), 1);
    assert_eq!(descriptors[0].poly_type, PolyType::Subject);
    assert!(!descriptors[0].paths[0].closed);
    assert_eq!(
        descriptors[0].paths[0].vertices,
        vec![c(100, 100), c(400, 100), c(400, 400)]
    );
}
