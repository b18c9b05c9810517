use fighting_game::fx::FX_ONE;
use fighting_game::line_math::{LineSegment, PolyLine};
use fighting_game::point_math::{Orientation, Point};
use fighting_game::vector_math::Vector;

fn point(x: i64, y: i64) -> Point {
    Point { x, y }
}

fn segment(x0: i64, y0: i64, x1: i64, y1: i64) -> LineSegment {
    LineSegment { point_a: point(x0, y0), point_b: point(x1, y1) }
}

#[test]
fn test_vectors() {
    let vector = Vector { x: 5 * FX_ONE, y: 0 };
    assert_eq!(vector.magnitude(), 5 * FX_ONE);
    assert_eq!(vector.direction().x, FX_ONE);

    let vector = Vector { x: 0, y: 5 * FX_ONE };
    assert_eq!(vector.magnitude(), 5 * FX_ONE);
    assert_eq!(vector.direction().y, FX_ONE);

    let vector = Vector { x: -5 * FX_ONE, y: 0 };
    assert_eq!(vector.magnitude(), 5 * FX_ONE);
    assert_eq!(vector.direction().x, -FX_ONE);

    let vector = Vector { x: 0, y: -5 * FX_ONE };
    assert_eq!(vector.magnitude(), 5 * FX_ONE);
    assert_eq!(vector.direction().y, -FX_ONE);
}

#[test]
fn test_line_y_intercept() {
    let line = segment(4 * FX_ONE, 4 * FX_ONE, 10 * FX_ONE, 10 * FX_ONE);
    assert_eq!(line.y_intercept(), 0);

    let line = segment(4 * FX_ONE, 10 * FX_ONE, 10 * FX_ONE, 16 * FX_ONE);
    assert_eq!(line.y_intercept(), 6 * FX_ONE);

    let line = segment(-4 * FX_ONE, -4 * FX_ONE, -10 * FX_ONE, -10 * FX_ONE);
    assert_eq!(line.y_intercept(), 0);
}

#[test]
fn test_line_intersection() {
    let line_a = segment(0, 0, FX_ONE, FX_ONE);
    let line_b = segment(FX_ONE, 0, 0, FX_ONE);
    assert!(line_a.intersects_with(&line_b));

    let line_a = segment(0, 0, FX_ONE, FX_ONE);
    let line_b = segment(2 * FX_ONE, FX_ONE, FX_ONE, 2 * FX_ONE);
    assert!(!line_a.intersects_with(&line_b));

    let line_a = segment(0, 0, FX_ONE, FX_ONE);
    let line_b = segment(0, -FX_ONE, -FX_ONE, 0);
    assert!(!line_a.intersects_with(&line_b));

    let line_a = segment(0, 0, FX_ONE, FX_ONE);
    let line_b = segment(0, 0, FX_ONE, FX_ONE);
    assert!(line_a.intersects_with(&line_b));

    let line_a = segment(0, 0, 10 * FX_ONE, 10 * FX_ONE);
    let line_b = segment(0, 10 * FX_ONE, 10 * FX_ONE, 0);
    let intersection = line_a.intersection_with(&line_b);
    assert!(intersection.is_some());
    assert_eq!(intersection.unwrap().x, 5 * FX_ONE);
    assert_eq!(intersection.unwrap().y, 5 * FX_ONE);

    let line_a = segment(0, 0, 10 * FX_ONE, 10 * FX_ONE);
    let line_b = segment(0, 0, 10 * FX_ONE, 10 * FX_ONE);
    let intersection = line_a.intersection_with(&line_b);
    assert!(intersection.is_none());
}

#[test]
fn unit_segments_cross_at_midpoint() {
    let line_a = segment(0, 0, FX_ONE, FX_ONE);
    let line_b = segment(FX_ONE, 0, 0, FX_ONE);
    let intersection = line_a.intersection_with(&line_b).unwrap();
    assert_eq!(intersection.x, FX_ONE / 2);
    assert_eq!(intersection.y, FX_ONE / 2);
}

#[test]
fn coincident_segments_touch_but_have_no_unique_intersection() {
    let line_a = segment(0, 0, FX_ONE, FX_ONE);
    let line_b = segment(0, 0, FX_ONE, FX_ONE);
    assert!(line_a.intersects_with(&line_b));
    assert!(line_a.intersection_with(&line_b).is_none());
}

#[test]
fn vertical_segment_intersection() {
    let wall = segment(2 * FX_ONE, -FX_ONE, 2 * FX_ONE, FX_ONE);
    let floor = segment(0, 0, 4 * FX_ONE, 0);
    assert!(wall.intersects_with(&floor));
    let intersection = wall.intersection_with(&floor).unwrap();
    assert_eq!(intersection.x, 2 * FX_ONE);
    assert_eq!(intersection.y, 0);
}

#[test]
fn orientation_classifies_triplets() {
    let origin = point(0, 0);
    assert_eq!(
        origin.triplet_orientation(&point(FX_ONE, 0), &point(2 * FX_ONE, 0)),
        Orientation::Colinear
    );
    assert_eq!(
        origin.triplet_orientation(&point(FX_ONE, 0), &point(2 * FX_ONE, FX_ONE)),
        Orientation::CounterClockwise
    );
    assert_eq!(
        origin.triplet_orientation(&point(FX_ONE, 0), &point(2 * FX_ONE, -FX_ONE)),
        Orientation::Clockwise
    );
}

#[test]
fn flat_ground_normal_points_up() {
    let ground = segment(-10 * FX_ONE, 0, 10 * FX_ONE, 0);
    let normal = ground.normal();
    assert_eq!(normal.x, 0);
    assert_eq!(normal.y, FX_ONE);
    let top = ground.top_normal();
    assert_eq!(top.x, 0);
    assert_eq!(top.y, FX_ONE);
    let bottom = ground.bottom_normal();
    assert_eq!(bottom.x, 0);
    assert_eq!(bottom.y, -FX_ONE);
}

#[test]
fn polyline_decomposes_points_into_segments() {
    let points = vec![point(0, 0), point(FX_ONE, 0), point(2 * FX_ONE, FX_ONE)];
    let chain = PolyLine::from_points(&points);
    assert_eq!(chain.segments.len(), 2);
    assert_eq!(chain.segments[0].point_a.x, 0);
    assert_eq!(chain.segments[0].point_b.x, FX_ONE);
    assert_eq!(chain.segments[1].point_a.x, FX_ONE);
    assert_eq!(chain.segments[1].point_b.y, FX_ONE);

    let lonely = PolyLine::from_points(&vec![point(0, 0)]);
    assert_eq!(lonely.segments.len(), 0);
}

#[test]
fn left_and_right_points_order_by_x() {
    let line = segment(3 * FX_ONE, FX_ONE, -3 * FX_ONE, 2 * FX_ONE);
    assert_eq!(line.left_point().x, -3 * FX_ONE);
    assert_eq!(line.right_point().x, 3 * FX_ONE);
    assert_eq!(line.slope(), -FX_ONE / 6);
}
