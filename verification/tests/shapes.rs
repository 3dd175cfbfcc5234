use bevy_vello_graphics::arrow::{ArrowHead, VelloArrow};
use bevy_vello_graphics::bezpath::{BezPath, PathEl, VelloBezPath};
use bevy_vello_graphics::circle::VelloCircle;
use bevy_vello_graphics::fixed::Fixed;
use bevy_vello_graphics::line::VelloLine;
use bevy_vello_graphics::point::{Direction, Point, Rotation};
use bevy_vello_graphics::prelude::{Shape as PreludeShape, Vector as PreludeVector};
use bevy_vello_graphics::vector::{Shape, Vector};

fn fx(v: f64) -> Fixed {
    Fixed { raw: (v * 4294967296.0) as i64 }
}

fn pt(x: f64, y: f64) -> Point {
    Point::new(fx(x), fx(y))
}

fn shape_of<V: PreludeVector>(vector: &V) -> PreludeShape {
    vector.shape()
}

#[test]
fn point_helpers() {
    assert_eq!(Point::zero(), pt(0.0, 0.0));
    assert_eq!(Point::splat(fx(0.5)), pt(0.5, 0.5));
    assert_eq!(pt(1.0, 2.0).offset(pt(0.5, -4.0)), pt(1.5, -2.0));
    assert_eq!(pt(0.0, 0.0).lerp(pt(8.0, -8.0), fx(0.25)), pt(2.0, -2.0));
    assert_eq!(
        pt(1.0, 2.0).direction_to(pt(0.0, 4.0)),
        Direction { dx: -(1i128 << 32), dy: 2i128 << 32 }
    );
    let far = Point::new(Fixed { raw: i64::MIN }, Fixed { raw: i64::MAX });
    let back = Point::new(Fixed { raw: i64::MAX }, Fixed { raw: i64::MIN });
    assert_eq!(
        far.direction_to(back),
        Direction { dx: (1i128 << 64) - 1, dy: 1 - (1i128 << 64) }
    );
}

#[test]
fn line_builders() {
    let line = VelloLine::default();
    assert_eq!(line, VelloLine::new(pt(0.0, 0.0), pt(0.0, 0.0)));
    let line = line.with_p0(pt(100.0, 100.0)).with_p1(pt(0.0, -100.0));
    assert_eq!(line, VelloLine { p0: pt(100.0, 100.0), p1: pt(0.0, -100.0) });
    match shape_of(&line) {
        Shape::Line { p0, p1 } => assert_eq!((p0, p1), (pt(100.0, 100.0), pt(0.0, -100.0))),
        other => panic!("a line draws a line, not {:?}", other),
    }
}

#[test]
fn line_border_runs_from_end_to_end() {
    let line = VelloLine::new(pt(100.0, 100.0), pt(0.0, -100.0));
    assert_eq!(line.border_translation(fx(0.0)), pt(100.0, 100.0));
    assert_eq!(line.border_translation(fx(0.25)), pt(75.0, 50.0));
    assert_eq!(line.border_translation(fx(1.0)), pt(0.0, -100.0));
    // beyond its ends the line stops
    assert_eq!(line.border_translation(fx(-0.2)), pt(100.0, 100.0));
    assert_eq!(line.border_translation(fx(1.2)), pt(0.0, -100.0));
}

#[test]
fn extend_moves_both_ends_outwards() {
    let line = VelloLine::new(pt(0.0, 0.0), pt(10.0, 0.0)).extend(fx(2.5));
    assert_eq!(line, VelloLine::new(pt(-2.5, 0.0), pt(12.5, 0.0)));
    let line = VelloLine::new(pt(1.0, 8.0), pt(1.0, -8.0)).extend(fx(0.5));
    assert_eq!(line, VelloLine::new(pt(1.0, 8.5), pt(1.0, -8.5)));
    // a negative extension shortens the line
    let line = VelloLine::new(pt(0.0, 0.0), pt(10.0, 0.0)).extend(fx(-2.5));
    assert_eq!(line, VelloLine::new(pt(2.5, 0.0), pt(7.5, 0.0)));
}

#[test]
fn extend_along_a_diagonal_rounds_down() {
    // a triangle of sides three, four and five: the shares are three and four fifths
    let line = VelloLine::new(pt(0.0, 0.0), pt(3.0, 4.0)).extend(fx(5.0));
    assert_eq!(line.p0, Point::new(Fixed { raw: -12884901885 }, Fixed { raw: -17179869180 }));
    assert_eq!(line.p1, Point::new(Fixed { raw: 25769803773 }, Fixed { raw: 34359738364 }));
    let back = VelloLine::new(pt(3.0, 4.0), pt(0.0, 0.0)).extend(fx(5.0));
    assert_eq!(back.p0, Point::new(Fixed { raw: 25769803778 }, Fixed { raw: 34359738369 }));
    assert_eq!(back.p1, Point::new(Fixed { raw: -12884901890 }, Fixed { raw: -17179869185 }));
}

#[test]
fn extend_leaves_a_line_of_no_length() {
    let line = VelloLine::new(pt(3.0, 3.0), pt(3.0, 3.0));
    assert_eq!(line.extend(fx(7.0)), line);
    assert_eq!(line.extend(Fixed { raw: i64::MIN }), line);
}

#[test]
fn extend_saturates() {
    let lo = Fixed { raw: i64::MIN };
    let hi = Fixed { raw: i64::MAX };
    let line = VelloLine::new(Point::new(lo, fx(0.0)), Point::new(hi, fx(0.0)));
    assert_eq!(line.extend(fx(1.0)), line);
    let shrunk = line.extend(fx(-1.0));
    assert_eq!(shrunk.p0, Point::new(Fixed { raw: i64::MIN + (1i64 << 32) }, fx(0.0)));
    assert_eq!(shrunk.p1, Point::new(Fixed { raw: i64::MAX - (1i64 << 32) }, fx(0.0)));
    let diagonal = VelloLine::new(Point::new(lo, lo), Point::new(hi, hi)).extend(fx(1.0));
    assert_eq!(diagonal, VelloLine::new(Point::new(lo, lo), Point::new(hi, hi)));
    // the smallest line there is has a direction
    let tiny = VelloLine::new(pt(0.0, 0.0), Point::new(Fixed { raw: 1 }, fx(0.0))).extend(fx(1.0));
    assert_eq!(tiny.p0, pt(-1.0, 0.0));
    assert_eq!(tiny.p1, Point::new(Fixed { raw: (1i64 << 32) + 1 }, fx(0.0)));
}

#[test]
fn line_of_no_length_has_no_direction() {
    let line = VelloLine::new(pt(3.0, 3.0), pt(3.0, 3.0));
    assert_eq!(line.border_rotation(fx(0.5)), Rotation::Along(Direction { dx: 0, dy: 0 }));
    assert_eq!(line.border_translation(fx(0.5)), pt(3.0, 3.0));
}

#[test]
fn circle_outline_is_around_the_origin() {
    let circle = VelloCircle::new(fx(50.0));
    assert_eq!(circle.radius, fx(50.0));
    assert_eq!(circle.with_radius(fx(2.0)).radius, fx(2.0));
    assert_eq!(VelloCircle::default().radius, fx(0.0));
    match circle.shape() {
        Shape::Circle { center, radius } => {
            assert_eq!(center, pt(0.0, 0.0));
            assert_eq!(radius, fx(50.0));
        }
        other => panic!("a circle draws a circle, not {:?}", other),
    }
}

#[test]
fn circle_tangent_turns_against_the_time() {
    let circle = VelloCircle::new(fx(50.0));
    assert_eq!(circle.border_rotation(fx(0.0)), Rotation::Turns(fx(0.0)));
    assert_eq!(circle.border_rotation(fx(0.25)), Rotation::Turns(fx(-0.25)));
    assert_eq!(circle.border_rotation(fx(-1.5)), Rotation::Turns(fx(1.5)));
    assert_eq!(
        circle.border_rotation(Fixed { raw: i64::MIN }),
        Rotation::Turns(Fixed { raw: i64::MAX })
    );
}

#[test]
fn arrow_builders() {
    let arrow = VelloArrow::default();
    assert_eq!(arrow.head, ArrowHead::Triangle);
    assert_eq!(ArrowHead::default(), ArrowHead::Triangle);
    assert_eq!(arrow, VelloArrow::new_simple(ArrowHead::Triangle, fx(0.0)));
    let arrow = VelloArrow::new(ArrowHead::Square, pt(1.0, 2.0), fx(0.25), fx(4.0));
    assert_eq!(
        arrow,
        VelloArrow {
            head: ArrowHead::Square,
            position: pt(0.0, 0.0),
            angle: fx(0.0),
            offset: pt(1.0, 2.0),
            rotation: fx(0.25),
            size: fx(4.0),
        }
    );
    let arrow = VelloArrow::absolute(
        ArrowHead::Circle,
        pt(10.0, 20.0),
        fx(0.5),
        pt(1.0, 2.0),
        fx(0.25),
        fx(4.0),
    );
    assert_eq!(arrow.position, pt(10.0, 20.0));
    assert_eq!(arrow.angle, fx(0.5));
    assert_eq!(arrow.with_head(ArrowHead::Square).head, ArrowHead::Square);
    assert_eq!(arrow.with_size(fx(9.0)).size, fx(9.0));
    assert_eq!(arrow.with_offset(pt(0.0, 7.0)).offset, pt(0.0, 7.0));
    assert_eq!(arrow.with_rotation(fx(0.75)).rotation, fx(0.75));
    assert_eq!(arrow.with_rotation(fx(0.75)).angle, fx(0.5));
}

#[test]
fn square_head_is_centred() {
    let arrow = VelloArrow::absolute(
        ArrowHead::Square,
        pt(10.0, 20.0),
        fx(0.0),
        pt(1.0, 2.0),
        fx(0.0),
        fx(4.0),
    );
    match arrow.shape() {
        Shape::RoundedRect { x0, y0, x1, y1, radius } => {
            assert_eq!((x0, y0, x1, y1), (fx(9.0), fx(20.0), fx(13.0), fx(24.0)));
            assert_eq!(radius, fx(0.0));
        }
        other => panic!("a square head draws a rect, not {:?}", other),
    }
}

#[test]
fn circle_head_has_the_size_as_radius() {
    let arrow = VelloArrow::new(ArrowHead::Circle, pt(1.0, 2.0), fx(0.0), fx(4.0));
    match arrow.shape() {
        Shape::Circle { center, radius } => {
            assert_eq!(center, pt(1.0, 2.0));
            assert_eq!(radius, fx(4.0));
        }
        other => panic!("a circle head draws a circle, not {:?}", other),
    }
}

#[test]
fn line_border_is_that_of_its_path() {
    let line = VelloLine::new(pt(100.0, 100.0), pt(0.0, -100.0));
    let path = VelloBezPath::new().with_path(BezPath::from_vec(vec![
        PathEl::MoveTo(line.p0),
        PathEl::LineTo(line.p1),
    ]));
    for step in -100..=1100i64 {
        let time = Fixed { raw: step * ((1i64 << 32) / 1000) };
        assert_eq!(line.border_translation(time), path.border_translation(time));
        assert_eq!(line.border_rotation(time), path.border_rotation(time));
    }
}
