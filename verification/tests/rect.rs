use bevy_vello_graphics::bezpath::{BezPath, PathEl, VelloBezPath};
use bevy_vello_graphics::fixed::{Fixed, ONE_RAW};
use bevy_vello_graphics::point::{Point, Rotation};
use bevy_vello_graphics::rect::{VelloRect, HALF_RAW, QUARTER_RAW, THREE_QUARTERS_RAW};
use bevy_vello_graphics::vector::{Shape, Vector};

fn fx(v: f64) -> Fixed {
    Fixed { raw: (v * 4294967296.0) as i64 }
}

fn pt(x: f64, y: f64) -> Point {
    Point::new(fx(x), fx(y))
}

fn turns(v: f64) -> Rotation {
    Rotation::Turns(fx(v))
}

#[test]
fn quarter_constants() {
    assert_eq!(QUARTER_RAW * 4, ONE_RAW);
    assert_eq!(HALF_RAW * 2, ONE_RAW);
    assert_eq!(THREE_QUARTERS_RAW, 3 * QUARTER_RAW);
}

#[test]
fn new_rect_is_anchored_at_its_centre() {
    let rect = VelloRect::new(fx(100.0), fx(200.0));
    assert_eq!(rect.size, pt(100.0, 200.0));
    assert_eq!(rect.anchor, pt(0.5, 0.5));
    assert_eq!(rect.radius, fx(0.0));
    assert_eq!(rect.x0(), fx(-50.0));
    assert_eq!(rect.y0(), fx(-100.0));
    assert_eq!(rect.x1(), fx(50.0));
    assert_eq!(rect.y1(), fx(100.0));
}

#[test]
fn default_rect_has_no_size() {
    let rect = VelloRect::default();
    assert_eq!(rect.size, pt(0.0, 0.0));
    assert_eq!(rect.anchor, pt(0.0, 0.0));
    assert_eq!(rect.radius, fx(0.0));
    assert_eq!(rect.border_translation(fx(0.3)), pt(0.0, 0.0));
}

#[test]
fn rect_builders_change_one_field() {
    let rect = VelloRect::new(fx(100.0), fx(200.0));
    let sized = rect.with_size(fx(4.0), fx(6.0));
    assert_eq!(sized.size, pt(4.0, 6.0));
    assert_eq!(sized.anchor, rect.anchor);
    assert_eq!(sized.radius, rect.radius);
    let anchored = rect.with_anchor(fx(0.0), fx(1.0));
    assert_eq!(anchored.anchor, pt(0.0, 1.0));
    assert_eq!(anchored.size, rect.size);
    let rounded = rect.with_radius(fx(7.5));
    assert_eq!(rounded.radius, fx(7.5));
    assert_eq!(rounded.size, rect.size);
    assert_eq!(rounded.anchor, rect.anchor);
}

#[test]
fn anchor_places_the_origin() {
    let rect = VelloRect::new(fx(100.0), fx(200.0)).with_anchor(fx(0.0), fx(1.0));
    assert_eq!(
        (rect.x0(), rect.y0(), rect.x1(), rect.y1()),
        (fx(0.0), fx(-200.0), fx(100.0), fx(0.0))
    );
    let rect = VelloRect::new(fx(100.0), fx(200.0)).with_anchor(fx(0.25), fx(0.75));
    assert_eq!(
        (rect.x0(), rect.y0(), rect.x1(), rect.y1()),
        (fx(-25.0), fx(-150.0), fx(75.0), fx(50.0))
    );
    // an anchor outside the rect is taken as it is
    let rect = VelloRect::new(fx(100.0), fx(200.0)).with_anchor(fx(2.0), fx(-1.0));
    assert_eq!(
        (rect.x0(), rect.y0(), rect.x1(), rect.y1()),
        (fx(-200.0), fx(200.0), fx(-100.0), fx(400.0))
    );
}

#[test]
fn sides_round_down_and_saturate() {
    let rect = VelloRect::new(Fixed { raw: 3 }, Fixed { raw: 1 });
    assert_eq!(rect.x0().raw, -2);
    assert_eq!(rect.x1().raw, 1);
    assert_eq!(rect.y0().raw, -1);
    assert_eq!(rect.y1().raw, 0);
    let rect = VelloRect::new(Fixed { raw: i64::MIN }, Fixed { raw: i64::MAX })
        .with_anchor(fx(1.0), fx(-1.0));
    assert_eq!(rect.x0().raw, i64::MAX);
    assert_eq!(rect.x1().raw, 0);
    assert_eq!(rect.y0().raw, i64::MAX);
    assert_eq!(rect.y1().raw, i64::MAX);
}

#[test]
fn rect_shape_has_its_sides_and_radius() {
    let rect = VelloRect::new(fx(100.0), fx(200.0)).with_radius(fx(8.0));
    match rect.shape() {
        Shape::RoundedRect { x0, y0, x1, y1, radius } => {
            assert_eq!((x0, y0, x1, y1), (fx(-50.0), fx(-100.0), fx(50.0), fx(100.0)));
            assert_eq!(radius, fx(8.0));
        }
        other => panic!("a rect draws a rect, not {:?}", other),
    }
}

#[test]
fn border_passes_the_four_corners_in_order() {
    let rect = VelloRect::new(fx(100.0), fx(200.0));
    let corners = [
        rect.border_translation(fx(0.0)),
        rect.border_translation(fx(0.25)),
        rect.border_translation(fx(0.5)),
        rect.border_translation(fx(0.75)),
    ];
    assert_eq!(
        corners,
        [pt(-50.0, 100.0), pt(50.0, 100.0), pt(50.0, -100.0), pt(-50.0, -100.0)]
    );
    for i in 0..4 {
        for j in 0..i {
            assert_ne!(corners[i], corners[j]);
        }
    }
}

#[test]
fn border_passes_the_middle_of_each_edge() {
    let rect = VelloRect::new(fx(100.0), fx(200.0));
    assert_eq!(rect.border_translation(fx(0.125)), pt(0.0, 100.0));
    assert_eq!(rect.border_translation(fx(0.375)), pt(50.0, 0.0));
    assert_eq!(rect.border_translation(fx(0.625)), pt(0.0, -100.0));
    assert_eq!(rect.border_translation(fx(0.875)), pt(-50.0, 0.0));
    assert_eq!(rect.border_translation(fx(0.0625)), pt(-25.0, 100.0));
}

#[test]
fn border_is_closed() {
    let rect = VelloRect::new(fx(100.0), fx(200.0));
    for t in [0.0, 0.125, 0.25, 0.3, 0.5, 0.75, 0.9] {
        let at = rect.border_translation(fx(t));
        let turn = rect.border_rotation(fx(t));
        for whole in [-3.0, -1.0, 1.0, 2.0, 1000.0] {
            let later = Fixed { raw: fx(t).raw + fx(whole).raw };
            assert_eq!(rect.border_translation(later), at);
            assert_eq!(rect.border_rotation(later), turn);
        }
    }
    // the end of the last edge is the start of the first
    let last = rect.border_translation(Fixed { raw: ONE_RAW - 1 });
    let first = rect.border_translation(fx(0.0));
    assert_eq!(last.x, first.x);
    assert!((last.y.raw - first.y.raw).abs() <= 1024);
}

#[test]
fn negative_time_counts_back_from_the_start() {
    let rect = VelloRect::new(fx(100.0), fx(200.0));
    assert_eq!(rect.border_translation(fx(-0.25)), pt(-50.0, -100.0));
    assert_eq!(rect.border_translation(fx(-0.125)), pt(-50.0, 0.0));
    assert_eq!(rect.border_translation(fx(-1.0)), pt(-50.0, 100.0));
    assert_eq!(rect.border_rotation(fx(-0.125)), turns(0.25));
    assert_eq!(rect.border_translation(Fixed { raw: i64::MIN }), pt(-50.0, 100.0));
}

#[test]
fn tangent_is_one_of_four_quarter_turns() {
    let rect = VelloRect::new(fx(100.0), fx(200.0));
    assert_eq!(rect.border_rotation(fx(0.0)), turns(0.0));
    assert_eq!(rect.border_rotation(fx(0.1)), turns(0.0));
    assert_eq!(rect.border_rotation(fx(0.25)), turns(0.75));
    assert_eq!(rect.border_rotation(fx(0.4)), turns(0.75));
    assert_eq!(rect.border_rotation(fx(0.5)), turns(0.5));
    assert_eq!(rect.border_rotation(fx(0.7)), turns(0.5));
    assert_eq!(rect.border_rotation(fx(0.75)), turns(0.25));
    assert_eq!(rect.border_rotation(Fixed { raw: ONE_RAW - 1 }), turns(0.25));
    assert_eq!(rect.border_rotation(fx(1.0)), turns(0.0));
    let four = [turns(0.0), turns(0.25), turns(0.5), turns(0.75)];
    for step in -300..300i64 {
        let r = rect.border_rotation(Fixed { raw: step * 123456789 });
        assert!(four.contains(&r));
    }
}

#[test]
fn border_stays_on_the_sides() {
    let rect = VelloRect::new(fx(100.0), fx(200.0)).with_anchor(fx(0.25), fx(0.75));
    for step in -300..300i64 {
        let p = rect.border_translation(Fixed { raw: step * 123456789 });
        assert!(rect.x0().raw <= p.x.raw && p.x.raw <= rect.x1().raw);
        assert!(rect.y0().raw <= p.y.raw && p.y.raw <= rect.y1().raw);
        assert!(p.x == rect.x0() || p.x == rect.x1() || p.y == rect.y0() || p.y == rect.y1());
    }
}

#[test]
fn border_is_that_of_the_path_through_the_corners() {
    let rect = VelloRect::new(fx(100.0), fx(37.0)).with_anchor(fx(0.25), fx(0.75));
    let (x0, y0, x1, y1) = (rect.x0(), rect.y0(), rect.x1(), rect.y1());
    let path = VelloBezPath::new().with_path(BezPath::from_vec(vec![
        PathEl::MoveTo(Point::new(x0, y1)),
        PathEl::LineTo(Point::new(x1, y1)),
        PathEl::LineTo(Point::new(x1, y0)),
        PathEl::LineTo(Point::new(x0, y0)),
        PathEl::ClosePath,
    ]));
    for step in 0..=1000i64 {
        let time = Fixed { raw: step * (ONE_RAW / 1000) };
        assert_eq!(rect.border_translation(time), path.border_translation(time));
    }
    assert_eq!(rect.border_translation(fx(1.0)), path.border_translation(fx(1.0)));
}
