use bevy_vello_graphics::bezpath::{BezPath, PathEl, VelloBezPath};
use bevy_vello_graphics::fixed::Fixed;
use bevy_vello_graphics::head::{prepare_head, Head, HeadBundle, HeadTransform};
use bevy_vello_graphics::line::VelloLine;
use bevy_vello_graphics::point::{Direction, Point, Rotation};
use bevy_vello_graphics::rect::VelloRect;

fn fx(v: f64) -> Fixed {
    Fixed { raw: (v * 4294967296.0) as i64 }
}

fn pt(x: f64, y: f64) -> Point {
    Point::new(fx(x), fx(y))
}

fn as_float(v: Fixed) -> f64 {
    v.raw as f64 / 4294967296.0
}

fn radians(rotation: Rotation) -> f64 {
    match rotation {
        Rotation::Turns(turns) => as_float(turns) * std::f64::consts::TAU,
        Rotation::Along(Direction { dx, dy }) => (dy as f64).atan2(dx as f64),
    }
}

/// Rotate, then scale, then translate.
fn affine(transform: &HeadTransform) -> kurbo::Affine {
    let rotation = radians(transform.rotation) + as_float(transform.rotation_offset) * std::f64::consts::TAU;
    kurbo::Affine::rotate(rotation)
        .then_scale(as_float(transform.scale))
        .then_translate(kurbo::Vec2::new(as_float(transform.translation.x), as_float(transform.translation.y)))
}

#[test]
fn default_head_sits_at_the_end_in_its_own_size() {
    let head = Head::default();
    assert_eq!(head, Head::new());
    assert_eq!(head.time, fx(1.0));
    assert_eq!(head.scale, fx(1.0));
    assert_eq!(head.translation_offset, pt(0.0, 0.0));
    assert_eq!(head.rotation_offset, fx(0.0));
}

#[test]
fn head_builders_change_one_field() {
    let head = Head::new();
    assert_eq!(head.with_time(fx(0.25)), Head { time: fx(0.25), ..head });
    assert_eq!(head.with_scale(fx(2.0)), Head { scale: fx(2.0), ..head });
    assert_eq!(head.with_offset(pt(1.0, -2.0)), Head { translation_offset: pt(1.0, -2.0), ..head });
    assert_eq!(head.with_offset_splat(fx(3.0)), Head { translation_offset: pt(3.0, 3.0), ..head });
    assert_eq!(head.with_rotation_offset(fx(0.5)), Head { rotation_offset: fx(0.5), ..head });
}

#[test]
fn default_transform_changes_nothing() {
    let transform = HeadTransform::default();
    assert_eq!(transform.rotation, Rotation::Turns(fx(0.0)));
    assert_eq!(transform.rotation_offset, fx(0.0));
    assert_eq!(transform.scale, fx(1.0));
    assert_eq!(transform.translation, pt(0.0, 0.0));
    assert_eq!(affine(&transform), kurbo::Affine::IDENTITY);
}

#[test]
fn bundle_starts_with_the_default_head() {
    let line = VelloLine::new(pt(0.0, 0.0), pt(1.0, 1.0));
    let bundle = HeadBundle::new(line);
    assert_eq!(bundle.vector.0, line);
    assert_eq!(bundle.head, Head::default());
    assert_eq!(bundle.transform, HeadTransform::default());
}

#[test]
fn head_is_placed_at_the_border_plus_its_offset() {
    // the border sample at an eighth of the time is the point (10, 0) with no turn
    let rect = VelloRect::new(fx(20.0), fx(5.0)).with_anchor(fx(0.0), fx(1.0));
    let head = Head::new()
        .with_time(fx(0.125))
        .with_scale(fx(2.0))
        .with_offset(pt(1.0, 0.0))
        .with_rotation_offset(fx(0.0));
    let transform = prepare_head(&rect, &head);
    assert_eq!(
        transform,
        HeadTransform {
            rotation: Rotation::Turns(fx(0.0)),
            rotation_offset: fx(0.0),
            scale: fx(2.0),
            translation: pt(11.0, 0.0),
        }
    );
    let image = affine(&transform) * kurbo::Point::new(0.0, 0.0);
    assert_eq!(image, kurbo::Point::new(11.0, 0.0));
    // scaled before it is moved: the unit point lands two units from the placement
    let image = affine(&transform) * kurbo::Point::new(1.0, 0.0);
    assert_eq!(image, kurbo::Point::new(13.0, 0.0));
}

#[test]
fn head_is_placed_at_a_border_sample() {
    let head = Head::new().with_scale(fx(2.0)).with_offset(pt(1.0, 0.0)).with_rotation_offset(fx(0.0));
    let transform = head.place(pt(10.0, 0.0), Rotation::Turns(fx(0.0)));
    assert_eq!(
        transform,
        HeadTransform {
            rotation: Rotation::Turns(fx(0.0)),
            rotation_offset: fx(0.0),
            scale: fx(2.0),
            translation: pt(11.0, 0.0),
        }
    );
    assert_eq!(affine(&transform) * kurbo::Point::new(0.0, 0.0), kurbo::Point::new(11.0, 0.0));
    // a quarter turn first, then the scale, then the move
    let turned = head.with_rotation_offset(fx(0.25)).place(pt(10.0, 0.0), Rotation::Turns(fx(0.0)));
    let image = affine(&turned) * kurbo::Point::new(1.0, 0.0);
    assert!((image.x - 11.0).abs() < 1e-9);
    assert!((image.y - 2.0).abs() < 1e-9);
}

#[test]
fn head_on_a_line_turns_along_the_line() {
    let line = VelloLine::new(pt(0.0, 100.0), pt(0.0, -100.0));
    let head = Head::new().with_time(fx(0.5)).with_rotation_offset(fx(0.25));
    let transform = prepare_head(&line, &head);
    assert_eq!(transform.translation, pt(0.0, 0.0));
    assert_eq!(
        transform.rotation,
        Rotation::Along(Direction { dx: 0, dy: fx(-200.0).raw as i128 })
    );
    assert_eq!(transform.rotation_offset, fx(0.25));
    assert_eq!(transform.scale, fx(1.0));
    assert_eq!(radians(transform.rotation), -std::f64::consts::FRAC_PI_2);
}

#[test]
fn head_on_a_path_follows_the_curve() {
    let mut path = BezPath::new();
    path.move_to(pt(0.0, 100.0));
    path.curve_to(pt(-100.0, 50.0), pt(100.0, -50.0), pt(0.0, -100.0));
    path.close_path();
    let vector = VelloBezPath::new().with_path(path);
    let head = Head::new().with_time(fx(0.25)).with_offset_splat(fx(2.0));
    let transform = prepare_head(&vector, &head);
    // a quarter of the time is the middle of the curve
    assert_eq!(transform.translation, pt(2.0, 2.0));
    assert_eq!(
        transform.rotation,
        Rotation::Along(Direction { dx: fx(50.0).raw as i128, dy: fx(-75.0).raw as i128 })
    );
    let at_end = prepare_head(&vector, &Head::new());
    assert_eq!(at_end.translation, pt(0.0, 100.0));
    assert_eq!(
        at_end.rotation,
        Rotation::Along(Direction { dx: 0, dy: fx(200.0).raw as i128 })
    );
}

#[test]
fn head_offset_saturates() {
    let line = VelloLine::new(
        Point::new(Fixed { raw: i64::MAX }, Fixed { raw: i64::MIN }),
        Point::new(Fixed { raw: i64::MAX }, Fixed { raw: i64::MIN }),
    );
    let head = Head::new().with_offset(pt(1.0, -1.0));
    let transform = prepare_head(&line, &head);
    assert_eq!(transform.translation, Point::new(Fixed { raw: i64::MAX }, Fixed { raw: i64::MIN }));
    assert_eq!(transform.rotation, Rotation::Along(Direction { dx: 0, dy: 0 }));
    assert_eq!(radians(transform.rotation), 0.0);
}

#[test]
fn path_elements_survive_the_bundle() {
    let elements = vec![PathEl::MoveTo(pt(0.0, -10.0)), PathEl::LineTo(pt(0.0, 10.0))];
    let bundle = HeadBundle::new(VelloBezPath::new().with_path(BezPath::from_vec(elements.clone())));
    assert_eq!(bundle.vector.0.path.elements(), &elements);
}
