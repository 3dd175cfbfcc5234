//! Bézier paths: their elements and segments, the position and the tangent
//! direction on their border, and the partial path that a trace leaves.

use vstd::prelude::*;
use crate::fixed::{Fixed, ONE_RAW, clamp_unit_raw};
use crate::point::{Point, Direction, Rotation, lerp_point, direction_between, origin};
use crate::vector::{Shape, Vector};

verus! {

/// One element of a path.
#[derive(Clone, Copy, Debug, PartialEq, Eq, Structural)]
pub enum PathEl {
    /// Start a new subpath at the point.
    MoveTo(Point),
    /// A straight line to the point.
    LineTo(Point),
    /// A quadratic Bézier curve: its control point, its end point.
    QuadTo(Point, Point),
    /// A cubic Bézier curve: its two control points, its end point.
    CurveTo(Point, Point, Point),
    /// A straight line back to the start of the subpath.
    ClosePath,
}

/// One segment of a path, with its start point.
#[derive(Clone, Copy, Debug, PartialEq, Eq, Structural)]
pub enum PathSeg {
    Line { p0: Point, p1: Point },
    Quad { p0: Point, p1: Point, p2: Point },
    Cubic { p0: Point, p1: Point, p2: Point, p3: Point },
}

/// A Bézier path: a sequence of elements.
#[derive(Clone, Debug)]
pub struct BezPath {
    pub elements: Vec<PathEl>,
}

/// Bézier path with a trace: the part of the path, from its start, that is
/// drawn.
#[derive(Clone, Debug)]
pub struct VelloBezPath {
    /// Bézier path.
    pub path: BezPath,
    /// Tracing percentage from the start to the end of the entire Bézier path.
    pub trace: Fixed,
}

impl View for BezPath {
    type V = Seq<PathEl>;

    open spec fn view(&self) -> Seq<PathEl> {
        self.elements@
    }
}

/// The point at which an element leaves the pen; `ClosePath` names none.
pub open spec fn end_point(el: PathEl) -> Option<Point> {
    match el {
        PathEl::MoveTo(p) => Some(p),
        PathEl::LineTo(p) => Some(p),
        PathEl::QuadTo(_, p) => Some(p),
        PathEl::CurveTo(_, _, p) => Some(p),
        PathEl::ClosePath => None,
    }
}

/// The point of a quadratic Bézier curve at `t`, by de Casteljau's
/// construction.
pub open spec fn quad_point(p0: Point, p1: Point, p2: Point, t: Fixed) -> Point {
    lerp_point(lerp_point(p0, p1, t), lerp_point(p1, p2, t), t)
}

/// The point of a cubic Bézier curve at `t`, by de Casteljau's construction.
pub open spec fn cubic_point(p0: Point, p1: Point, p2: Point, p3: Point, t: Fixed) -> Point {
    quad_point(lerp_point(p0, p1, t), lerp_point(p1, p2, t), lerp_point(p2, p3, t), t)
}

/// The part of a quadratic curve from its start to its point at `t`, as an
/// element: the first point of de Casteljau's construction is its control
/// point.
pub open spec fn quad_pathel(p0: Point, p1: Point, p2: Point, t: Fixed) -> PathEl {
    PathEl::QuadTo(lerp_point(p0, p1, t), quad_point(p0, p1, p2, t))
}

/// The part of a cubic curve from its start to its point at `t`, as an
/// element: the first points of the first and second level of de Casteljau's
/// construction are its control points.
pub open spec fn cubic_pathel(p0: Point, p1: Point, p2: Point, p3: Point, t: Fixed) -> PathEl {
    PathEl::CurveTo(
        lerp_point(p0, p1, t),
        lerp_point(lerp_point(p0, p1, t), lerp_point(p1, p2, t), t),
        cubic_point(p0, p1, p2, p3, t),
    )
}

/// The direction of a quadratic curve at `t`: the secant between the two
/// points of the first level of de Casteljau's construction.
pub open spec fn quad_direction(p0: Point, p1: Point, p2: Point, t: Fixed) -> Direction {
    direction_between(lerp_point(p0, p1, t), lerp_point(p1, p2, t))
}

/// The direction of a cubic curve at `t`: the secant between the two points
/// of the second level of de Casteljau's construction.
pub open spec fn cubic_direction(p0: Point, p1: Point, p2: Point, p3: Point, t: Fixed)
    -> Direction {
    quad_direction(lerp_point(p0, p1, t), lerp_point(p1, p2, t), lerp_point(p2, p3, t), t)
}

/// The element `el`, drawn from `p0`, cut off at `t`. At `t` one it is `el`
/// itself; `ClosePath` is never cut.
pub open spec fn interp_el(p0: Point, el: PathEl, t: Fixed) -> PathEl {
    if t.raw == ONE_RAW {
        el
    } else {
        match el {
            PathEl::MoveTo(p1) => PathEl::MoveTo(lerp_point(p0, p1, t)),
            PathEl::LineTo(p1) => PathEl::LineTo(lerp_point(p0, p1, t)),
            PathEl::QuadTo(p1, p2) => quad_pathel(p0, p1, p2, t),
            PathEl::CurveTo(p1, p2, p3) => cubic_pathel(p0, p1, p2, p3, t),
            PathEl::ClosePath => PathEl::ClosePath,
        }
    }
}

/// The point of a segment at the local parameter `t`.
pub open spec fn seg_point(seg: PathSeg, t: Fixed) -> Point {
    match seg {
        PathSeg::Line { p0, p1 } => lerp_point(p0, p1, t),
        PathSeg::Quad { p0, p1, p2 } => quad_point(p0, p1, p2, t),
        PathSeg::Cubic { p0, p1, p2, p3 } => cubic_point(p0, p1, p2, p3, t),
    }
}

/// The tangent direction of a segment at the local parameter `t`. On a line
/// it is the same for every `t`.
pub open spec fn seg_direction(seg: PathSeg, t: Fixed) -> Direction {
    match seg {
        PathSeg::Line { p0, p1 } => direction_between(p0, p1),
        PathSeg::Quad { p0, p1, p2 } => quad_direction(p0, p1, p2, t),
        PathSeg::Cubic { p0, p1, p2, p3 } => cubic_direction(p0, p1, p2, p3, t),
    }
}

/// The start of the subpath that is open before element `ix`: the point of
/// the most recent `MoveTo` among the elements before `ix`.
pub open spec fn subpath_start(els: Seq<PathEl>, ix: int) -> Option<Point>
    decreases ix,
{
    if ix <= 0 || ix > els.len() {
        None
    } else {
        match els[ix - 1] {
            PathEl::MoveTo(p) => Some(p),
            _ => subpath_start(els, ix - 1),
        }
    }
}

/// The segment that element `ix` draws. It starts where the element before
/// it ends. `ClosePath` draws a line back to the start of its subpath. There
/// is no segment for the first element, for a `MoveTo`, after a `ClosePath`,
/// or for a `ClosePath` with no `MoveTo` before it.
pub open spec fn seg_at(els: Seq<PathEl>, ix: int) -> Option<PathSeg> {
    if ix <= 0 || ix >= els.len() {
        None
    } else {
        match end_point(els[ix - 1]) {
            None => None,
            Some(last) => match els[ix] {
                PathEl::MoveTo(_) => None,
                PathEl::LineTo(p) => Some(PathSeg::Line { p0: last, p1: p }),
                PathEl::QuadTo(p1, p2) => Some(PathSeg::Quad { p0: last, p1, p2 }),
                PathEl::CurveTo(p1, p2, p3) => Some(PathSeg::Cubic { p0: last, p1, p2, p3 }),
                PathEl::ClosePath => match subpath_start(els, ix) {
                    Some(start) => Some(PathSeg::Line { p0: last, p1: start }),
                    None => None,
                },
            },
        }
    }
}

/// A well-formed path is one subpath: it begins with a `MoveTo`, holds no
/// other, and only its last element may close it.
pub open spec fn well_formed(els: Seq<PathEl>) -> bool {
    &&& els.len() >= 1
    &&& els[0] is MoveTo
    &&& forall|ix: int| 1 <= ix < els.len() ==> !(#[trigger] els[ix] is MoveTo)
    &&& forall|ix: int| 0 <= ix < els.len() - 1 ==> !(#[trigger] els[ix] is ClosePath)
}

/// The index, from zero, of the segment on which the raw time `t` falls when
/// `count` segments share the unit interval equally: the whole part of
/// `t * count`, and the last segment at the end of the interval.
pub open spec fn seg_index(count: int, t: int) -> int {
    let i = (t * count) / (ONE_RAW as int);
    if i > count - 1 {
        count - 1
    } else {
        i
    }
}

/// The local parameter on that segment: what `t * count` has beyond the
/// segment's index. It is one only at the end of the last segment.
pub open spec fn seg_local(count: int, t: int) -> int {
    t * count - seg_index(count, t) * ONE_RAW
}

/// Where a path without the segment asked for is taken to be: at the point of
/// its first element, and at the origin where there is none.
pub open spec fn fallback_point(els: Seq<PathEl>) -> Point {
    if els.len() == 0 {
        origin()
    } else {
        match end_point(els[0]) {
            Some(p) => p,
            None => origin(),
        }
    }
}

/// The position on the border of a path at `time`. The time is clamped to the
/// unit interval, which the segments share equally.
pub open spec fn position_at(els: Seq<PathEl>, time: Fixed) -> Point {
    let t = clamp_unit_raw(time.raw as int);
    let count = els.len() - 1;
    if els.len() < 2 {
        fallback_point(els)
    } else {
        match seg_at(els, seg_index(count, t) + 1) {
            Some(seg) => seg_point(seg, Fixed { raw: seg_local(count, t) as i64 }),
            None => fallback_point(els),
        }
    }
}

/// The rotation of the tangent on the border of a path at `time`. Where the
/// path has no segment there, the tangent does not turn.
pub open spec fn tangent_at(els: Seq<PathEl>, time: Fixed) -> Rotation {
    let t = clamp_unit_raw(time.raw as int);
    let count = els.len() - 1;
    if els.len() < 2 {
        Rotation::Turns(Fixed { raw: 0 })
    } else {
        match seg_at(els, seg_index(count, t) + 1) {
            Some(seg) => Rotation::Along(
                seg_direction(seg, Fixed { raw: seg_local(count, t) as i64 }),
            ),
            None => Rotation::Turns(Fixed { raw: 0 }),
        }
    }
}

/// Where the pen stands before element `ix` is drawn: at the end point of
/// the most recent element before `ix` that names one, and at the origin
/// where there is none.
pub open spec fn pen_before(els: Seq<PathEl>, ix: int) -> Point
    decreases ix,
{
    if ix <= 0 || ix > els.len() {
        origin()
    } else {
        match end_point(els[ix - 1]) {
            Some(p) => p,
            None => pen_before(els, ix - 1),
        }
    }
}

/// The start of the subpath that is open before element `ix`, and the origin
/// where no subpath was started.
pub open spec fn start_before(els: Seq<PathEl>, ix: int) -> Point {
    match subpath_start(els, ix) {
        Some(p) => p,
        None => origin(),
    }
}

/// How many elements a trace with the raw value `t`, in the unit interval,
/// reaches of a path of `count` elements: those whose index is below
/// `t * count`.
pub open spec fn trace_len(count: int, t: int) -> int {
    (t * count + (ONE_RAW - 1)) / (ONE_RAW as int)
}

/// How much of element `ix` such a trace covers: `t * count - ix`, and no
/// more than all of it.
pub open spec fn trace_interp(count: int, t: int, ix: int) -> int {
    let v = t * count - ix * ONE_RAW;
    if v > ONE_RAW {
        ONE_RAW as int
    } else {
        v
    }
}

/// What the trace leaves of element `ix`. A `MoveTo` is never cut. Another
/// element is cut off at the part that the trace covers, drawn from where the
/// pen stands. A `ClosePath` that is not covered whole becomes a line towards
/// the start of its subpath, cut off in the same way.
pub open spec fn traced_el(els: Seq<PathEl>, t: int, ix: int) -> PathEl {
    let part = Fixed { raw: trace_interp(els.len() as int, t, ix) as i64 };
    match els[ix] {
        PathEl::MoveTo(p) => PathEl::MoveTo(p),
        PathEl::ClosePath => if part.raw == ONE_RAW {
            PathEl::ClosePath
        } else {
            interp_el(pen_before(els, ix), PathEl::LineTo(start_before(els, ix)), part)
        },
        el => interp_el(pen_before(els, ix), el, part),
    }
}

/// The part of a path that a trace leaves: the elements that it reaches, the
/// last of them cut off where the trace ends. The trace is clamped to the
/// unit interval.
pub open spec fn trace_path(els: Seq<PathEl>, trace: Fixed) -> Seq<PathEl> {
    let t = clamp_unit_raw(trace.raw as int);
    Seq::new(trace_len(els.len() as int, t) as nat, |ix: int| traced_el(els, t, ix))
}

impl PathEl {
    /// The point at which the element leaves the pen; `ClosePath` names none.
    pub fn end_point(&self) -> (r: Option<Point>)
        ensures
            r == end_point(*self),
    {
        match self {
            PathEl::MoveTo(p) => Some(*p),
            PathEl::LineTo(p) => Some(*p),
            PathEl::QuadTo(_, p) => Some(*p),
            PathEl::CurveTo(_, _, p) => Some(*p),
            PathEl::ClosePath => None,
        }
    }
}

impl BezPath {
    /// The empty path.
    pub fn new() -> (r: BezPath)
        ensures
            r@ == Seq::<PathEl>::empty(),
    {
        BezPath { elements: Vec::new() }
    }

    /// The path with the given elements.
    pub fn from_vec(elements: Vec<PathEl>) -> (r: BezPath)
        ensures
            r@ == elements@,
    {
        BezPath { elements }
    }

    /// Appends an element.
    pub fn push(&mut self, el: PathEl)
        ensures
            final(self)@ == old(self)@.push(el),
    {
        self.elements.push(el);
    }

    /// Starts a new subpath at `p`.
    pub fn move_to(&mut self, p: Point)
        ensures
            final(self)@ == old(self)@.push(PathEl::MoveTo(p)),
    {
        self.elements.push(PathEl::MoveTo(p));
    }

    /// Appends a straight line to `p`.
    pub fn line_to(&mut self, p: Point)
        ensures
            final(self)@ == old(self)@.push(PathEl::LineTo(p)),
    {
        self.elements.push(PathEl::LineTo(p));
    }

    /// Appends a quadratic curve with control point `p1` to `p2`.
    pub fn quad_to(&mut self, p1: Point, p2: Point)
        ensures
            final(self)@ == old(self)@.push(PathEl::QuadTo(p1, p2)),
    {
        self.elements.push(PathEl::QuadTo(p1, p2));
    }

    /// Appends a cubic curve with control points `p1` and `p2` to `p3`.
    pub fn curve_to(&mut self, p1: Point, p2: Point, p3: Point)
        ensures
            final(self)@ == old(self)@.push(PathEl::CurveTo(p1, p2, p3)),
    {
        self.elements.push(PathEl::CurveTo(p1, p2, p3));
    }

    /// Closes the subpath.
    pub fn close_path(&mut self)
        ensures
            final(self)@ == old(self)@.push(PathEl::ClosePath),
    {
        self.elements.push(PathEl::ClosePath);
    }

    /// The elements of the path.
    pub fn elements(&self) -> (r: &Vec<PathEl>)
        ensures
            r@ == self@,
    {
        &self.elements
    }

    /// Tells whether the path is well-formed: one subpath that begins with a
    /// `MoveTo`, holds no other, and is closed by its last element or not at
    /// all.
    pub fn is_well_formed(&self) -> (r: bool)
        ensures
            r == well_formed(self@),
    {
        let n = self.elements.len();
        if n == 0 {
            return false;
        }
        match self.elements[0] {
            PathEl::MoveTo(_) => {},
            _ => {
                return false;
            },
        }
        let mut i: usize = 1;
        while i < n
            invariant
                1 <= i <= n,
                n == self@.len(),
                self@[0] is MoveTo,
                forall|ix: int| 1 <= ix < i ==> !(#[trigger] self@[ix] is MoveTo),
                forall|ix: int| 0 <= ix < i && ix < n - 1 ==> !(#[trigger] self@[ix] is ClosePath),
            decreases n - i,
        {
            match self.elements[i] {
                PathEl::MoveTo(_) => {
                    return false;
                },
                PathEl::ClosePath => {
                    if i + 1 < n {
                        return false;
                    }
                },
                _ => {},
            }
            i += 1;
        }
        true
    }

    /// The start of the subpath that is open before element `ix`.
    pub fn subpath_start(&self, ix: usize) -> (r: Option<Point>)
        ensures
            r == subpath_start(self@, ix as int),
    {
        if ix > self.elements.len() {
            return None;
        }
        let mut i: usize = ix;
        while i > 0
            invariant
                i <= ix <= self.elements.len(),
                subpath_start(self@, ix as int) == subpath_start(self@, i as int),
            decreases i,
        {
            i -= 1;
            if let PathEl::MoveTo(p) = self.elements[i] {
                return Some(p);
            }
        }
        None
    }

    /// The segment that element `ix` draws, if it draws one.
    pub fn get_seg(&self, ix: usize) -> (r: Option<PathSeg>)
        ensures
            r == seg_at(self@, ix as int),
    {
        if ix == 0 || ix >= self.elements.len() {
            return None;
        }
        let last = match self.elements[ix - 1].end_point() {
            Some(p) => p,
            None => {
                return None;
            },
        };
        match self.elements[ix] {
            PathEl::MoveTo(_) => None,
            PathEl::LineTo(p) => Some(PathSeg::Line { p0: last, p1: p }),
            PathEl::QuadTo(p1, p2) => Some(PathSeg::Quad { p0: last, p1, p2 }),
            PathEl::CurveTo(p1, p2, p3) => Some(PathSeg::Cubic { p0: last, p1, p2, p3 }),
            PathEl::ClosePath => match self.subpath_start(ix) {
                Some(start) => Some(PathSeg::Line { p0: last, p1: start }),
                None => None,
            },
        }
    }
}

impl VelloBezPath {
    /// An empty path, drawn whole.
    pub fn new() -> (r: VelloBezPath)
        ensures
            r.path@ == Seq::<PathEl>::empty(),
            r.trace.raw == ONE_RAW,
    {
        VelloBezPath { path: BezPath::new(), trace: Fixed::one() }
    }

    /// The same with another path.
    pub fn with_path(self, path: BezPath) -> (r: VelloBezPath)
        ensures
            r.path == path,
            r.trace == self.trace,
    {
        let mut this = self;
        this.path = path;
        this
    }

    /// The same with another trace.
    pub fn with_trace(self, trace: Fixed) -> (r: VelloBezPath)
        ensures
            r.path == self.path,
            r.trace == trace,
    {
        let mut this = self;
        this.trace = trace;
        this
    }
}

impl Default for VelloBezPath {
    fn default() -> (r: VelloBezPath)
        ensures
            r.path@ == Seq::<PathEl>::empty(),
            r.trace.raw == ONE_RAW,
    {
        VelloBezPath::new()
    }
}

impl Vector for VelloBezPath {
    open spec fn border_point(&self, time: Fixed) -> Point {
        position_at(self.path@, time)
    }

    open spec fn border_tangent(&self, time: Fixed) -> Rotation {
        tangent_at(self.path@, time)
    }

    /// The traced part of the path.
    fn shape(&self) -> (r: Shape)
        ensures
            r matches Shape::Path(traced) && traced@ == trace_path(self.path@, self.trace),
    {
        let pathels = &self.path.elements;
        let mut path = BezPath::new();

        let pathel_count = pathels.len();
        let trace = self.trace.clamp_unit();
        assert(0 <= trace.raw * pathel_count <= ONE_RAW * pathel_count) by (nonlinear_arith)
            requires
                0 <= trace.raw <= ONE_RAW,
                pathel_count >= 0,
        ;
        let trace_raw: i128 = (trace.raw as i128) * (pathel_count as i128);

        let mut most_recent_initial = Point::zero();
        let mut most_recent_point = Point::zero();

        let mut path_index: usize = 0;
        while path_index < pathel_count
            invariant_except_break
                path_index <= pathel_count,
                path_index > 0 ==> (path_index - 1) * ONE_RAW < trace_raw,
            invariant
                pathels@ == self.path@,
                pathel_count == pathels@.len(),
                trace.raw == clamp_unit_raw(self.trace.raw as int),
                trace_raw == trace.raw * pathel_count,
                0 <= trace_raw <= ONE_RAW * pathel_count,
                path@.len() == path_index,
                forall|j: int|
                    0 <= j < path_index ==> path@[j] == traced_el(
                        self.path@,
                        trace.raw as int,
                        j,
                    ),
                most_recent_initial == start_before(self.path@, path_index as int),
                most_recent_point == pen_before(self.path@, path_index as int),
            ensures
                path_index == trace_len(pathel_count as int, trace.raw as int),
            decreases pathel_count - path_index,
        {
            let interp_wide: i128 = trace_raw - (path_index as i128) * (ONE_RAW as i128);
            if interp_wide <= 0 {
                break;
            }
            // Clamp value within one
            let interp_value = Fixed {
                raw: if interp_wide > ONE_RAW as i128 {
                    ONE_RAW
                } else {
                    interp_wide as i64
                },
            };
            let pathel = pathels[path_index];

            match pathel {
                PathEl::MoveTo(p) => {
                    path.push(PathEl::MoveTo(p));

                    most_recent_initial = p;
                    most_recent_point = p;
                },
                PathEl::LineTo(p) => {
                    path.push(interp_pathel(most_recent_point, pathel, interp_value));

                    most_recent_point = p;
                },
                PathEl::QuadTo(_, p) => {
                    path.push(interp_pathel(most_recent_point, pathel, interp_value));

                    most_recent_point = p;
                },
                PathEl::CurveTo(_, _, p) => {
                    path.push(interp_pathel(most_recent_point, pathel, interp_value));

                    most_recent_point = p;
                },
                PathEl::ClosePath => {
                    if interp_value.raw == ONE_RAW {
                        path.push(PathEl::ClosePath);
                    } else {
                        path.push(
                            interp_pathel(
                                most_recent_point,
                                PathEl::LineTo(most_recent_initial),
                                interp_value,
                            ),
                        );
                    }
                },
            }
            path_index += 1;
        }

        Shape::Path(path)
    }

    fn border_translation(&self, time: Fixed) -> (r: Point) {
        let pathels = &self.path.elements;
        let pathel_count = pathels.len();

        let fallback = if pathel_count == 0 {
            Point::zero()
        } else {
            match pathels[0].end_point() {
                Some(point) => point,
                None => Point::zero(),
            }
        };

        // Guarantee to have at least 2 path elements
        if pathel_count < 2 {
            return fallback;
        }
        let seg_count = pathel_count - 1;
        let (trace_index, t) = locate_segment(seg_count, time);
        let seg_index = trace_index + 1;

        if let Some(segment) = self.path.get_seg(seg_index) {
            return match segment {
                PathSeg::Line { p0, p1 } => p0.lerp(p1, t),
                PathSeg::Quad { p0, p1, p2 } => lerp_quad_point(p0, p1, p2, t),
                PathSeg::Cubic { p0, p1, p2, p3 } => lerp_cubic_point(p0, p1, p2, p3, t),
            };
        }
        // All else fails..

        fallback
    }

    fn border_rotation(&self, time: Fixed) -> (r: Rotation) {
        let pathel_count = self.path.elements.len();

        let fallback = Rotation::Turns(Fixed::zero());

        // Guarantee to have at least 2 path elements
        if pathel_count < 2 {
            return fallback;
        }
        let seg_count = pathel_count - 1;
        let (trace_index, t) = locate_segment(seg_count, time);
        let seg_index = trace_index + 1;

        if let Some(segment) = self.path.get_seg(seg_index) {
            return match segment {
                PathSeg::Line { p0, p1 } => Rotation::Along(p0.direction_to(p1)),
                PathSeg::Quad { p0, p1, p2 } => {
                    // Point between p0 and p1
                    let x0 = p0.lerp(p1, t);
                    // Point between p1 and p2
                    let x1 = p1.lerp(p2, t);
                    Rotation::Along(x0.direction_to(x1))
                },
                PathSeg::Cubic { p0, p1, p2, p3 } => {
                    // Points of the first level
                    let x0 = p0.lerp(p1, t);
                    let x1 = p1.lerp(p2, t);
                    let x2 = p2.lerp(p3, t);
                    // Points of the second level
                    let y0 = x0.lerp(x1, t);
                    let y1 = x1.lerp(x2, t);

                    Rotation::Along(y0.direction_to(y1))
                },
            };
        }
        // All else fails..

        fallback
    }
}

/// Finds the segment on which `time` falls when `seg_count` segments share
/// the unit interval equally: its index from zero, and the local parameter on
/// it.
pub fn locate_segment(seg_count: usize, time: Fixed) -> (r: (usize, Fixed))
    requires
        seg_count >= 1,
    ensures
        r.0 == seg_index(seg_count as int, clamp_unit_raw(time.raw as int)),
        r.1.raw == seg_local(seg_count as int, clamp_unit_raw(time.raw as int)),
        r.0 < seg_count,
        r.1.in_unit(),
{
    let t = time.clamp_unit();
    let one: u128 = ONE_RAW as u128;
    assert(0 <= t.raw * seg_count <= ONE_RAW * seg_count) by (nonlinear_arith)
        requires
            0 <= t.raw <= ONE_RAW,
            seg_count >= 1,
    ;
    let trace_raw: u128 = (t.raw as u128) * (seg_count as u128);
    let whole: u128 = trace_raw / one;
    let trace_index: usize = if whole > (seg_count - 1) as u128 {
        seg_count - 1
    } else {
        whole as usize
    };
    let local: u128 = trace_raw - (trace_index as u128) * one;
    (trace_index, Fixed { raw: local as i64 })
}

/// Cuts the element `pathel`, drawn from `p0`, off at `t`.
pub fn interp_pathel(p0: Point, pathel: PathEl, t: Fixed) -> (r: PathEl)
    requires
        t.in_unit(),
    ensures
        r == interp_el(p0, pathel, t),
{
    if t.raw == ONE_RAW {
        return pathel;
    }
    match pathel {
        PathEl::MoveTo(p1) => PathEl::MoveTo(p0.lerp(p1, t)),
        PathEl::LineTo(p1) => PathEl::LineTo(p0.lerp(p1, t)),
        PathEl::QuadTo(p1, p2) => lerp_quad_pathel(p0, p1, p2, t),
        PathEl::CurveTo(p1, p2, p3) => lerp_cubic_pathel(p0, p1, p2, p3, t),
        PathEl::ClosePath => PathEl::ClosePath,
    }
}

/// The quadratic curve from `p0` with control point `p1` to `p2`, cut off at
/// `t`.
pub fn lerp_quad_pathel(p0: Point, p1: Point, p2: Point, t: Fixed) -> (r: PathEl)
    requires
        t.in_unit(),
    ensures
        r == quad_pathel(p0, p1, p2, t),
{
    // Point between p0 and p1
    let x0 = p0.lerp(p1, t);
    // Point between p1 and p2
    let x1 = p1.lerp(p2, t);
    // Point on curve
    let end_p = x0.lerp(x1, t);

    PathEl::QuadTo(x0, end_p)
}

/// The point at `t` of the quadratic curve from `p0` with control point `p1`
/// to `p2`.
pub fn lerp_quad_point(p0: Point, p1: Point, p2: Point, t: Fixed) -> (r: Point)
    requires
        t.in_unit(),
    ensures
        r == quad_point(p0, p1, p2, t),
{
    let x0 = p0.lerp(p1, t);
    let x1 = p1.lerp(p2, t);
    x0.lerp(x1, t)
}

/// The cubic curve from `p0` with control points `p1`, `p2` to `p3`, cut off
/// at `t`.
pub fn lerp_cubic_pathel(p0: Point, p1: Point, p2: Point, p3: Point, t: Fixed) -> (r: PathEl)
    requires
        t.in_unit(),
    ensures
        r == cubic_pathel(p0, p1, p2, p3, t),
{
    // Points of the first level
    let x0 = p0.lerp(p1, t);
    let x1 = p1.lerp(p2, t);
    let x2 = p2.lerp(p3, t);
    // Points of the second level
    let y0 = x0.lerp(x1, t);
    let y1 = x1.lerp(x2, t);
    // Point on curve
    let end_p = y0.lerp(y1, t);

    PathEl::CurveTo(x0, y0, end_p)
}

/// The point at `t` of the cubic curve from `p0` with control points `p1`,
/// `p2` to `p3`.
pub fn lerp_cubic_point(p0: Point, p1: Point, p2: Point, p3: Point, t: Fixed) -> (r: Point)
    requires
        t.in_unit(),
    ensures
        r == cubic_point(p0, p1, p2, p3, t),
{
    let x0 = p0.lerp(p1, t);
    let x1 = p1.lerp(p2, t);
    let x2 = p2.lerp(p3, t);
    let y0 = x0.lerp(x1, t);
    let y1 = x1.lerp(x2, t);
    y0.lerp(y1, t)
}

} // verus!
