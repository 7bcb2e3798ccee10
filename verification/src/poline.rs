//! The interpolation engine: an ordered list of anchor color-points, paired
//! into segments (with wraparound when the loop is closed), each segment
//! filled with a fixed number of easing-deformed interpolated color-points.
//!
//! Every structural mutation performs its edit and then rebuilds the derived
//! pair list and point grid from scratch; read-only queries only look at the
//! cached result.  A refused mutation leaves the engine untouched.

use crate::error::PolineError;
use crate::fns::fixes_endpoints;
use crate::fns::PositionFn;
use crate::fns::Transformer;
use crate::fx::lemma_fx_mul_one;
use crate::fx::lemma_fx_mul_zero;
use crate::fx::FX_ONE;
use crate::point::cp_from_hsl;
use crate::point::cp_from_point;
use crate::point::css_chars;
use crate::point::distance_spec;
use crate::point::line_point_spec;
use crate::point::lerp_spec;
use crate::point::shift_hue_spec;
use crate::point::vectors_on_line;
use crate::point::ColorPoint;
use crate::point::Hsl;
use crate::point::HslPairInit;
use crate::point::PartialPoint3;
use crate::point::Point3;
use crate::point::PointOrHsl;
use crate::point::hue_stepped;
use crate::point::FX_DEG360;
use crate::point::FX_FIFTH;
use crate::point::FX_THREE_QUARTERS;
use vstd::arithmetic::div_mod::lemma_div_by_multiple;
use vstd::arithmetic::div_mod::lemma_fundamental_div_mod_converse;
use vstd::prelude::*;

verus! {

/// 20 degrees, Q32.32: the default hue-shift step.
pub const FX_DEG20: i64 = 0x14_0000_0000;

/// The largest representable points-per-segment count: the count is carried
/// in an `i32` at the public surface.
pub const MAX_POINTS_PER_SEGMENT: usize = 0x7FFF_FFFF;

/// The palette engine.
pub struct Poline {
    anchor_points: Vec<ColorPoint>,
    num_points: usize,
    pos_fn_x: Transformer,
    pos_fn_y: Transformer,
    pos_fn_z: Transformer,
    inverted: bool,
    points: Vec<Vec<ColorPoint>>,
    anchor_pairs: Vec<Vec<ColorPoint>>,
    closed_loop: bool,
}

/// The mathematical content of an engine: its anchors, settings, and the two
/// derived caches.
pub struct PolineView {
    pub anchors: Seq<ColorPoint>,
    pub num_points: int,
    pub cx: PositionFn,
    pub cy: PositionFn,
    pub cz: PositionFn,
    pub inverted: bool,
    pub closed_loop: bool,
    pub pairs: Seq<Seq<ColorPoint>>,
    pub grid: Seq<Seq<ColorPoint>>,
}

impl View for Poline {
    type V = PolineView;

    closed spec fn view(&self) -> PolineView {
        PolineView {
            anchors: self.anchor_points@,
            num_points: self.num_points as int,
            cx: self.pos_fn_x.curve,
            cy: self.pos_fn_y.curve,
            cz: self.pos_fn_z.curve,
            inverted: self.inverted,
            closed_loop: self.closed_loop,
            pairs: Seq::new(self.anchor_pairs@.len(), |i: int| self.anchor_pairs@[i]@),
            grid: Seq::new(self.points@.len(), |i: int| self.points@[i]@),
        }
    }
}

impl PolineView {
    /// How many consecutive anchor pairs there are.
    pub open spec fn pair_count(self) -> int {
        if self.closed_loop {
            self.anchors.len() as int
        } else {
            self.anchors.len() - 1
        }
    }

    /// The interpolated color-point `k` of segment `i`: the Cartesian
    /// interpolation between the segment's anchors, eased with the
    /// alternating per-segment flag, converted back to a color under the
    /// engine's global inversion flag.
    pub open spec fn seg_cp(self, i: int, k: int) -> ColorPoint {
        let n = self.anchors.len() as int;
        cp_from_point(
            line_point_spec(
                self.anchors[i].point,
                self.anchors[(i + 1) % n].point,
                k,
                self.num_points,
                i % 2 == 0,
                self.cx,
                self.cy,
                self.cz,
            ),
            self.inverted,
        )
    }

    /// The derived caches agree with the anchors and settings.
    pub open spec fn derived_ok(self) -> bool {
        let n = self.anchors.len() as int;
        let pc = self.pair_count();
        &&& self.pairs.len() == pc
        &&& forall|i: int|
            0 <= i < pc ==> {
                &&& (#[trigger] self.pairs[i]).len() == 2
                &&& self.pairs[i][0] == self.anchors[i]
                &&& self.pairs[i][1] == self.anchors[(i + 1) % n]
            }
        &&& self.grid.len() == pc
        &&& forall|i: int| 0 <= i < pc ==> (#[trigger] self.grid[i]).len() == self.num_points
        &&& forall|i: int, k: int|
            0 <= i < pc && 0 <= k < self.num_points ==> (#[trigger] self.grid[i][k])
                == self.seg_cp(i, k)
    }

    /// The engine invariant: at least two anchors, a sane segment size, every
    /// anchor carrying the engine's inversion flag, and fresh caches.
    pub open spec fn wf(self) -> bool {
        &&& self.anchors.len() >= 2
        &&& 2 <= self.num_points <= MAX_POINTS_PER_SEGMENT as int
        &&& forall|i: int|
            0 <= i < self.anchors.len() ==> (#[trigger] self.anchors[i]).inverted == self.inverted
        &&& self.derived_ok()
    }
}

impl Poline {
    /// Rebuild the anchor-pair list and the interpolated point grid from the
    /// current anchors and settings.
    fn update_anchor_pairs(&mut self)
        requires
            old(self)@.anchors.len() >= 2,
            2 <= old(self)@.num_points <= MAX_POINTS_PER_SEGMENT as int,
        ensures
            final(self)@.anchors == old(self)@.anchors,
            final(self)@.num_points == old(self)@.num_points,
            final(self)@.cx == old(self)@.cx,
            final(self)@.cy == old(self)@.cy,
            final(self)@.cz == old(self)@.cz,
            final(self)@.inverted == old(self)@.inverted,
            final(self)@.closed_loop == old(self)@.closed_loop,
            final(self)@.derived_ok(),
    {
        let n: usize = self.anchor_points.len();
        let pc: usize = if self.closed_loop {
            n
        } else {
            n - 1
        };
        let mut pairs: Vec<Vec<ColorPoint>> = Vec::new();
        let mut i: usize = 0;
        while i < pc
            invariant
                n == self.anchor_points@.len(),
                pc == self@.pair_count(),
                n >= 2,
                i <= pc,
                pairs@.len() == i,
                forall|j: int|
                    0 <= j < i ==> {
                        &&& (#[trigger] pairs@[j])@.len() == 2
                        &&& pairs@[j]@[0] == self@.anchors[j]
                        &&& pairs@[j]@[1] == self@.anchors[(j + 1) % (n as int)]
                    },
            decreases pc - i,
        {
            let a: ColorPoint = self.anchor_points[i];
            let b: ColorPoint = self.anchor_points[(i + 1) % n];
            let mut pair: Vec<ColorPoint> = Vec::new();
            pair.push(a);
            pair.push(b);
            pairs.push(pair);
            i = i + 1;
        }
        let mut grid: Vec<Vec<ColorPoint>> = Vec::new();
        let mut i: usize = 0;
        while i < pc
            invariant
                n == self.anchor_points@.len(),
                pc == self@.pair_count(),
                n >= 2,
                2 <= self.num_points <= MAX_POINTS_PER_SEGMENT,
                i <= pc,
                grid@.len() == i,
                forall|j: int|
                    0 <= j < i ==> (#[trigger] grid@[j])@.len() == self.num_points,
                forall|j: int, k: int|
                    0 <= j < i && 0 <= k < self.num_points ==> (#[trigger] grid@[j]@[k])
                        == self@.seg_cp(j, k),
            decreases pc - i,
        {
            let p1: Point3 = self.anchor_points[i].point;
            let p2: Point3 = self.anchor_points[(i + 1) % n].point;
            let raw: Vec<Point3> = vectors_on_line(
                &p1,
                &p2,
                self.num_points as i32,
                i % 2 == 0,
                self.pos_fn_x,
                self.pos_fn_y,
                self.pos_fn_z,
            );
            let mut seg: Vec<ColorPoint> = Vec::new();
            let mut k: usize = 0;
            while k < raw.len()
                invariant
                    raw@.len() == self.num_points,
                    k <= self.num_points,
                    seg@.len() == k,
                    i < pc,
                    pc == self@.pair_count(),
                    n == self.anchor_points@.len(),
                    n >= 2,
                    2 <= self.num_points <= MAX_POINTS_PER_SEGMENT,
                    p1 == self@.anchors[i as int].point,
                    p2 == self@.anchors[((i as int) + 1) % (n as int)].point,
                    forall|m: int|
                        0 <= m < raw@.len() ==> raw@[m] == line_point_spec(
                            p1,
                            p2,
                            m,
                            self.num_points as int,
                            i % 2 == 0,
                            self.pos_fn_x.curve,
                            self.pos_fn_y.curve,
                            self.pos_fn_z.curve,
                        ),
                    forall|m: int|
                        0 <= m < k ==> (#[trigger] seg@[m]) == self@.seg_cp(i as int, m),
                decreases raw@.len() - k,
            {
                let cp: ColorPoint = ColorPoint::from_point(raw[k], self.inverted);
                seg.push(cp);
                k = k + 1;
            }
            grid.push(seg);
            i = i + 1;
        }
        self.anchor_pairs = pairs;
        self.points = grid;
    }
}

/// Accumulates the settings of a palette engine and builds it.
pub struct PolineBuilder {
    anchor_colors: Vec<Hsl>,
    num_points: i32,
    position_fn_x: Option<Transformer>,
    position_fn_y: Option<Transformer>,
    position_fn_z: Option<Transformer>,
    closed_loop: bool,
    inverted: bool,
}

impl PolineBuilder {
    /// The anchor colors the engine will start from.
    pub closed spec fn anchor_colors_spec(self) -> Seq<Hsl> {
        self.anchor_colors@
    }

    /// The requested points-per-segment count.
    pub closed spec fn num_points_spec(self) -> int {
        self.num_points as int
    }

    /// The requested flags and curves.
    pub closed spec fn closed_loop_spec(self) -> bool {
        self.closed_loop
    }

    pub closed spec fn inverted_spec(self) -> bool {
        self.inverted
    }

    pub closed spec fn fn_x_spec(self) -> Option<Transformer> {
        self.position_fn_x
    }

    pub closed spec fn fn_y_spec(self) -> Option<Transformer> {
        self.position_fn_y
    }

    pub closed spec fn fn_z_spec(self) -> Option<Transformer> {
        self.position_fn_z
    }

    /// Set the points-per-segment count (endpoints included).
    pub fn num_points(self, points: i32) -> (r: Self)
        ensures
            r.num_points_spec() == points as int,
            r.anchor_colors_spec() == self.anchor_colors_spec(),
            r.closed_loop_spec() == self.closed_loop_spec(),
            r.inverted_spec() == self.inverted_spec(),
            r.fn_x_spec() == self.fn_x_spec(),
            r.fn_y_spec() == self.fn_y_spec(),
            r.fn_z_spec() == self.fn_z_spec(),
    {
        PolineBuilder { num_points: points, ..self }
    }

    /// Set the anchor colors.
    pub fn anchor_points(self, points: Vec<Hsl>) -> (r: Self)
        ensures
            r.anchor_colors_spec() == points@,
            r.num_points_spec() == self.num_points_spec(),
            r.closed_loop_spec() == self.closed_loop_spec(),
            r.inverted_spec() == self.inverted_spec(),
            r.fn_x_spec() == self.fn_x_spec(),
            r.fn_y_spec() == self.fn_y_spec(),
            r.fn_z_spec() == self.fn_z_spec(),
    {
        PolineBuilder { anchor_colors: points, ..self }
    }

    /// Connect the last anchor back to the first.
    pub fn closed_loop(self, closed_loop: bool) -> (r: Self)
        ensures
            r.closed_loop_spec() == closed_loop,
            r.anchor_colors_spec() == self.anchor_colors_spec(),
            r.num_points_spec() == self.num_points_spec(),
            r.inverted_spec() == self.inverted_spec(),
            r.fn_x_spec() == self.fn_x_spec(),
            r.fn_y_spec() == self.fn_y_spec(),
            r.fn_z_spec() == self.fn_z_spec(),
    {
        PolineBuilder { closed_loop, ..self }
    }

    /// Choose the easing curve of the first axis.
    pub fn set_x_fn(self, f: Transformer) -> (r: Self)
        ensures
            r.fn_x_spec() == Some(f),
            r.anchor_colors_spec() == self.anchor_colors_spec(),
            r.num_points_spec() == self.num_points_spec(),
            r.closed_loop_spec() == self.closed_loop_spec(),
            r.inverted_spec() == self.inverted_spec(),
            r.fn_y_spec() == self.fn_y_spec(),
            r.fn_z_spec() == self.fn_z_spec(),
    {
        PolineBuilder { position_fn_x: Some(f), ..self }
    }

    /// Choose the easing curve of the second axis.
    pub fn set_y_fn(self, f: Transformer) -> (r: Self)
        ensures
            r.fn_y_spec() == Some(f),
            r.anchor_colors_spec() == self.anchor_colors_spec(),
            r.num_points_spec() == self.num_points_spec(),
            r.closed_loop_spec() == self.closed_loop_spec(),
            r.inverted_spec() == self.inverted_spec(),
            r.fn_x_spec() == self.fn_x_spec(),
            r.fn_z_spec() == self.fn_z_spec(),
    {
        PolineBuilder { position_fn_y: Some(f), ..self }
    }

    /// Choose the easing curve of the third axis.
    pub fn set_z_fn(self, f: Transformer) -> (r: Self)
        ensures
            r.fn_z_spec() == Some(f),
            r.anchor_colors_spec() == self.anchor_colors_spec(),
            r.num_points_spec() == self.num_points_spec(),
            r.closed_loop_spec() == self.closed_loop_spec(),
            r.inverted_spec() == self.inverted_spec(),
            r.fn_x_spec() == self.fn_x_spec(),
            r.fn_y_spec() == self.fn_y_spec(),
    {
        PolineBuilder { position_fn_z: Some(f), ..self }
    }

    /// Use the inverted polar-radius convention (radius one minus lightness).
    pub fn invert_lightness(self, invert: bool) -> (r: Self)
        ensures
            r.inverted_spec() == invert,
            r.anchor_colors_spec() == self.anchor_colors_spec(),
            r.num_points_spec() == self.num_points_spec(),
            r.closed_loop_spec() == self.closed_loop_spec(),
            r.fn_x_spec() == self.fn_x_spec(),
            r.fn_y_spec() == self.fn_y_spec(),
            r.fn_z_spec() == self.fn_z_spec(),
    {
        PolineBuilder { inverted: invert, ..self }
    }

    /// Build the engine: fails with `InsufficientAnchors` when fewer than two
    /// anchor colors were given, and with `InvalidPointsPerSegment` when the
    /// points-per-segment count cannot describe a segment (below two, which
    /// folds in the otherwise-unguarded single-point division by zero).
    pub fn build(self) -> (r: Result<Poline, PolineError>)
        ensures
            r is Err <==> (self.anchor_colors_spec().len() < 2 || self.num_points_spec() < 2),
            self.anchor_colors_spec().len() < 2 ==> r == Result::<Poline, PolineError>::Err(
                PolineError::InsufficientAnchors,
            ),
            (self.anchor_colors_spec().len() >= 2 && self.num_points_spec() < 2) ==> r
                == Result::<Poline, PolineError>::Err(PolineError::InvalidPointsPerSegment),
            r is Ok ==> {
                let p = r->Ok_0;
                &&& p@.wf()
                &&& p@.anchors.len() == self.anchor_colors_spec().len()
                &&& forall|i: int|
                    0 <= i < p@.anchors.len() ==> (#[trigger] p@.anchors[i]) == cp_from_hsl(
                        self.anchor_colors_spec()[i],
                        self.inverted_spec(),
                    )
                &&& p@.num_points == self.num_points_spec()
                &&& p@.closed_loop == self.closed_loop_spec()
                &&& p@.inverted == self.inverted_spec()
                &&& p@.cx == curve_or_default(self.fn_x_spec())
                &&& p@.cy == curve_or_default(self.fn_y_spec())
                &&& p@.cz == curve_or_default(self.fn_z_spec())
            },
    {
        if self.anchor_colors.len() < 2 {
            return Err(PolineError::InsufficientAnchors);
        }
        if self.num_points < 2 {
            return Err(PolineError::InvalidPointsPerSegment);
        }
        let mut anchors: Vec<ColorPoint> = Vec::new();
        let mut i: usize = 0;
        while i < self.anchor_colors.len()
            invariant
                i <= self.anchor_colors@.len(),
                anchors@.len() == i,
                forall|j: int|
                    0 <= j < i ==> (#[trigger] anchors@[j]) == cp_from_hsl(
                        self.anchor_colors@[j],
                        self.inverted,
                    ),
            decreases self.anchor_colors@.len() - i,
        {
            anchors.push(ColorPoint::from_hsl(self.anchor_colors[i], self.inverted));
            i = i + 1;
        }
        let pos_fn_x: Transformer = unwrap_or_sine(self.position_fn_x);
        let pos_fn_y: Transformer = unwrap_or_sine(self.position_fn_y);
        let pos_fn_z: Transformer = unwrap_or_sine(self.position_fn_z);
        let mut out: Poline = Poline {
            num_points: self.num_points as usize,
            anchor_points: anchors,
            points: Vec::new(),
            anchor_pairs: Vec::new(),
            pos_fn_x,
            pos_fn_y,
            pos_fn_z,
            inverted: self.inverted,
            closed_loop: self.closed_loop,
        };
        out.update_anchor_pairs();
        Ok(out)
    }
}

/// The curve a builder slot denotes: the given one, or the default sine ease.
pub open spec fn curve_or_default(f: Option<Transformer>) -> PositionFn {
    match f {
        Some(t) => t.curve,
        None => PositionFn::Sinusoidal,
    }
}

/// Unwrap a builder slot to its transformer, defaulting to the sine ease.
fn unwrap_or_sine(f: Option<Transformer>) -> (r: Transformer)
    ensures
        r.curve == curve_or_default(f),
{
    match f {
        Some(t) => t,
        None => Transformer { curve: PositionFn::Sinusoidal },
    }
}

impl Default for PolineBuilder {
    /// A builder with two random anchor colors, four points per segment, the
    /// sine ease on every axis, an open loop, and the plain radius
    /// convention.  The random colors carry hues in `[0, 360)`, saturations
    /// in `[0, 1)` and lightnesses in the bright band `[3/4, 19/20)`.
    fn default() -> (r: Self)
        ensures
            r.anchor_colors_spec().len() == 2,
            forall|i: int|
                0 <= i < 2 ==> {
                    &&& 0 <= (#[trigger] r.anchor_colors_spec()[i]).h < FX_DEG360
                    &&& 0 <= r.anchor_colors_spec()[i].s < FX_ONE
                    &&& FX_THREE_QUARTERS <= r.anchor_colors_spec()[i].l <= FX_THREE_QUARTERS
                        + FX_FIFTH
                },
            hue_stepped(
                r.anchor_colors_spec()[0].h as int,
                r.anchor_colors_spec()[1].h as int,
            ),
            r.num_points_spec() == 4,
            r.closed_loop_spec() == false,
            r.inverted_spec() == false,
            r.fn_x_spec() == Option::<Transformer>::None,
            r.fn_y_spec() == Option::<Transformer>::None,
            r.fn_z_spec() == Option::<Transformer>::None,
    {
        let pair: [Hsl; 2] = Hsl::random_pair(HslPairInit::default());
        let mut colors: Vec<Hsl> = Vec::new();
        colors.push(pair[0]);
        colors.push(pair[1]);
        PolineBuilder {
            anchor_colors: colors,
            num_points: 4,
            position_fn_x: None,
            position_fn_y: None,
            position_fn_z: None,
            closed_loop: false,
            inverted: false,
        }
    }
}

impl PolineView {
    /// How long the flattened sequence is: every segment contributes its
    /// points except the duplicated junction anchor it shares with the
    /// segment before it.
    pub open spec fn flat_len(self) -> int {
        self.pair_count() * (self.num_points - 1) + 1
    }

    /// Element `j` of the flattened sequence.
    pub open spec fn flat_at(self, j: int) -> ColorPoint {
        if j == 0 {
            self.grid[0][0]
        } else {
            self.grid[(j - 1) / (self.num_points - 1)][((j - 1) % (self.num_points - 1)) + 1]
        }
    }

    /// The distance from anchor `i` to the query, in the representation the
    /// query uses, with the circular hue metric left off.
    pub open spec fn anchor_query_dist(self, q: PointOrHsl, i: int) -> i64 {
        match q {
            PointOrHsl::Point(p) => distance_spec(
                pp3_of_point(self.anchors[i].point),
                pp3_of_point(p),
                None,
            ),
            PointOrHsl::Hsl(c) => distance_spec(
                pp3_of_hsl(self.anchors[i].color),
                pp3_of_hsl(c),
                None,
            ),
        }
    }
}

/// All three coordinates of a point, present.
pub open spec fn pp3_of_point(p: Point3) -> PartialPoint3 {
    PartialPoint3(Some(p.x), Some(p.y), Some(p.z))
}

/// All three coordinates of a color, present.
pub open spec fn pp3_of_hsl(c: Hsl) -> PartialPoint3 {
    PartialPoint3(Some(c.h), Some(c.s), Some(c.l))
}

/// The anchor a replacement request denotes under the engine's flag.
pub open spec fn updated_anchor_spec(update: PointOrHsl, inverted: bool) -> ColorPoint {
    match update {
        PointOrHsl::Point(p) => cp_from_point(p, inverted),
        PointOrHsl::Hsl(c) => cp_from_hsl(c, inverted),
    }
}

impl Poline {
    /// A builder with two random anchor colors: hues in `[0, 360)`,
    /// saturations in `[0, 1)`, lightnesses in the bright band
    /// `[3/4, 19/20)`; four points per segment, the sine ease on every axis,
    /// an open loop, and the plain radius convention.
    pub fn builder() -> (r: PolineBuilder)
        ensures
            r.anchor_colors_spec().len() == 2,
            forall|i: int|
                0 <= i < 2 ==> {
                    &&& 0 <= (#[trigger] r.anchor_colors_spec()[i]).h < FX_DEG360
                    &&& 0 <= r.anchor_colors_spec()[i].s < FX_ONE
                    &&& FX_THREE_QUARTERS <= r.anchor_colors_spec()[i].l <= FX_THREE_QUARTERS
                        + FX_FIFTH
                },
            hue_stepped(
                r.anchor_colors_spec()[0].h as int,
                r.anchor_colors_spec()[1].h as int,
            ),
            r.num_points_spec() == 4,
            r.closed_loop_spec() == false,
            r.inverted_spec() == false,
            r.fn_x_spec() == Option::<Transformer>::None,
            r.fn_y_spec() == Option::<Transformer>::None,
            r.fn_z_spec() == Option::<Transformer>::None,
    {
        PolineBuilder::default()
    }

    /// The points-per-segment count, endpoints included.
    pub fn num_points(&self) -> (r: i32)
        requires
            self@.wf(),
        ensures
            r as int == self@.num_points,
    {
        self.num_points as i32
    }

    /// Change the points-per-segment count and rebuild.  A count below two
    /// (which could not describe a segment: a segment carries both endpoints)
    /// is refused and leaves the engine unchanged.
    pub fn set_num_points(&mut self, num: i32) -> (r: Result<(), PolineError>)
        requires
            old(self)@.wf(),
        ensures
            final(self)@.wf(),
            r is Err <==> num < 2,
            r is Err ==> r == Result::<(), PolineError>::Err(PolineError::InvalidPointsPerSegment)
                && final(self)@ == old(self)@,
            r is Ok ==> {
                &&& final(self)@.num_points == num as int
                &&& final(self)@.anchors == old(self)@.anchors
                &&& final(self)@.cx == old(self)@.cx
                &&& final(self)@.cy == old(self)@.cy
                &&& final(self)@.cz == old(self)@.cz
                &&& final(self)@.inverted == old(self)@.inverted
                &&& final(self)@.closed_loop == old(self)@.closed_loop
            },
    {
        if num < 2 {
            return Err(PolineError::InvalidPointsPerSegment);
        }
        self.num_points = num as usize;
        self.update_anchor_pairs();
        Ok(())
    }

    /// Replace the three per-axis easing curves and rebuild.
    pub fn set_position_fn(&mut self, fns: [Transformer; 3])
        requires
            old(self)@.wf(),
        ensures
            final(self)@.wf(),
            final(self)@.cx == fns@[0].curve,
            final(self)@.cy == fns@[1].curve,
            final(self)@.cz == fns@[2].curve,
            final(self)@.anchors == old(self)@.anchors,
            final(self)@.num_points == old(self)@.num_points,
            final(self)@.inverted == old(self)@.inverted,
            final(self)@.closed_loop == old(self)@.closed_loop,
    {
        self.pos_fn_x = fns[0];
        self.pos_fn_y = fns[1];
        self.pos_fn_z = fns[2];
        self.update_anchor_pairs();
    }

    /// The three per-axis easing curves.
    pub fn position_fn(&self) -> (r: [Transformer; 3])
        ensures
            r@[0].curve == self@.cx,
            r@[1].curve == self@.cy,
            r@[2].curve == self@.cz,
    {
        [self.pos_fn_x, self.pos_fn_y, self.pos_fn_z]
    }

    /// The anchor list.
    pub fn anchor_points(&self) -> (r: &Vec<ColorPoint>)
        ensures
            r@ == self@.anchors,
    {
        &self.anchor_points
    }

    /// Replace the whole anchor list and rebuild.  Each anchor is re-derived
    /// from its color under the engine's inversion flag, so the engine stays
    /// self-consistent whatever flags the given points carried.  Fewer than
    /// two points are refused and leave the engine unchanged.
    pub fn set_anchor_points(&mut self, points: Vec<ColorPoint>) -> (r: Result<(), PolineError>)
        requires
            old(self)@.wf(),
        ensures
            final(self)@.wf(),
            r is Err <==> points@.len() < 2,
            r is Err ==> r == Result::<(), PolineError>::Err(PolineError::InsufficientAnchors)
                && final(self)@ == old(self)@,
            r is Ok ==> {
                &&& final(self)@.anchors.len() == points@.len()
                &&& forall|i: int|
                    0 <= i < points@.len() ==> (#[trigger] final(self)@.anchors[i]) == cp_from_hsl(
                        points@[i].color,
                        old(self)@.inverted,
                    )
                &&& final(self)@.num_points == old(self)@.num_points
                &&& final(self)@.cx == old(self)@.cx
                &&& final(self)@.cy == old(self)@.cy
                &&& final(self)@.cz == old(self)@.cz
                &&& final(self)@.inverted == old(self)@.inverted
                &&& final(self)@.closed_loop == old(self)@.closed_loop
            },
    {
        if points.len() < 2 {
            return Err(PolineError::InsufficientAnchors);
        }
        let mut anchors: Vec<ColorPoint> = Vec::new();
        let mut i: usize = 0;
        while i < points.len()
            invariant
                i <= points@.len(),
                anchors@.len() == i,
                forall|j: int|
                    0 <= j < i ==> (#[trigger] anchors@[j]) == cp_from_hsl(
                        points@[j].color,
                        self@.inverted,
                    ),
            decreases points@.len() - i,
        {
            anchors.push(ColorPoint::from_hsl(points[i].color, self.inverted));
            i = i + 1;
        }
        self.anchor_points = anchors;
        self.update_anchor_pairs();
        Ok(())
    }

    /// Insert an anchor (at the index, or at the end) and rebuild.  The
    /// anchor adopts the engine's inversion flag, its point re-derived from
    /// its color; the adopted anchor is returned.
    pub fn add_anchor_point(&mut self, color_point: ColorPoint, at_index: Option<usize>) -> (r:
        ColorPoint)
        requires
            old(self)@.wf(),
            at_index matches Some(ix) ==> ix <= old(self)@.anchors.len(),
        ensures
            final(self)@.wf(),
            r == cp_from_hsl(color_point.color, old(self)@.inverted),
            final(self)@.anchors == old(self)@.anchors.insert(
                match at_index {
                    Some(ix) => ix as int,
                    None => old(self)@.anchors.len() as int,
                },
                r,
            ),
            final(self)@.num_points == old(self)@.num_points,
            final(self)@.cx == old(self)@.cx,
            final(self)@.cy == old(self)@.cy,
            final(self)@.cz == old(self)@.cz,
            final(self)@.inverted == old(self)@.inverted,
            final(self)@.closed_loop == old(self)@.closed_loop,
    {
        let mut point: ColorPoint = color_point;
        point.set_inverted(self.inverted);
        match at_index {
            Some(index) => self.anchor_points.insert(index, point),
            None => {
                self.anchor_points.push(point);
                proof {
                    assert(self.anchor_points@ =~= old(self).anchor_points@.insert(
                        old(self).anchor_points@.len() as int,
                        point,
                    ));
                }
            },
        }
        self.update_anchor_pairs();
        point
    }

    /// Remove the anchor at `index` and rebuild, returning it.  An index at
    /// or past the end is refused with `IndexOutOfRange`; removing one of
    /// only two anchors is refused with `InsufficientAnchors`; either refusal
    /// leaves the engine unchanged.
    pub fn remove_anchor_point(&mut self, index: usize) -> (r: Result<ColorPoint, PolineError>)
        requires
            old(self)@.wf(),
        ensures
            final(self)@.wf(),
            index >= old(self)@.anchors.len() ==> r == Result::<ColorPoint, PolineError>::Err(
                PolineError::IndexOutOfRange,
            ) && final(self)@ == old(self)@,
            index < old(self)@.anchors.len() && old(self)@.anchors.len() == 2 ==> r == Result::<
                ColorPoint,
                PolineError,
            >::Err(PolineError::InsufficientAnchors) && final(self)@ == old(self)@,
            index < old(self)@.anchors.len() && old(self)@.anchors.len() > 2 ==> {
                &&& r == Result::<ColorPoint, PolineError>::Ok(old(self)@.anchors[index as int])
                &&& final(self)@.anchors == old(self)@.anchors.remove(index as int)
                &&& final(self)@.num_points == old(self)@.num_points
                &&& final(self)@.cx == old(self)@.cx
                &&& final(self)@.cy == old(self)@.cy
                &&& final(self)@.cz == old(self)@.cz
                &&& final(self)@.inverted == old(self)@.inverted
                &&& final(self)@.closed_loop == old(self)@.closed_loop
            },
    {
        if index >= self.anchor_points.len() {
            return Err(PolineError::IndexOutOfRange);
        }
        if self.anchor_points.len() == 2 {
            return Err(PolineError::InsufficientAnchors);
        }
        let out: ColorPoint = self.anchor_points.remove(index);
        self.update_anchor_pairs();
        Ok(out)
    }

    /// Replace the anchor at `index` by the given point or color (re-derived
    /// under the engine's inversion flag) and rebuild, returning the new
    /// anchor.  An index at or past the end is refused and leaves the engine
    /// unchanged.
    pub fn update_anchor_point(&mut self, index: usize, update: PointOrHsl) -> (r: Result<
        ColorPoint,
        PolineError,
    >)
        requires
            old(self)@.wf(),
        ensures
            final(self)@.wf(),
            index >= old(self)@.anchors.len() ==> r == Result::<ColorPoint, PolineError>::Err(
                PolineError::IndexOutOfRange,
            ) && final(self)@ == old(self)@,
            index < old(self)@.anchors.len() ==> {
                &&& r == Result::<ColorPoint, PolineError>::Ok(
                    updated_anchor_spec(update, old(self)@.inverted),
                )
                &&& final(self)@.anchors == old(self)@.anchors.update(
                    index as int,
                    updated_anchor_spec(update, old(self)@.inverted),
                )
                &&& final(self)@.num_points == old(self)@.num_points
                &&& final(self)@.cx == old(self)@.cx
                &&& final(self)@.cy == old(self)@.cy
                &&& final(self)@.cz == old(self)@.cz
                &&& final(self)@.inverted == old(self)@.inverted
                &&& final(self)@.closed_loop == old(self)@.closed_loop
            },
    {
        if index >= self.anchor_points.len() {
            return Err(PolineError::IndexOutOfRange);
        }
        let out: ColorPoint = match update {
            PointOrHsl::Point(p) => ColorPoint::from_point(p, self.inverted),
            PointOrHsl::Hsl(c) => ColorPoint::from_hsl(c, self.inverted),
        };
        self.anchor_points.set(index, out);
        self.update_anchor_pairs();
        Ok(out)
    }

    /// Whether the last anchor connects back to the first.
    pub fn closed_loop(&self) -> (r: bool)
        ensures
            r == self@.closed_loop,
    {
        self.closed_loop
    }

    /// Open or close the loop and rebuild.
    pub fn set_closed_loop(&mut self, closed_loop: bool)
        requires
            old(self)@.wf(),
        ensures
            final(self)@.wf(),
            final(self)@.closed_loop == closed_loop,
            final(self)@.anchors == old(self)@.anchors,
            final(self)@.num_points == old(self)@.num_points,
            final(self)@.cx == old(self)@.cx,
            final(self)@.cy == old(self)@.cy,
            final(self)@.cz == old(self)@.cz,
            final(self)@.inverted == old(self)@.inverted,
    {
        self.closed_loop = closed_loop;
        self.update_anchor_pairs();
    }

    /// The engine-wide polar inversion flag.
    pub fn inverted(&self) -> (r: bool)
        ensures
            r == self@.inverted,
    {
        self.inverted
    }

    /// Change the inversion flag: every anchor's point is re-derived from
    /// its color under the new flag, and everything is rebuilt.
    pub fn set_inverted(&mut self, inverted: bool)
        requires
            old(self)@.wf(),
        ensures
            final(self)@.wf(),
            final(self)@.inverted == inverted,
            final(self)@.anchors.len() == old(self)@.anchors.len(),
            forall|i: int|
                0 <= i < old(self)@.anchors.len() ==> (#[trigger] final(self)@.anchors[i])
                    == cp_from_hsl(old(self)@.anchors[i].color, inverted),
            final(self)@.num_points == old(self)@.num_points,
            final(self)@.cx == old(self)@.cx,
            final(self)@.cy == old(self)@.cy,
            final(self)@.cz == old(self)@.cz,
            final(self)@.closed_loop == old(self)@.closed_loop,
    {
        let mut i: usize = 0;
        while i < self.anchor_points.len()
            invariant
                i <= self.anchor_points@.len(),
                self.anchor_points@.len() == old(self)@.anchors.len(),
                forall|j: int|
                    0 <= j < i ==> (#[trigger] self.anchor_points@[j]) == cp_from_hsl(
                        old(self)@.anchors[j].color,
                        inverted,
                    ),
                forall|j: int|
                    i <= j < self.anchor_points@.len() ==> (#[trigger] self.anchor_points@[j])
                        == old(self)@.anchors[j],
                self.num_points == old(self).num_points,
                self.pos_fn_x == old(self).pos_fn_x,
                self.pos_fn_y == old(self).pos_fn_y,
                self.pos_fn_z == old(self).pos_fn_z,
                self.closed_loop == old(self).closed_loop,
            decreases self.anchor_points@.len() - i,
        {
            let mut cp: ColorPoint = self.anchor_points[i];
            cp.set_inverted(inverted);
            self.anchor_points.set(i, cp);
            i = i + 1;
        }
        self.inverted = inverted;
        self.update_anchor_pairs();
    }

    /// Shift every anchor's hue by the given angle (default 20 degrees),
    /// re-derive each anchor's point, and rebuild.
    pub fn shift_hue(&mut self, h_shift: Option<i64>)
        requires
            old(self)@.wf(),
        ensures
            final(self)@.wf(),
            final(self)@.anchors.len() == old(self)@.anchors.len(),
            forall|i: int|
                0 <= i < old(self)@.anchors.len() ==> (#[trigger] final(self)@.anchors[i])
                    == cp_from_hsl(
                    shift_hue_spec(
                        old(self)@.anchors[i].color,
                        match h_shift {
                            Some(v) => v as int,
                            None => FX_DEG20 as int,
                        },
                    ),
                    old(self)@.inverted,
                ),
            final(self)@.num_points == old(self)@.num_points,
            final(self)@.cx == old(self)@.cx,
            final(self)@.cy == old(self)@.cy,
            final(self)@.cz == old(self)@.cz,
            final(self)@.inverted == old(self)@.inverted,
            final(self)@.closed_loop == old(self)@.closed_loop,
    {
        let val: i64 = match h_shift {
            Some(v) => v,
            None => FX_DEG20,
        };
        let mut i: usize = 0;
        while i < self.anchor_points.len()
            invariant
                i <= self.anchor_points@.len(),
                self.anchor_points@.len() == old(self)@.anchors.len(),
                forall|j: int|
                    0 <= j < i ==> (#[trigger] self.anchor_points@[j]) == cp_from_hsl(
                        shift_hue_spec(old(self)@.anchors[j].color, val as int),
                        self.inverted,
                    ),
                forall|j: int|
                    i <= j < self.anchor_points@.len() ==> (#[trigger] self.anchor_points@[j])
                        == old(self)@.anchors[j],
                forall|j: int|
                    0 <= j < self.anchor_points@.len() ==> (#[trigger] self.anchor_points@[j])
                        .inverted == self.inverted,
                self.num_points == old(self).num_points,
                self.pos_fn_x == old(self).pos_fn_x,
                self.pos_fn_y == old(self).pos_fn_y,
                self.pos_fn_z == old(self).pos_fn_z,
                self.inverted == old(self).inverted,
                self.closed_loop == old(self).closed_loop,
            decreases self.anchor_points@.len() - i,
        {
            let mut cp: ColorPoint = self.anchor_points[i];
            cp.shift_hue(val);
            self.anchor_points.set(i, cp);
            i = i + 1;
        }
        self.update_anchor_pairs();
    }

    /// The nearest anchor to the query point or color, with its distance.
    /// Comparison uses the representation the query uses; of several anchors
    /// at the minimal distance the last one is returned.  The circular hue
    /// metric is left off even for color queries.
    pub fn get_closest_anchor_point(&self, point_or_hsl: PointOrHsl) -> (r: Option<(
        ColorPoint,
        i64,
    )>)
        requires
            self@.wf(),
        ensures
            r is Some,
            ({
                let (cp, d) = r->Some_0;
                exists|i: int|
                    {
                        &&& 0 <= i < self@.anchors.len()
                        &&& cp == self@.anchors[i]
                        &&& d == self@.anchor_query_dist(point_or_hsl, i)
                        &&& forall|j: int|
                            0 <= j < self@.anchors.len() ==> #[trigger] self@.anchor_query_dist(
                                point_or_hsl,
                                j,
                            ) >= d
                        &&& forall|j: int|
                            i < j < self@.anchors.len() ==> #[trigger] self@.anchor_query_dist(
                                point_or_hsl,
                                j,
                            ) > d
                    }
            }),
    {
        let other: PartialPoint3 = match &point_or_hsl {
            PointOrHsl::Point(p) => PartialPoint3::from_point(p),
            PointOrHsl::Hsl(c) => PartialPoint3::from_hsl(c),
        };
        let use_point: bool = match &point_or_hsl {
            PointOrHsl::Point(_) => true,
            PointOrHsl::Hsl(_) => false,
        };
        let mut best_i: usize = 0;
        let mut best_d: i64 = self.anchor_distance(0, &other, use_point, &point_or_hsl);
        let mut i: usize = 1;
        while i < self.anchor_points.len()
            invariant
                self@.wf(),
                1 <= i <= self@.anchors.len(),
                best_i < i,
                use_point == (point_or_hsl is Point),
                other_matches(other, point_or_hsl),
                best_d == self@.anchor_query_dist(point_or_hsl, best_i as int),
                forall|j: int|
                    0 <= j < i ==> #[trigger] self@.anchor_query_dist(point_or_hsl, j) >= best_d,
                forall|j: int|
                    best_i < j < i ==> #[trigger] self@.anchor_query_dist(point_or_hsl, j)
                        > best_d,
            decreases self@.anchors.len() - i,
        {
            let d: i64 = self.anchor_distance(i, &other, use_point, &point_or_hsl);
            if d <= best_d {
                best_i = i;
                best_d = d;
            }
            i = i + 1;
        }
        Some((self.anchor_points[best_i], best_d))
    }

    /// The distance from anchor `i` to the prepared query.
    fn anchor_distance(
        &self,
        i: usize,
        other: &PartialPoint3,
        use_point: bool,
        point_or_hsl: &PointOrHsl,
    ) -> (d: i64)
        requires
            self@.wf(),
            i < self@.anchors.len(),
            use_point == (*point_or_hsl is Point),
            other_matches(*other, *point_or_hsl),
        ensures
            d == self@.anchor_query_dist(*point_or_hsl, i as int),
    {
        let anchor: &ColorPoint = &self.anchor_points[i];
        if use_point {
            PartialPoint3::from_point(&anchor.point).distance(other, None)
        } else {
            PartialPoint3::from_hsl(&anchor.color).distance(other, None)
        }
    }

    /// The per-segment sequences concatenated, with every duplicated
    /// junction anchor dropped: of two equal neighbors at a segment border
    /// only the first remains.
    pub fn flattened_points(&self) -> (r: Vec<ColorPoint>)
        requires
            self@.wf(),
        ensures
            r@.len() == self@.flat_len(),
            forall|j: int| 0 <= j < r@.len() ==> (#[trigger] r@[j]) == self@.flat_at(j),
    {
        let np: usize = self.num_points;
        let pc: usize = self.points.len();
        let mut out: Vec<ColorPoint> = Vec::new();
        let mut i: usize = 0;
        while i < pc
            invariant
                self@.wf(),
                np == self@.num_points,
                pc == self@.pair_count(),
                i <= pc,
                out@.len() == if i == 0 {
                    0int
                } else {
                    i * (np - 1) + 1
                },
                forall|j: int| 0 <= j < out@.len() ==> (#[trigger] out@[j]) == self@.flat_at(j),
            decreases pc - i,
        {
            let mut k: usize = 0;
            while k < np
                invariant
                    self@.wf(),
                    np == self@.num_points,
                    pc == self@.pair_count(),
                    i < pc,
                    k <= np,
                    out@.len() == if i == 0 {
                        k as int
                    } else {
                        i * (np - 1) + if k == 0 {
                            1int
                        } else {
                            k as int
                        }
                    },
                    forall|j: int| 0 <= j < out@.len() ==> (#[trigger] out@[j]) == self@.flat_at(j),
                decreases np - k,
            {
                if i == 0 || k > 0 {
                    proof {
                        assert(self.points@.len() == self@.grid.len());
                        assert(self@.grid[i as int] == self.points@[i as int]@);
                        assert(self@.grid[i as int].len() == self@.num_points);
                        let ji = out@.len() as int;
                        let d = (np - 1) as int;
                        if ji > 0 {
                            if i == 0 {
                                vstd::arithmetic::div_mod::lemma_basic_div(ji - 1, d);
                                vstd::arithmetic::div_mod::lemma_small_mod(
                                    (ji - 1) as nat,
                                    d as nat,
                                );
                            } else {
                                assert(ji - 1 == (i as int) * d + ((k as int) - 1));
                                lemma_fundamental_div_mod_converse(
                                    ji - 1,
                                    d,
                                    i as int,
                                    (k as int) - 1,
                                );
                            }
                        }
                    }
                    let cp: ColorPoint = self.points[i][k];
                    out.push(cp);
                }
                k = k + 1;
            }
            proof {
                assert((i + 1) * ((np - 1) as int) == i * ((np - 1) as int) + ((np - 1) as int))
                    by (nonlinear_arith);
            }
            i = i + 1;
        }
        proof {
            if pc > 0 {
                assert(out@.len() == self@.flat_len());
            }
        }
        out
    }

    /// The flattened colors; for a closed loop the final color (a duplicate
    /// of the first anchor's) is dropped.
    pub fn colors(&self) -> (r: Vec<Hsl>)
        requires
            self@.wf(),
        ensures
            r@.len() == self@.flat_len() - if self@.closed_loop {
                1int
            } else {
                0int
            },
            forall|j: int| 0 <= j < r@.len() ==> (#[trigger] r@[j]) == self@.flat_at(j).color,
    {
        let flat: Vec<ColorPoint> = self.flattened_points();
        let take: usize = if self.closed_loop {
            flat.len() - 1
        } else {
            flat.len()
        };
        let mut out: Vec<Hsl> = Vec::new();
        let mut j: usize = 0;
        while j < take
            invariant
                take <= flat@.len(),
                j <= take,
                out@.len() == j,
                forall|m: int| 0 <= m < flat@.len() ==> (#[trigger] flat@[m]) == self@.flat_at(m),
                forall|m: int| 0 <= m < j ==> (#[trigger] out@[m]) == self@.flat_at(m).color,
            decreases take - j,
        {
            out.push(flat[j].color);
            j = j + 1;
        }
        out
    }

    /// The flattened colors as CSS strings; for a closed loop the final
    /// duplicate is dropped.
    pub fn colors_css(&self) -> (r: Vec<String>)
        requires
            self@.wf(),
        ensures
            r@.len() == self@.flat_len() - if self@.closed_loop {
                1int
            } else {
                0int
            },
            forall|j: int|
                0 <= j < r@.len() ==> (#[trigger] r@[j])@ == css_chars(self@.flat_at(j).color),
    {
        let flat: Vec<ColorPoint> = self.flattened_points();
        let take: usize = if self.closed_loop {
            flat.len() - 1
        } else {
            flat.len()
        };
        let mut out: Vec<String> = Vec::new();
        let mut j: usize = 0;
        while j < take
            invariant
                take <= flat@.len(),
                j <= take,
                out@.len() == j,
                forall|m: int| 0 <= m < flat@.len() ==> (#[trigger] flat@[m]) == self@.flat_at(m),
                forall|m: int|
                    0 <= m < j ==> (#[trigger] out@[m])@ == css_chars(self@.flat_at(m).color),
            decreases take - j,
        {
            let s: String = flat[j].css_string();
            out.push(s);
            j = j + 1;
        }
        out
    }
}

/// At progress 0 a segment's first color-point sits exactly on its first
/// anchor's Cartesian point, provided all three curves fix the endpoints.
pub proof fn lemma_seg_endpoint_start(v: PolineView, i: int)
    requires
        v.wf(),
        fixes_endpoints(v.cx, i % 2 == 0),
        fixes_endpoints(v.cy, i % 2 == 0),
        fixes_endpoints(v.cz, i % 2 == 0),
        0 <= i < v.pair_count(),
    ensures
        v.seg_cp(i, 0) == cp_from_point(v.anchors[i].point, v.inverted),
{
    let d = v.num_points - 1;
    let p1 = v.anchors[i].point;
    let p2 = v.anchors[(i + 1) % (v.anchors.len() as int)].point;
    assert(0 * (FX_ONE as int) == 0) by (nonlinear_arith);
    vstd::arithmetic::div_mod::lemma_basic_div(0, d);
    lemma_lerp_zero(p1.x as int, p2.x as int);
    lemma_lerp_zero(p1.y as int, p2.y as int);
    lemma_lerp_zero(p1.z as int, p2.z as int);
}

/// At progress 1 a segment's last color-point sits exactly on its second
/// anchor's Cartesian point, provided all three curves fix the endpoints.
pub proof fn lemma_seg_endpoint_end(v: PolineView, i: int)
    requires
        v.wf(),
        fixes_endpoints(v.cx, i % 2 == 0),
        fixes_endpoints(v.cy, i % 2 == 0),
        fixes_endpoints(v.cz, i % 2 == 0),
        0 <= i < v.pair_count(),
    ensures
        v.seg_cp(i, v.num_points - 1) == cp_from_point(
            v.anchors[(i + 1) % (v.anchors.len() as int)].point,
            v.inverted,
        ),
{
    let d = v.num_points - 1;
    let p1 = v.anchors[i].point;
    let p2 = v.anchors[(i + 1) % (v.anchors.len() as int)].point;
    assert(d * (FX_ONE as int) == (FX_ONE as int) * d) by (nonlinear_arith);
    lemma_div_by_multiple(FX_ONE as int, d);
    lemma_lerp_one(p1.x as int, p2.x as int);
    lemma_lerp_one(p1.y as int, p2.y as int);
    lemma_lerp_one(p1.z as int, p2.z as int);
}

/// Interpolating with factor 0 returns the first endpoint.
proof fn lemma_lerp_zero(a: int, b: int)
    requires
        i64::MIN <= a <= i64::MAX,
        i64::MIN <= b <= i64::MAX,
    ensures
        lerp_spec(a, b, 0) as int == a,
{
    lemma_fx_mul_one(a);
    lemma_fx_mul_zero(b);
}

/// Interpolating with factor 1 returns the second endpoint.
proof fn lemma_lerp_one(a: int, b: int)
    requires
        i64::MIN <= a <= i64::MAX,
        i64::MIN <= b <= i64::MAX,
    ensures
        lerp_spec(a, b, FX_ONE as int) as int == b,
{
    lemma_fx_mul_zero(a);
    lemma_fx_mul_one(b);
}

/// With endpoint-fixing curves on all three axes the flattened sequence
/// passes through every anchor in order: element `m * (num_points - 1)`
/// carries the Cartesian point of anchor `m` (with `m` wrapping around to 0
/// at the closing border of a loop).
pub proof fn lemma_flattened_hits_anchors(v: PolineView, m: int)
    requires
        v.wf(),
        fixes_endpoints(v.cx, true),
        fixes_endpoints(v.cx, false),
        fixes_endpoints(v.cy, true),
        fixes_endpoints(v.cy, false),
        fixes_endpoints(v.cz, true),
        fixes_endpoints(v.cz, false),
        0 <= m <= v.pair_count(),
    ensures
        0 <= m * (v.num_points - 1) < v.flat_len(),
        v.flat_at(m * (v.num_points - 1)) == cp_from_point(
            v.anchors[m % (v.anchors.len() as int)].point,
            v.inverted,
        ),
{
    let np = v.num_points;
    let d = np - 1;
    let n = v.anchors.len() as int;
    let pc = v.pair_count();
    let j = m * d;
    assert(0 <= j <= pc * d) by (nonlinear_arith)
        requires
            0 <= m <= pc,
            d >= 1,
            j == m * d,
    ;
    if m == 0 {
        assert(j == 0) by (nonlinear_arith)
            requires
                j == 0 * d,
        ;
        lemma_seg_endpoint_start(v, 0);
        vstd::arithmetic::div_mod::lemma_small_mod(0nat, n as nat);
    } else {
        assert(j - 1 == (m - 1) * d + (d - 1)) by (nonlinear_arith)
            requires
                j == m * d,
        ;
        assert(j >= 1) by (nonlinear_arith)
            requires
                j == m * d,
                m >= 1,
                d >= 1,
        ;
        lemma_fundamental_div_mod_converse(j - 1, d, m - 1, d - 1);
        lemma_seg_endpoint_end(v, m - 1);
        assert((m - 1 + 1) % n == m % n);
    }
}

/// At every interior segment border the two neighboring per-segment
/// sequences carry the same color-point (the shared anchor), which is why
/// flattening may drop one of the two without losing a color.
pub proof fn lemma_junction_duplicate(v: PolineView, i: int)
    requires
        v.wf(),
        fixes_endpoints(v.cx, true),
        fixes_endpoints(v.cx, false),
        fixes_endpoints(v.cy, true),
        fixes_endpoints(v.cy, false),
        fixes_endpoints(v.cz, true),
        fixes_endpoints(v.cz, false),
        0 <= i,
        i + 1 < v.pair_count(),
    ensures
        v.grid[i][v.num_points - 1] == v.grid[i + 1][0],
{
    let n = v.anchors.len() as int;
    lemma_seg_endpoint_end(v, i);
    lemma_seg_endpoint_start(v, i + 1);
    assert(0 <= i + 1 < n);
    vstd::arithmetic::div_mod::lemma_small_mod((i + 1) as nat, n as nat);
}

/// Whether a prepared partial point is the masked view of the query.
pub open spec fn other_matches(other: PartialPoint3, q: PointOrHsl) -> bool {
    match q {
        PointOrHsl::Point(p) => other == pp3_of_point(p),
        PointOrHsl::Hsl(c) => other == pp3_of_hsl(c),
    }
}

} // verus!
