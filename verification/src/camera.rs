//! The orbit camera: spherical state around a fixed focus point, updated
//! from pointer and wheel input, and a derived world-space pose.
//!
//! Distances and pan offsets are in micro-units, angles in micro-radians
//! (see `fixed`). The distance is kept in `[MIN_DISTANCE_FP, MAX_DISTANCE_FP]`
//! and the elevation in `[-HALF_PI_FP, HALF_PI_FP]`; the azimuth is
//! unbounded and only its congruence class modulo a full turn matters to the
//! derived pose.

use vstd::prelude::*;

use crate::fixed::{clamp_spec, div_trunc, div_trunc_i128, div_trunc_i64, lemma_div_trunc_bound};
use crate::fixed::{Vec2Fp, Vec3Fp, HALF_PI_FP, SCALE, TAU_FP};
use crate::trig::{cos_fp, cos_fp_spec, sin_fp, sin_fp_spec};

verus! {

/// Smallest allowed orbit distance: 5 world-space units.
pub const MIN_DISTANCE_FP: i64 = 5_000_000;

/// Largest allowed orbit distance: 500 world-space units.
pub const MAX_DISTANCE_FP: i64 = 500_000_000;

/// Spherical camera state around a fixed focus point.
#[derive(Clone, Copy, Debug, PartialEq, Eq, Structural)]
pub struct CameraOrbitState {
    /// Fixed look-at focus point, in micro-units.
    pub center: Vec3Fp,
    /// Radial distance from the focus point, in micro-units.
    pub distance: i64,
    /// Horizontal angle in micro-radians; unbounded.
    pub azimuth: i64,
    /// Vertical angle in micro-radians.
    pub elevation: i64,
    /// Accumulated pan offset, added to the position unrotated.
    pub pan: Vec2Fp,
}

/// A derived camera pose: where the camera stands and what it looks at,
/// with world up `(0, 1, 0)`.
#[derive(Clone, Copy, Debug, PartialEq, Eq, Structural)]
pub struct CameraPose {
    pub position: Vec3Fp,
    pub target: Vec3Fp,
}

impl CameraOrbitState {
    /// The state's numeric invariants: distance and elevation inside their
    /// clamped ranges.
    pub open spec fn well_formed(self) -> bool {
        &&& MIN_DISTANCE_FP <= self.distance <= MAX_DISTANCE_FP
        &&& -HALF_PI_FP <= self.elevation <= HALF_PI_FP
    }

    /// The fixed state the scene starts from: focus at the origin, distance
    /// 200 units, azimuth an eighth turn back, elevation an eighth turn up,
    /// no pan.
    pub fn initial() -> (s: CameraOrbitState)
        ensures
            s.center == (Vec3Fp { x: 0, y: 0, z: 0 }),
            s.distance == 200 * SCALE,
            s.azimuth == -785_398,
            s.elevation == 785_398,
            s.pan == (Vec2Fp { x: 0, y: 0 }),
            s.well_formed(),
    {
        CameraOrbitState {
            center: Vec3Fp { x: 0, y: 0, z: 0 },
            distance: 200 * SCALE,
            azimuth: -785_398,
            elevation: 785_398,
            pan: Vec2Fp { x: 0, y: 0 },
        }
    }
}

/// The distance that a wheel delta produces: the old distance scaled by
/// `1 - delta / 10` (in micro-units), then clamped into the allowed range.
pub open spec fn zoomed_distance(distance: int, wheel_delta_y: int) -> int {
    clamp_spec(
        div_trunc(distance * (SCALE - div_trunc(wheel_delta_y, 10)), SCALE as int),
        MIN_DISTANCE_FP as int,
        MAX_DISTANCE_FP as int,
    )
}

impl CameraOrbitState {
    /// Scales the orbit distance by `1 - wheel_delta_y / 10` (the wheel
    /// delta is in micro-units, so one unit of scroll is `SCALE`) and clamps
    /// it into the allowed range. Nothing else changes; a zero delta leaves
    /// the state as it was.
    pub fn apply_zoom(&mut self, wheel_delta_y: i64)
        requires
            old(self).well_formed(),
        ensures
            final(self).distance == zoomed_distance(
                old(self).distance as int,
                wheel_delta_y as int,
            ),
            MIN_DISTANCE_FP <= final(self).distance <= MAX_DISTANCE_FP,
            final(self).well_formed(),
            final(self).center == old(self).center,
            final(self).azimuth == old(self).azimuth,
            final(self).elevation == old(self).elevation,
            final(self).pan == old(self).pan,
            wheel_delta_y == 0 ==> *final(self) == *old(self),
    {
        let tenth: i64 = div_trunc_i64(wheel_delta_y, 10);
        let factor: i64 = SCALE - tenth;
        let d_wide: i128 = self.distance as i128;
        let f_wide: i128 = factor as i128;
        proof {
            assert(-0x7fff_ffff_ffff_ffff_ffff_ffff_ffff_ffff <= d_wide * f_wide
                <= 0x7fff_ffff_ffff_ffff_ffff_ffff_ffff_ffff) by (nonlinear_arith)
                requires
                    0 <= d_wide <= MAX_DISTANCE_FP,
                    -0x5000_0000_0000_0000 <= f_wide <= 0x5000_0000_0000_0000,
            ;
        }
        let scaled: i128 = d_wide * f_wide;
        let unclamped: i128 = div_trunc_i128(scaled, 1_000_000);
        let new_distance: i64 = if unclamped < MIN_DISTANCE_FP as i128 {
            MIN_DISTANCE_FP
        } else if unclamped > MAX_DISTANCE_FP as i128 {
            MAX_DISTANCE_FP
        } else {
            unclamped as i64
        };
        proof {
            if wheel_delta_y == 0 {
                vstd::arithmetic::div_mod::lemma_div_by_multiple(
                    old(self).distance as int,
                    SCALE as int,
                );
            }
        }
        self.distance = new_distance;
    }
}

/// A pan coordinate after a drag: the delta scaled by one tenth is added.
pub open spec fn panned(pan: int, delta: int) -> int {
    pan + div_trunc(delta, 10)
}

/// The azimuth after a drag: the horizontal delta scaled by `0.005` (one two
/// hundredth) is subtracted.
pub open spec fn dragged_azimuth(azimuth: int, delta_x: int) -> int {
    azimuth - div_trunc(delta_x, 200)
}

/// The elevation after a drag: the vertical delta scaled by one two
/// hundredth is added, then the result is clamped to a quarter turn either
/// way.
pub open spec fn dragged_elevation(elevation: int, delta_y: int) -> int {
    clamp_spec(
        elevation + div_trunc(delta_y, 200),
        -HALF_PI_FP as int,
        HALF_PI_FP as int,
    )
}

impl CameraOrbitState {
    /// Applies one tick of pointer drag. A delta exists only when both the
    /// stored last position and this tick's position are present; the middle
    /// button pans by it, the primary button orbits by it, and both may act
    /// at once. The returned value is what the caller must store as the next
    /// tick's last position: this tick's position, whether or not one was
    /// seen.
    pub fn apply_pointer_drag(
        &mut self,
        last_position: Option<Vec2Fp>,
        current_position: Option<Vec2Fp>,
        primary_held: bool,
        middle_held: bool,
    ) -> (stored: Option<Vec2Fp>)
        requires
            old(self).well_formed(),
            (last_position is Some && current_position is Some && middle_held) ==> ({
                let l = last_position.unwrap();
                let c = current_position.unwrap();
                &&& i64::MIN <= panned(old(self).pan.x as int, c.x - l.x) <= i64::MAX
                &&& i64::MIN <= panned(old(self).pan.y as int, c.y - l.y) <= i64::MAX
            }),
            (last_position is Some && current_position is Some && primary_held) ==> ({
                let l = last_position.unwrap();
                let c = current_position.unwrap();
                i64::MIN <= dragged_azimuth(old(self).azimuth as int, c.x - l.x) <= i64::MAX
            }),
        ensures
            stored == current_position,
            final(self).well_formed(),
            -HALF_PI_FP <= final(self).elevation <= HALF_PI_FP,
            final(self).center == old(self).center,
            final(self).distance == old(self).distance,
            (last_position is None || current_position is None) ==> *final(self) == *old(self),
            (last_position is Some && current_position is Some) ==> ({
                let l = last_position.unwrap();
                let c = current_position.unwrap();
                &&& final(self).pan.x == if middle_held {
                    panned(old(self).pan.x as int, c.x - l.x)
                } else {
                    old(self).pan.x as int
                }
                &&& final(self).pan.y == if middle_held {
                    panned(old(self).pan.y as int, c.y - l.y)
                } else {
                    old(self).pan.y as int
                }
                &&& final(self).azimuth == if primary_held {
                    dragged_azimuth(old(self).azimuth as int, c.x - l.x)
                } else {
                    old(self).azimuth as int
                }
                &&& final(self).elevation == if primary_held {
                    dragged_elevation(old(self).elevation as int, c.y - l.y)
                } else {
                    old(self).elevation as int
                }
            }),
            (last_position is Some && current_position is Some && last_position
                == current_position) ==> *final(self) == *old(self),
    {
        if let (Some(last), Some(current)) = (last_position, current_position) {
            let delta_x: i128 = (current.x as i128) - (last.x as i128);
            let delta_y: i128 = (current.y as i128) - (last.y as i128);
            if middle_held {
                let pan_x: i128 = (self.pan.x as i128) + div_trunc_i128(delta_x, 10);
                let pan_y: i128 = (self.pan.y as i128) + div_trunc_i128(delta_y, 10);
                self.pan = Vec2Fp { x: pan_x as i64, y: pan_y as i64 };
            }
            if primary_held {
                let azimuth: i128 = (self.azimuth as i128) - div_trunc_i128(delta_x, 200);
                self.azimuth = azimuth as i64;
                let elevation: i128 = (self.elevation as i128) + div_trunc_i128(delta_y, 200);
                self.elevation = if elevation < (-HALF_PI_FP) as i128 {
                    -HALF_PI_FP
                } else if elevation > HALF_PI_FP as i128 {
                    HALF_PI_FP
                } else {
                    elevation as i64
                };
            }
        }
        current_position
    }
}

/// The sum of a batch of wheel deltas.
pub open spec fn sum_of_deltas(deltas: Seq<i64>) -> int
    decreases deltas.len(),
{
    if deltas.len() == 0 {
        0
    } else {
        sum_of_deltas(deltas.drop_last()) + deltas.last()
    }
}

/// Folds a tick's wheel events into one delta by summing them, the way the
/// input feed hands them to `apply_zoom`.
pub fn fold_wheel_deltas(deltas: &Vec<i64>) -> (total: i64)
    requires
        i64::MIN <= sum_of_deltas(deltas@) <= i64::MAX,
    ensures
        total == sum_of_deltas(deltas@),
{
    let mut acc: i128 = 0;
    let mut i: usize = 0;
    while i < deltas.len()
        invariant
            0 <= i <= deltas@.len(),
            acc == sum_of_deltas(deltas@.take(i as int)),
            -(i as int) * 0x8000_0000_0000_0000 <= acc <= (i as int) * 0x8000_0000_0000_0000,
        decreases deltas@.len() - i,
    {
        proof {
            assert(deltas@.take(i as int + 1).drop_last() =~= deltas@.take(i as int));
            assert((i as int + 1) * 0x8000_0000_0000_0000 == (i as int) * 0x8000_0000_0000_0000
                + 0x8000_0000_0000_0000) by (nonlinear_arith);
            assert((i as int + 1) * 0x8000_0000_0000_0000 <= 0x1_0000_0000_0000_0000
                * 0x8000_0000_0000_0000) by (nonlinear_arith)
                requires
                    i as int + 1 <= 0x1_0000_0000_0000_0000,
            ;
        }
        acc = acc + (deltas[i] as i128);
        i = i + 1;
    }
    proof {
        assert(deltas@.take(i as int) =~= deltas@);
    }
    acc as i64
}

/// The orbit offset along x: `distance * cos(elevation) * sin(azimuth)`,
/// both trigonometric factors scaled by `SCALE`.
pub open spec fn orbit_x(s: CameraOrbitState) -> int {
    div_trunc(
        s.distance * cos_fp_spec(s.elevation as int) * sin_fp_spec(s.azimuth as int),
        SCALE * SCALE,
    )
}

/// The orbit offset along y: `-distance * sin(elevation)`, the sine scaled
/// by `SCALE`.
pub open spec fn orbit_y(s: CameraOrbitState) -> int {
    -div_trunc(s.distance * sin_fp_spec(s.elevation as int), SCALE as int)
}

/// The orbit offset along z: `distance * cos(elevation) * cos(azimuth)`,
/// both trigonometric factors scaled by `SCALE`.
pub open spec fn orbit_z(s: CameraOrbitState) -> int {
    div_trunc(
        s.distance * cos_fp_spec(s.elevation as int) * cos_fp_spec(s.azimuth as int),
        SCALE * SCALE,
    )
}

/// Where the camera stands: the orbit offset around the focus point, plus
/// the pan offset added unrotated in the x/y plane.
pub open spec fn position_x(s: CameraOrbitState) -> int {
    orbit_x(s) + s.center.x + s.pan.x
}

pub open spec fn position_y(s: CameraOrbitState) -> int {
    orbit_y(s) + s.center.y + s.pan.y
}

pub open spec fn position_z(s: CameraOrbitState) -> int {
    orbit_z(s) + s.center.z
}

impl CameraOrbitState {
    /// Derives the world-space pose from the state alone: yaw about the
    /// world up-axis, then pitch within the yawed frame, applied to a point
    /// `distance` out along z and shifted by the focus point and the pan
    /// offset. The camera looks at the focus point with world up
    /// `(0, 1, 0)`. The pose is a function of the state and of nothing
    /// else.
    pub fn derive_transform(&self) -> (pose: CameraPose)
        requires
            self.well_formed(),
            i64::MIN + MAX_DISTANCE_FP <= self.center.x + self.pan.x
                <= i64::MAX - MAX_DISTANCE_FP,
            i64::MIN + MAX_DISTANCE_FP <= self.center.y + self.pan.y
                <= i64::MAX - MAX_DISTANCE_FP,
            i64::MIN + MAX_DISTANCE_FP <= self.center.z <= i64::MAX - MAX_DISTANCE_FP,
        ensures
            pose.position.x == position_x(*self),
            pose.position.y == position_y(*self),
            pose.position.z == position_z(*self),
            pose.target == self.center,
    {
        let sin_azimuth: i64 = sin_fp(self.azimuth);
        let cos_azimuth: i64 = cos_fp(self.azimuth);
        let sin_elevation: i64 = sin_fp(self.elevation);
        let cos_elevation: i64 = cos_fp(self.elevation);
        proof {
            lemma_orbit_products_bounded(
                self.distance as int,
                cos_elevation as int,
                sin_azimuth as int,
            );
            lemma_orbit_products_bounded(
                self.distance as int,
                cos_elevation as int,
                cos_azimuth as int,
            );
            lemma_orbit_products_bounded(self.distance as int, sin_elevation as int, SCALE as int);
        }
        let horizontal: i128 = (self.distance as i128) * (cos_elevation as i128);
        let scaled_x: i128 = horizontal * (sin_azimuth as i128);
        let scaled_z: i128 = horizontal * (cos_azimuth as i128);
        let scaled_y: i128 = (self.distance as i128) * (sin_elevation as i128);
        proof {
            assert((MAX_DISTANCE_FP as int) * SCALE * SCALE == 500_000_000_000_000_000_000
                && (MAX_DISTANCE_FP as int) * 1_000_000_000_000 == 500_000_000_000_000_000_000
                && (MAX_DISTANCE_FP as int) * SCALE == 500_000_000_000_000
                && (MAX_DISTANCE_FP as int) * 1_000_000 == 500_000_000_000_000
                && (SCALE as int) * SCALE == 1_000_000_000_000) by (nonlinear_arith)
                requires
                    SCALE == 1_000_000,
                    MAX_DISTANCE_FP == 500_000_000,
            ;
            lemma_div_trunc_bound(scaled_x as int, 1_000_000_000_000, MAX_DISTANCE_FP as int);
            lemma_div_trunc_bound(scaled_z as int, 1_000_000_000_000, MAX_DISTANCE_FP as int);
            lemma_div_trunc_bound(scaled_y as int, 1_000_000, MAX_DISTANCE_FP as int);
        }
        let offset_x: i128 = div_trunc_i128(scaled_x, 1_000_000_000_000);
        let offset_z: i128 = div_trunc_i128(scaled_z, 1_000_000_000_000);
        let offset_y: i128 = -div_trunc_i128(scaled_y, 1_000_000);
        let position = Vec3Fp {
            x: (offset_x + (self.center.x as i128) + (self.pan.x as i128)) as i64,
            y: (offset_y + (self.center.y as i128) + (self.pan.y as i128)) as i64,
            z: (offset_z + (self.center.z as i128)) as i64,
        };
        CameraPose { position, target: self.center }
    }
}

/// Bounds the product `distance * a * b` when the two trigonometric factors
/// are bounded by `SCALE`: its magnitude stays within
/// `MAX_DISTANCE_FP * SCALE * SCALE`.
proof fn lemma_orbit_products_bounded(d: int, a: int, b: int)
    requires
        0 <= d <= MAX_DISTANCE_FP,
        -SCALE <= a <= SCALE,
        -SCALE <= b <= SCALE,
    ensures
        -((MAX_DISTANCE_FP as int) * SCALE * SCALE) <= d * a * b
            <= (MAX_DISTANCE_FP as int) * SCALE * SCALE,
        -((MAX_DISTANCE_FP as int) * SCALE) <= d * a <= (MAX_DISTANCE_FP as int) * SCALE,
{
    assert(-((MAX_DISTANCE_FP as int) * SCALE) <= d * a <= (MAX_DISTANCE_FP as int) * SCALE)
        by (nonlinear_arith)
        requires
            0 <= d <= MAX_DISTANCE_FP,
            -SCALE <= a <= SCALE,
    ;
    assert(-((MAX_DISTANCE_FP as int) * SCALE * SCALE) <= d * a * b
        <= (MAX_DISTANCE_FP as int) * SCALE * SCALE) by (nonlinear_arith)
        requires
            -((MAX_DISTANCE_FP as int) * SCALE) <= d * a <= (MAX_DISTANCE_FP as int) * SCALE,
            -SCALE <= b <= SCALE,
    ;
}

impl CameraPose {
    /// True exactly when the pose is degenerate: the camera stands on the
    /// focus point, where a look-at direction does not exist. The distance
    /// clamp keeps the orbit away from the focus, but a large enough pan can
    /// still land on it.
    pub fn is_degenerate(&self) -> (r: bool)
        ensures
            r == (self.position == self.target),
    {
        self.position.x == self.target.x && self.position.y == self.target.y
            && self.position.z == self.target.z
    }
}

/// The derived pose is invariant under a full turn of azimuth: two states
/// that differ only by `TAU_FP` micro-radians of azimuth stand at the same
/// position (and share their target).
pub proof fn lemma_transform_azimuth_periodic(s: CameraOrbitState, t: CameraOrbitState)
    requires
        t.center == s.center,
        t.distance == s.distance,
        t.elevation == s.elevation,
        t.pan == s.pan,
        t.azimuth == s.azimuth + TAU_FP,
    ensures
        position_x(t) == position_x(s),
        position_y(t) == position_y(s),
        position_z(t) == position_z(s),
{
    crate::trig::lemma_sin_fp_periodic(s.azimuth as int);
    crate::trig::lemma_sin_fp_periodic(s.azimuth as int + HALF_PI_FP);
}

/// Picks the pointer position the tick ends on: the last move event wins,
/// and a tick without move events yields none.
pub fn latest_position(moves: &Vec<Vec2Fp>) -> (r: Option<Vec2Fp>)
    ensures
        moves@.len() == 0 ==> r is None,
        moves@.len() > 0 ==> r == Some(moves@.last()),
{
    if moves.len() == 0 {
        None
    } else {
        Some(moves[moves.len() - 1])
    }
}

} // verus!
