//! The demo's road data: two hardcoded flat segments, and the geometry the
//! scene needs from them — each segment's center point and its length.

use vstd::prelude::*;

use crate::fixed::{div_trunc, div_trunc_i128, SCALE};
use crate::fixed::Vec3Fp;

verus! {

/// Largest coordinate magnitude the geometry helpers accept; keeps squared
/// distances inside 128-bit arithmetic.
pub const MAX_ABS_COORD_FP: i64 = 0x1000_0000_0000_0000;

/// One segment of the road network, in micro-units.
#[derive(Clone, Debug)]
pub struct RoadSegment {
    pub start_pos: Vec3Fp,
    pub end_pos: Vec3Fp,
    /// Longitudinal coordinate where the segment starts.
    pub start_s: i64,
    /// Longitudinal coordinate where the segment ends.
    pub end_s: i64,
    pub width: i64,
    /// Boundary points along the left edge.
    pub left_side: Vec<Vec3Fp>,
    /// Boundary points along the right edge.
    pub right_side: Vec<Vec3Fp>,
    pub road_id: u32,
    pub lane_id: u32,
    pub lane_section_id: u32,
}

/// Builds the fixed two-segment road the demo shows: a straight stretch
/// 100 units long, then a stretch turning off at an angle.
pub fn generate_road_data() -> (segments: Vec<RoadSegment>)
    ensures
        segments@.len() == 2,
        segments@[0].start_pos == (Vec3Fp { x: 0, y: 0, z: 0 }),
        segments@[0].end_pos == (Vec3Fp { x: 100_000_000, y: 0, z: 0 }),
        segments@[0].start_s == 0,
        segments@[0].end_s == 100 * SCALE,
        segments@[0].width == 4 * SCALE,
        segments@[0].left_side@ =~= seq![
            (Vec3Fp { x: 0, y: 0, z: 2_000_000 }),
            (Vec3Fp { x: 100_000_000, y: 0, z: 2_000_000 }),
        ],
        segments@[0].right_side@ =~= seq![
            (Vec3Fp { x: 0, y: 0, z: -2_000_000i64 }),
            (Vec3Fp { x: 100_000_000, y: 0, z: -2_000_000i64 }),
        ],
        segments@[0].road_id == 1,
        segments@[0].lane_id == 1,
        segments@[0].lane_section_id == 1,
        segments@[1].start_pos == (Vec3Fp { x: 100_000_000, y: 0, z: 0 }),
        segments@[1].end_pos == (Vec3Fp { x: 150_000_000, y: 0, z: 50_000_000 }),
        segments@[1].start_s == 100 * SCALE,
        segments@[1].end_s == 200 * SCALE,
        segments@[1].width == 4 * SCALE,
        segments@[1].left_side@ =~= seq![
            (Vec3Fp { x: 100_000_000, y: 0, z: 2_000_000 }),
            (Vec3Fp { x: 150_000_000, y: 0, z: 52_000_000 }),
        ],
        segments@[1].right_side@ =~= seq![
            (Vec3Fp { x: 100_000_000, y: 0, z: -2_000_000i64 }),
            (Vec3Fp { x: 150_000_000, y: 0, z: 48_000_000 }),
        ],
        segments@[1].road_id == 1,
        segments@[1].lane_id == 1,
        segments@[1].lane_section_id == 2,
{
    let mut left_one: Vec<Vec3Fp> = Vec::new();
    left_one.push(Vec3Fp { x: 0, y: 0, z: 2_000_000 });
    left_one.push(Vec3Fp { x: 100_000_000, y: 0, z: 2_000_000 });
    let mut right_one: Vec<Vec3Fp> = Vec::new();
    right_one.push(Vec3Fp { x: 0, y: 0, z: -2_000_000i64 });
    right_one.push(Vec3Fp { x: 100_000_000, y: 0, z: -2_000_000i64 });
    let straight = RoadSegment {
        start_pos: Vec3Fp { x: 0, y: 0, z: 0 },
        end_pos: Vec3Fp { x: 100 * SCALE, y: 0, z: 0 },
        start_s: 0,
        end_s: 100 * SCALE,
        width: 4 * SCALE,
        left_side: left_one,
        right_side: right_one,
        road_id: 1,
        lane_id: 1,
        lane_section_id: 1,
    };
    let mut left_two: Vec<Vec3Fp> = Vec::new();
    left_two.push(Vec3Fp { x: 100_000_000, y: 0, z: 2_000_000 });
    left_two.push(Vec3Fp { x: 150_000_000, y: 0, z: 52_000_000 });
    let mut right_two: Vec<Vec3Fp> = Vec::new();
    right_two.push(Vec3Fp { x: 100_000_000, y: 0, z: -2_000_000i64 });
    right_two.push(Vec3Fp { x: 150_000_000, y: 0, z: 48_000_000 });
    let angled = RoadSegment {
        start_pos: Vec3Fp { x: 100 * SCALE, y: 0, z: 0 },
        end_pos: Vec3Fp { x: 150 * SCALE, y: 0, z: 50 * SCALE },
        start_s: 100 * SCALE,
        end_s: 200 * SCALE,
        width: 4 * SCALE,
        left_side: left_two,
        right_side: right_two,
        road_id: 1,
        lane_id: 1,
        lane_section_id: 2,
    };
    let mut segments: Vec<RoadSegment> = Vec::new();
    segments.push(straight);
    segments.push(angled);
    segments
}

/// The midpoint of two coordinates, truncated toward zero.
pub open spec fn midpoint_coord(a: int, b: int) -> int {
    div_trunc(a + b, 2)
}

/// The squared distance between two points.
pub open spec fn dist_sq(a: Vec3Fp, b: Vec3Fp) -> int {
    (b.x - a.x) * (b.x - a.x) + (b.y - a.y) * (b.y - a.y) + (b.z - a.z) * (b.z - a.z)
}

impl RoadSegment {
    /// The point halfway between the segment's endpoints, where its mesh is
    /// placed.
    pub fn center(&self) -> (c: Vec3Fp)
        requires
            i64::MIN <= self.start_pos.x + self.end_pos.x <= i64::MAX,
            i64::MIN <= self.start_pos.y + self.end_pos.y <= i64::MAX,
            i64::MIN <= self.start_pos.z + self.end_pos.z <= i64::MAX,
        ensures
            c.x == midpoint_coord(self.start_pos.x as int, self.end_pos.x as int),
            c.y == midpoint_coord(self.start_pos.y as int, self.end_pos.y as int),
            c.z == midpoint_coord(self.start_pos.z as int, self.end_pos.z as int),
    {
        let sum_x: i128 = (self.start_pos.x as i128) + (self.end_pos.x as i128);
        let sum_y: i128 = (self.start_pos.y as i128) + (self.end_pos.y as i128);
        let sum_z: i128 = (self.start_pos.z as i128) + (self.end_pos.z as i128);
        Vec3Fp {
            x: div_trunc_i128(sum_x, 2) as i64,
            y: div_trunc_i128(sum_y, 2) as i64,
            z: div_trunc_i128(sum_z, 2) as i64,
        }
    }

    /// The distance between the segment's endpoints, rounded down to whole
    /// micro-units: the exact integer square root of the squared distance.
    pub fn length(&self) -> (len: u64)
        requires
            -MAX_ABS_COORD_FP <= self.start_pos.x <= MAX_ABS_COORD_FP,
            -MAX_ABS_COORD_FP <= self.start_pos.y <= MAX_ABS_COORD_FP,
            -MAX_ABS_COORD_FP <= self.start_pos.z <= MAX_ABS_COORD_FP,
            -MAX_ABS_COORD_FP <= self.end_pos.x <= MAX_ABS_COORD_FP,
            -MAX_ABS_COORD_FP <= self.end_pos.y <= MAX_ABS_COORD_FP,
            -MAX_ABS_COORD_FP <= self.end_pos.z <= MAX_ABS_COORD_FP,
        ensures
            (len as int) * (len as int) <= dist_sq(self.start_pos, self.end_pos),
            dist_sq(self.start_pos, self.end_pos) < ((len as int) + 1) * ((len as int) + 1),
    {
        let dx: i128 = (self.end_pos.x as i128) - (self.start_pos.x as i128);
        let dy: i128 = (self.end_pos.y as i128) - (self.start_pos.y as i128);
        let dz: i128 = (self.end_pos.z as i128) - (self.start_pos.z as i128);
        proof {
            lemma_square_of_bounded(dx as int, 0x2000_0000_0000_0000);
            lemma_square_of_bounded(dy as int, 0x2000_0000_0000_0000);
            lemma_square_of_bounded(dz as int, 0x2000_0000_0000_0000);
        }
        let sq: u128 = ((dx * dx) as u128) + ((dy * dy) as u128) + ((dz * dz) as u128);
        isqrt_u128(sq)
    }
}

/// A square of a bounded value is nonnegative and bounded by the square of
/// the bound.
proof fn lemma_square_of_bounded(v: int, bound: int)
    requires
        0 <= bound,
        -bound <= v <= bound,
    ensures
        0 <= v * v <= bound * bound,
{
    assert(0 <= v * v <= bound * bound) by (nonlinear_arith)
        requires
            0 <= bound,
            -bound <= v <= bound,
    ;
}

/// The integer square root, rounded down: the unique `r` with
/// `r * r <= v < (r + 1) * (r + 1)`.
pub fn isqrt_u128(v: u128) -> (r: u64)
    ensures
        (r as int) * (r as int) <= v as int,
        v < ((r as int) + 1) * ((r as int) + 1),
{
    let mut low: u128 = 0;
    let mut high: u128 = 0x1_0000_0000_0000_0000;
    proof {
        assert((high as int) * (high as int) > u128::MAX as int) by (nonlinear_arith)
            requires
                high == 0x1_0000_0000_0000_0000,
        ;
    }
    while high - low > 1
        invariant
            low < high <= 0x1_0000_0000_0000_0000,
            (low as int) * (low as int) <= v as int,
            (v as int) < (high as int) * (high as int),
        decreases high - low,
    {
        let mid: u128 = low + (high - low) / 2;
        proof {
            assert((mid as int) * (mid as int) <= u128::MAX as int) by (nonlinear_arith)
                requires
                    0 <= mid < 0x1_0000_0000_0000_0000,
            ;
        }
        if mid * mid <= v {
            low = mid;
        } else {
            high = mid;
        }
    }
    low as u64
}

} // verus!
