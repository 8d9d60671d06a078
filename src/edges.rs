//! The three discontinuity tests that mark a texel as part of an outline.
use vstd::prelude::*;
use vstd::arithmetic::div_mod::lemma_div_is_ordered;
use crate::image::{back, forth, step_back, step_forth, Image};
use crate::settings::{Rgba, SimpletoonSettings, ONE};

verus! {

/// A surface normal, each component in thousandths.
#[derive(Clone, Copy, Debug, PartialEq, Eq, Structural)]
pub struct Normal {
    pub x: i32,
    pub y: i32,
    pub z: i32,
}

pub open spec fn abs_diff(a: int, b: int) -> int {
    if a >= b {
        a - b
    } else {
        b - a
    }
}

/// Whether `differs` holds at one of the four samples `st` texels left,
/// right, above and below `(x, y)` in a `w * h` image, held inside it.
pub open spec fn any_neighbour(
    differs: spec_fn(int, int) -> bool,
    x: int,
    y: int,
    st: int,
    w: int,
    h: int,
) -> bool {
    ||| differs(back(x, st), y)
    ||| differs(forth(x, st, w), y)
    ||| differs(x, back(y, st))
    ||| differs(x, forth(y, st, h))
}

/// The three images that the tests read: same size and well formed.
pub open spec fn inputs_wf(colour: Image<Rgba>, depth: Image<u32>, normal: Image<Normal>) -> bool {
    &&& colour.wf()
    &&& depth.wf()
    &&& normal.wf()
    &&& colour.same_size(&depth)
    &&& colour.same_size(&normal)
}

/// The depth difference above which two samples are told apart, at a texel of
/// depth `depth` whose normal faces the camera by `normal_z`.
///
/// The base threshold grows with depth; past the obliqueness
/// `depth_normal_threshold` it is relaxed in proportion to how far past.
pub open spec fn effective_depth_threshold(s: SimpletoonSettings, depth: int, normal_z: int) -> int {
    let base = s.depth_threshold * (ONE + s.depth_threshold_depth_mul * depth / ONE as int) / ONE as int;
    let facing = if normal_z < 0 {
        -normal_z
    } else {
        normal_z
    };
    let oblique = if facing >= ONE {
        0
    } else {
        ONE - facing
    };
    let grazing = if oblique > s.depth_normal_threshold {
        oblique - s.depth_normal_threshold
    } else {
        0
    };
    base * (ONE + grazing * s.depth_normal_threshold_mul / ONE as int) / ONE as int
}

/// The depth test fires at `(x, y)`.
pub open spec fn depth_edge(s: SimpletoonSettings, depth: Image<u32>, normal: Image<Normal>, x: int, y: int) -> bool {
    let d0 = depth.at(x, y) as int;
    let t = effective_depth_threshold(s, d0, normal.at(x, y).z as int);
    any_neighbour(
        |x2: int, y2: int| abs_diff(depth.at(x2, y2) as int, d0) > t,
        x,
        y,
        s.stroke_size as int,
        depth.width as int,
        depth.height as int,
    )
}

pub open spec fn normal_distance_sq(a: Normal, b: Normal) -> int {
    (a.x - b.x) * (a.x - b.x) + (a.y - b.y) * (a.y - b.y) + (a.z - b.z) * (a.z - b.z)
}

/// The normal test fires at `(x, y)`.
pub open spec fn normal_edge(s: SimpletoonSettings, normal: Image<Normal>, x: int, y: int) -> bool {
    let n0 = normal.at(x, y);
    any_neighbour(
        |x2: int, y2: int|
            normal_distance_sq(normal.at(x2, y2), n0) > s.normal_threshold * s.normal_threshold,
        x,
        y,
        s.stroke_size as int,
        normal.width as int,
        normal.height as int,
    )
}

/// Luminance by Rec. 601 weights, in millionths.
pub open spec fn luma_weighted(c: Rgba) -> int {
    299 * c.r + 587 * c.g + 114 * c.b
}

/// The luminance test fires at `(x, y)`.
pub open spec fn colour_edge(s: SimpletoonSettings, colour: Image<Rgba>, x: int, y: int) -> bool {
    let l0 = luma_weighted(colour.at(x, y));
    any_neighbour(
        |x2: int, y2: int| abs_diff(luma_weighted(colour.at(x2, y2)), l0) > s.colour_threshold * ONE,
        x,
        y,
        s.stroke_size as int,
        colour.width as int,
        colour.height as int,
    )
}

/// `(x, y)` is an outline texel: one of the three tests fires.
pub open spec fn is_edge(
    s: SimpletoonSettings,
    colour: Image<Rgba>,
    depth: Image<u32>,
    normal: Image<Normal>,
    x: int,
    y: int,
) -> bool {
    ||| depth_edge(s, depth, normal, x, y)
    ||| normal_edge(s, normal, x, y)
    ||| colour_edge(s, colour, x, y)
}

proof fn lemma_mul_le(a: int, b: int, ma: int, mb: int)
    requires
        0 <= a <= ma,
        0 <= b <= mb,
    ensures
        0 <= a * b <= ma * mb,
{
    assert(0 <= a * b <= ma * mb) by (nonlinear_arith)
        requires
            0 <= a <= ma,
            0 <= b <= mb,
    ;
}

pub fn depth_threshold_at(s: &SimpletoonSettings, depth: u32, normal_z: i32) -> (t: u128)
    ensures
        t == effective_depth_threshold(*s, depth as int, normal_z as int),
{
    let m: u64 = 0xffff_ffff;
    proof {
        lemma_mul_le(s.depth_threshold_depth_mul as int, depth as int, m as int, m as int);
    }
    let scaled: u64 = (s.depth_threshold_depth_mul as u64) * (depth as u64) / (ONE as u64);
    let widened: u64 = ONE as u64 + scaled;
    proof {
        lemma_mul_le(s.depth_threshold as int, widened as int, m as int, u64::MAX as int);
    }
    let product: u128 = (s.depth_threshold as u128) * (widened as u128);
    let base: u128 = product / (ONE as u128);
    proof {
        lemma_div_is_ordered(product as int, m * u64::MAX, ONE as int);
    }
    let facing: i64 = if normal_z < 0 {
        -(normal_z as i64)
    } else {
        normal_z as i64
    };
    let oblique: u64 = if facing >= ONE as i64 {
        0
    } else {
        (ONE as i64 - facing) as u64
    };
    let grazing: u64 = if oblique > s.depth_normal_threshold as u64 {
        oblique - s.depth_normal_threshold as u64
    } else {
        0
    };
    proof {
        lemma_mul_le(grazing as int, s.depth_normal_threshold_mul as int, ONE as int, m as int);
    }
    let relax: u64 = ONE as u64 + grazing * (s.depth_normal_threshold_mul as u64) / (ONE as u64);
    proof {
        lemma_mul_le(base as int, relax as int, (m * u64::MAX) / ONE as int, m as int * 2);
    }
    base * (relax as u128) / (ONE as u128)
}

fn depth_differs(depth: &Image<u32>, x: usize, y: usize, d0: u32, t: u128) -> (r: bool)
    requires
        depth.wf(),
        x < depth.width,
        y < depth.height,
    ensures
        r == (abs_diff(depth.at(x as int, y as int) as int, d0 as int) > t),
{
    let d = *depth.texel(x, y);
    let delta: u32 = if d >= d0 {
        d - d0
    } else {
        d0 - d
    };
    delta as u128 > t
}

/// Whether the depth test fires at `(x, y)`.
pub fn depth_edge_at(
    s: &SimpletoonSettings,
    depth: &Image<u32>,
    normal: &Image<Normal>,
    x: usize,
    y: usize,
) -> (r: bool)
    requires
        depth.wf(),
        normal.wf(),
        depth.same_size(normal),
        x < depth.width,
        y < depth.height,
    ensures
        r == depth_edge(*s, *depth, *normal, x as int, y as int),
{
    let d0 = *depth.texel(x, y);
    let t = depth_threshold_at(s, d0, normal.texel(x, y).z);
    let w = depth.width;
    let h = depth.height;
    let st = s.stroke_size;
    depth_differs(depth, step_back(x, st), y, d0, t) || depth_differs(
        depth,
        step_forth(x, st, w),
        y,
        d0,
        t,
    ) || depth_differs(depth, x, step_back(y, st), d0, t) || depth_differs(
        depth,
        x,
        step_forth(y, st, h),
        d0,
        t,
    )
}

fn normal_differs(normal: &Image<Normal>, x: usize, y: usize, n0: Normal, limit: u128) -> (r: bool)
    requires
        normal.wf(),
        x < normal.width,
        y < normal.height,
    ensures
        r == (normal_distance_sq(normal.at(x as int, y as int), n0) > limit),
{
    let n = *normal.texel(x, y);
    let dx: i64 = n.x as i64 - n0.x as i64;
    let dy: i64 = n.y as i64 - n0.y as i64;
    let dz: i64 = n.z as i64 - n0.z as i64;
    proof {
        lemma_square_le(dx as int, 0x1_0000_0000);
        lemma_square_le(dy as int, 0x1_0000_0000);
        lemma_square_le(dz as int, 0x1_0000_0000);
    }
    let sq: i128 = (dx as i128) * (dx as i128) + (dy as i128) * (dy as i128) + (dz as i128) * (
    dz as i128);
    sq as u128 > limit
}

proof fn lemma_square_le(d: int, b: int)
    requires
        -b <= d <= b,
    ensures
        0 <= d * d <= b * b,
{
    assert(0 <= d * d <= b * b) by (nonlinear_arith)
        requires
            -b <= d <= b,
    ;
}

/// Whether the normal test fires at `(x, y)`.
pub fn normal_edge_at(s: &SimpletoonSettings, normal: &Image<Normal>, x: usize, y: usize) -> (r: bool)
    requires
        normal.wf(),
        x < normal.width,
        y < normal.height,
    ensures
        r == normal_edge(*s, *normal, x as int, y as int),
{
    let n0 = *normal.texel(x, y);
    proof {
        lemma_mul_le(s.normal_threshold as int, s.normal_threshold as int, 0xffff_ffff, 0xffff_ffff);
    }
    let limit: u128 = (s.normal_threshold as u128) * (s.normal_threshold as u128);
    let w = normal.width;
    let h = normal.height;
    let st = s.stroke_size;
    normal_differs(normal, step_back(x, st), y, n0, limit) || normal_differs(
        normal,
        step_forth(x, st, w),
        y,
        n0,
        limit,
    ) || normal_differs(normal, x, step_back(y, st), n0, limit) || normal_differs(
        normal,
        x,
        step_forth(y, st, h),
        n0,
        limit,
    )
}

pub fn luma_of(c: &Rgba) -> (l: u64)
    ensures
        l == luma_weighted(*c),
        l <= 1000 * 0xffff_ffff,
{
    299 * (c.r as u64) + 587 * (c.g as u64) + 114 * (c.b as u64)
}

fn colour_differs(colour: &Image<Rgba>, x: usize, y: usize, l0: u64, limit: u64) -> (r: bool)
    requires
        colour.wf(),
        x < colour.width,
        y < colour.height,
    ensures
        r == (abs_diff(luma_weighted(colour.at(x as int, y as int)), l0 as int) > limit),
{
    let l = luma_of(colour.texel(x, y));
    let delta: u64 = if l >= l0 {
        l - l0
    } else {
        l0 - l
    };
    delta > limit
}

/// Whether the luminance test fires at `(x, y)`.
pub fn colour_edge_at(s: &SimpletoonSettings, colour: &Image<Rgba>, x: usize, y: usize) -> (r: bool)
    requires
        colour.wf(),
        x < colour.width,
        y < colour.height,
    ensures
        r == colour_edge(*s, *colour, x as int, y as int),
{
    let l0 = luma_of(colour.texel(x, y));
    proof {
        lemma_mul_le(s.colour_threshold as int, ONE as int, 0xffff_ffff, ONE as int);
    }
    let limit: u64 = (s.colour_threshold as u64) * (ONE as u64);
    let w = colour.width;
    let h = colour.height;
    let st = s.stroke_size;
    colour_differs(colour, step_back(x, st), y, l0, limit) || colour_differs(
        colour,
        step_forth(x, st, w),
        y,
        l0,
        limit,
    ) || colour_differs(colour, x, step_back(y, st), l0, limit) || colour_differs(
        colour,
        x,
        step_forth(y, st, h),
        l0,
        limit,
    )
}

/// Whether `(x, y)` is an outline texel.
pub fn is_edge_at(
    s: &SimpletoonSettings,
    colour: &Image<Rgba>,
    depth: &Image<u32>,
    normal: &Image<Normal>,
    x: usize,
    y: usize,
) -> (r: bool)
    requires
        inputs_wf(*colour, *depth, *normal),
        x < colour.width,
        y < colour.height,
    ensures
        r == is_edge(*s, *colour, *depth, *normal, x as int, y as int),
{
    depth_edge_at(s, depth, normal, x, y) || normal_edge_at(s, normal, x, y) || colour_edge_at(
        s,
        colour,
        x,
        y,
    )
}

} // verus!
