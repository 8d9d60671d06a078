//! The per-texel program of the effect, and its run over a whole image.
use vstd::prelude::*;
use crate::banding::{band_colour, banded};
use crate::edges::{
    abs_diff, depth_edge, effective_depth_threshold, inputs_wf, is_edge, is_edge_at, Normal,
};
use crate::image::{back, forth, Image};
use crate::settings::{Rgba, SimpletoonSettings};

verus! {

/// The colour written at `(x, y)`: the stroke colour on an outline texel,
/// the toon-banded source colour elsewhere.
pub open spec fn shade(
    s: SimpletoonSettings,
    colour: Image<Rgba>,
    depth: Image<u32>,
    normal: Image<Normal>,
    x: int,
    y: int,
) -> Rgba {
    if is_edge(s, colour, depth, normal, x, y) {
        s.stroke_colour
    } else {
        banded(colour.at(x, y), s.colour_banding as int)
    }
}

/// The whole output image, texel by texel in row-major order.
pub open spec fn composite(
    s: SimpletoonSettings,
    colour: Image<Rgba>,
    depth: Image<u32>,
    normal: Image<Normal>,
) -> Seq<Rgba> {
    let w = colour.width as int;
    Seq::new(colour.texels@.len(), |j: int| shade(s, colour, depth, normal, j % w, j / w))
}

/// The colour written at `(x, y)`. An outline texel takes the stroke colour,
/// whatever the colour under it.
pub fn shade_pixel(
    s: &SimpletoonSettings,
    colour: &Image<Rgba>,
    depth: &Image<u32>,
    normal: &Image<Normal>,
    x: usize,
    y: usize,
) -> (r: Rgba)
    requires
        s.wf(),
        inputs_wf(*colour, *depth, *normal),
        x < colour.width,
        y < colour.height,
    ensures
        r == shade(*s, *colour, *depth, *normal, x as int, y as int),
        is_edge(*s, *colour, *depth, *normal, x as int, y as int) ==> r == s.stroke_colour,
        !is_edge(*s, *colour, *depth, *normal, x as int, y as int) ==> r == banded(
            colour.at(x as int, y as int),
            s.colour_banding as int,
        ),
{
    if is_edge_at(s, colour, depth, normal, x, y) {
        s.stroke_colour
    } else {
        band_colour(colour.texel(x, y), s.colour_banding)
    }
}

proof fn lemma_row_of(j: int, w: int, h: int)
    requires
        0 <= j < w * h,
        0 < w,
    ensures
        0 <= j % w < w,
        0 <= j / w < h,
{
    assert(0 <= j / w < h) by (nonlinear_arith)
        requires
            0 <= j < w * h,
            0 < w,
    ;
}

/// Runs the per-texel program over every texel: a new image of the same size,
/// read only from the inputs.
pub fn toon_composite(
    s: &SimpletoonSettings,
    colour: &Image<Rgba>,
    depth: &Image<u32>,
    normal: &Image<Normal>,
) -> (out: Image<Rgba>)
    requires
        s.wf(),
        inputs_wf(*colour, *depth, *normal),
    ensures
        out.wf(),
        out.same_size(colour),
        out.texels@ == composite(*s, *colour, *depth, *normal),
{
    let w = colour.width;
    let n = colour.texels.len();
    let mut texels: Vec<Rgba> = Vec::with_capacity(n);
    let mut i: usize = 0;
    while i < n
        invariant
            s.wf(),
            inputs_wf(*colour, *depth, *normal),
            w == colour.width,
            n == colour.texels@.len(),
            i <= n,
            texels@.len() == i,
            forall|j: int|
                0 <= j < i ==> texels@[j] == shade(*s, *colour, *depth, *normal, j % w as int, j / w as int),
        decreases n - i,
    {
        proof {
            lemma_row_of(i as int, w as int, colour.height as int);
        }
        let px = shade_pixel(s, colour, depth, normal, i % w, i / w);
        texels.push(px);
        i = i + 1;
    }
    assert(texels@ =~= composite(*s, *colour, *depth, *normal));
    Image { width: w, height: colour.height, texels }
}

/// Across a vertical step in depth, from `d` left of column `c` to
/// `d + delta` from it on, with one normal everywhere, the depth test fires
/// at the texel just left of the step exactly when `delta` exceeds the
/// effective threshold there.
pub proof fn lemma_depth_edge_at_step(
    s: SimpletoonSettings,
    depth: Image<u32>,
    normal: Image<Normal>,
    c: int,
    y: int,
    d: int,
    delta: int,
    n: Normal,
)
    requires
        depth.wf(),
        normal.wf(),
        depth.same_size(&normal),
        0 < c < depth.width,
        0 <= y < depth.height,
        0 <= delta,
        s.stroke_size >= 1,
        forall|i: int, j: int|
            0 <= i < depth.width && 0 <= j < depth.height ==> #[trigger] depth.at(i, j) as int == if i
                < c {
                d
            } else {
                d + delta
            },
        forall|i: int, j: int|
            0 <= i < depth.width && 0 <= j < depth.height ==> #[trigger] normal.at(i, j) == n,
    ensures
        depth_edge(s, depth, normal, c - 1, y) <==> delta > effective_depth_threshold(
            s,
            d,
            n.z as int,
        ),
{
    let st = s.stroke_size as int;
    let w = depth.width as int;
    let h = depth.height as int;
    assert(depth.at(c - 1, y) as int == d);
    assert(normal.at(c - 1, y) == n);
    assert(depth.at(back(c - 1, st), y) as int == d);
    assert(depth.at(forth(c - 1, st, w), y) as int == d + delta);
    assert(depth.at(c - 1, back(y, st)) as int == d);
    assert(depth.at(c - 1, forth(y, st, h)) as int == d);
    assert(abs_diff(d + delta, d) == delta);
}

} // verus!
