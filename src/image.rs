//! Row-major images and clamped neighbour sampling.
use vstd::prelude::*;

verus! {

/// A row-major image of `width * height` texels.
#[derive(Clone, Debug)]
pub struct Image<T> {
    pub width: usize,
    pub height: usize,
    pub texels: Vec<T>,
}

/// `y * w + x` lies inside a `w * h` image when `x < w` and `y < h`.
pub proof fn lemma_index_in_bounds(x: int, y: int, w: int, h: int)
    requires
        0 <= x < w,
        0 <= y < h,
    ensures
        0 <= y * w,
        y * w + x < w * h,
{
    assert(0 <= y * w) by (nonlinear_arith)
        requires
            0 <= y,
            0 <= w,
    ;
    assert(y * w + x < w * h) by (nonlinear_arith)
        requires
            0 <= x < w,
            0 <= y < h,
    ;
}

impl<T> Image<T> {
    /// Non-empty, with one texel per position.
    pub open spec fn wf(&self) -> bool {
        &&& self.width > 0
        &&& self.height > 0
        &&& self.texels@.len() == self.width * self.height
    }

    /// The texel at column `x` and row `y`.
    pub open spec fn at(&self, x: int, y: int) -> T {
        self.texels@[y * self.width + x]
    }

    /// Same width and height as `other`.
    pub open spec fn same_size<U>(&self, other: &Image<U>) -> bool {
        self.width == other.width && self.height == other.height
    }

    /// An image of `width` columns and `height` rows, when `texels` holds one
    /// texel for each and neither is zero.
    pub fn new(width: usize, height: usize, texels: Vec<T>) -> (r: Option<Image<T>>)
        ensures
            r is Some <==> (width > 0 && height > 0 && texels@.len() == width * height),
            r matches Some(i) ==> i.width == width && i.height == height && i.texels@ == texels@,
    {
        if width == 0 || height == 0 {
            return None;
        }
        let n = texels.len();
        match width.checked_mul(height) {
            Some(p) => {
                if p == n {
                    Some(Image { width, height, texels })
                } else {
                    None
                }
            },
            None => None,
        }
    }

    pub fn texel(&self, x: usize, y: usize) -> (r: &T)
        requires
            self.wf(),
            x < self.width,
            y < self.height,
        ensures
            *r == self.at(x as int, y as int),
    {
        let n = self.texels.len();
        proof {
            lemma_index_in_bounds(x as int, y as int, self.width as int, self.height as int);
        }
        &self.texels[y * self.width + x]
    }
}

/// The coordinate `s` texels before `c`, held at the first texel.
pub open spec fn back(c: int, s: int) -> int {
    if c - s < 0 {
        0
    } else {
        c - s
    }
}

/// The coordinate `s` texels after `c`, held at the last of `size` texels.
pub open spec fn forth(c: int, s: int, size: int) -> int {
    if c + s >= size {
        size - 1
    } else {
        c + s
    }
}

pub fn step_back(c: usize, s: u32) -> (r: usize)
    ensures
        r == back(c as int, s as int),
{
    if (s as usize) > c || s as u64 > usize::MAX as u64 {
        0
    } else {
        c - s as usize
    }
}

pub fn step_forth(c: usize, s: u32, size: usize) -> (r: usize)
    requires
        c < size,
    ensures
        r == forth(c as int, s as int, size as int),
{
    if s as u64 > usize::MAX as u64 || s as usize >= size - c {
        size - 1
    } else {
        c + s as usize
    }
}

/// Every neighbour sample of a texel inside the image lies inside it, and a
/// sample whose offset leaves the image is held at the nearest edge texel.
pub proof fn lemma_border_sampling(c: int, s: int, size: int)
    requires
        0 <= c < size,
        0 <= s,
    ensures
        0 <= back(c, s) <= c,
        c <= forth(c, s, size) < size,
        c - s < 0 ==> back(c, s) == 0,
        c + s >= size ==> forth(c, s, size) == size - 1,
        0 <= c - s ==> back(c, s) == c - s,
        c + s < size ==> forth(c, s, size) == c + s,
{
}

} // verus!
