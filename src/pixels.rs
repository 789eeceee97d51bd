//! The order in which the pixels of an image are rendered and written:
//! rows from the top of the image down, each row from left to right.
//! Column `i` counts from the left edge, row `j` from the bottom edge.

use vstd::arithmetic::div_mod::{
    lemma_fundamental_div_mod, lemma_fundamental_div_mod_converse, lemma_multiply_divide_lt,
};
use vstd::prelude::*;

verus! {

/// The pixel (column, row) written at position `index` of an image
/// `width` pixels wide and `height` pixels high.
pub open spec fn pixel_of(width: nat, height: nat, index: nat) -> (int, int) {
    ((index % width) as int, height - 1 - index / width)
}

/// The position at which pixel (column `i`, row `j`) is written.
pub open spec fn index_of(width: nat, height: nat, i: nat, j: nat) -> int {
    (height - 1 - j) * width + i
}

/// The number of pixels of an image `width` pixels wide and `height` pixels high.
pub fn pixel_count(width: u32, height: u32) -> (n: u64)
    ensures
        n == width * height,
{
    proof {
        vstd::arithmetic::mul::lemma_mul_upper_bound(
            width as int,
            u32::MAX as int,
            height as int,
            u32::MAX as int,
        );
    }
    (width as u64) * (height as u64)
}

/// The pixel (column, row) written at position `index`.
pub fn pixel_at(width: u32, height: u32, index: u64) -> (r: (u32, u32))
    requires
        width > 0,
        index < width * height,
    ensures
        (r.0 as int, r.1 as int) == pixel_of(width as nat, height as nat, index as nat),
        r.0 < width,
        r.1 < height,
{
    let w: u64 = width as u64;
    proof {
        lemma_multiply_divide_lt(index as int, width as int, height as int);
    }
    let row_from_top: u64 = index / w;
    let i: u32 = (index % w) as u32;
    let j: u32 = height - 1 - (row_from_top as u32);
    (i, j)
}

/// Every position of an image names a pixel inside it, and that pixel is
/// written at exactly that position; every pixel inside the image is written
/// at a position inside it, and that position names it. So each pixel is
/// written exactly once.
pub proof fn lemma_each_pixel_once(width: nat, height: nat)
    requires
        width > 0,
    ensures
        forall|k: nat|
            #![trigger pixel_of(width, height, k)]
            k < width * height ==> {
                let (i, j) = pixel_of(width, height, k);
                &&& 0 <= i < width
                &&& 0 <= j < height
                &&& index_of(width, height, i as nat, j as nat) == k
            },
        forall|i: nat, j: nat|
            #![trigger index_of(width, height, i, j)]
            i < width && j < height ==> {
                let k = index_of(width, height, i, j);
                &&& 0 <= k < width * height
                &&& pixel_of(width, height, k as nat) == (i as int, j as int)
            },
{
    assert forall|k: nat|
        #![trigger pixel_of(width, height, k)]
        k < width * height implies {
            let (i, j) = pixel_of(width, height, k);
            &&& 0 <= i < width
            &&& 0 <= j < height
            &&& index_of(width, height, i as nat, j as nat) == k
        } by {
        lemma_multiply_divide_lt(k as int, width as int, height as int);
        lemma_fundamental_div_mod(k as int, width as int);
        let q = k / width;
        assert((height - 1 - (height - 1 - q)) == q);
        assert(q * width == width * q) by (nonlinear_arith);
    }
    assert forall|i: nat, j: nat|
        #![trigger index_of(width, height, i, j)]
        i < width && j < height implies {
            let k = index_of(width, height, i, j);
            &&& 0 <= k < width * height
            &&& pixel_of(width, height, k as nat) == (i as int, j as int)
        } by {
        let q: int = height - 1 - j;
        assert(0 <= q * width <= (height - 1) * width) by (nonlinear_arith)
            requires 0 <= q <= height - 1, width > 0;
        assert((height - 1) * width + width == width * height) by (nonlinear_arith);
        lemma_fundamental_div_mod_converse(q * width + i, width as int, q, i as int);
    }
}

} // verus!
