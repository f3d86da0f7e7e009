//! Interleaving the pixel blocks of two RGBA buffers.

use vstd::prelude::*;

use crate::picture::{Picture, rgba_len};

verus! {

/// Number of bytes in one RGBA pixel block.
pub const BLOCK: usize = 4;

/// Index of the pixel block that holds byte `k`.
pub open spec fn block_of(k: int) -> int {
    k / 4
}

/// Byte `k` of the combined buffer: taken from `a` in even pixel blocks and
/// from `b` in odd ones.
pub open spec fn alternated(a: Seq<u8>, b: Seq<u8>) -> Seq<u8> {
    Seq::new(a.len(), |k: int| if block_of(k) % 2 == 0 { a[k] } else { b[k] })
}

/// Copies the bytes of `vec` from `start` to `end`, both included; an empty
/// range, with `start` past `end`, gives an empty buffer.
pub fn set_rgba(vec: &Vec<u8>, start: usize, end: usize) -> (r: Vec<u8>)
    requires
        start <= end ==> end < vec@.len(),
    ensures
        start <= end ==> r@ == vec@.subrange(start as int, end + 1),
        start > end ==> r@.len() == 0,
{
    if start > end {
        return Vec::new();
    }
    let n: usize = vec.len();
    let mut rgba: Vec<u8> = Vec::new();
    let mut i: usize = start;
    while i <= end
        invariant
            start <= i <= end + 1,
            end < n,
            n == vec@.len(),
            rgba@ == vec@.subrange(start as int, i as int),
        decreases end + 1 - i,
    {
        rgba.push(vec[i]);
        i += 1;
    }
    rgba
}

/// Builds a buffer of the same length as the inputs whose pixel block `i`
/// is block `i` of `vec_1` when `i` is even and block `i` of `vec_2` when
/// it is odd.
pub fn alternate_pixels(vec_1: Vec<u8>, vec_2: Vec<u8>) -> (r: Vec<u8>)
    requires
        vec_1@.len() == vec_2@.len(),
        vec_1@.len() % 4 == 0,
    ensures
        r@ == alternated(vec_1@, vec_2@),
        r@.len() == vec_1@.len(),
{
    let len: usize = vec_1.len();
    let mut combined_data: Vec<u8> = vec![0u8; len];
    let mut i: usize = 0;
    while i < len
        invariant
            len == vec_1@.len(),
            len == vec_2@.len(),
            len % 4 == 0,
            i % 4 == 0,
            i <= len,
            combined_data@.len() == len,
            forall|k: int| 0 <= k < i ==> combined_data@[k] == alternated(vec_1@, vec_2@)[k],
        decreases len - i,
    {
        assert(i + 4 <= len);
        let block = if i % 8 == 0 {
            set_rgba(&vec_1, i, i + 3)
        } else {
            set_rgba(&vec_2, i, i + 3)
        };
        let ghost src = if i % 8 == 0 { vec_1@ } else { vec_2@ };
        assert(block_of(i as int) % 2 == 0 <==> i % 8 == 0);
        let mut j: usize = 0;
        while j < BLOCK
            invariant
                j <= 4,
                len == vec_1@.len(),
                len == vec_2@.len(),
                i + 4 <= len,
                i % 4 == 0,
                combined_data@.len() == len,
                block@ == src.subrange(i as int, i + 4),
                src == (if block_of(i as int) % 2 == 0 { vec_1@ } else { vec_2@ }),
                forall|k: int| 0 <= k < i + j ==> combined_data@[k] == alternated(vec_1@, vec_2@)[k],
            decreases 4 - j,
        {
            combined_data.set(i + j, block[j]);
            assert(block_of(i + j) == block_of(i as int));
            j += 1;
        }
        i += BLOCK;
    }
    assert(combined_data@ =~= alternated(vec_1@, vec_2@));
    combined_data
}

/// Interleaves the pixels of two pictures of the same size.
pub fn combine_images(image_1: Picture, image_2: Picture) -> (r: Vec<u8>)
    requires
        image_1.wf(),
        image_2.wf(),
        image_1.dims() == image_2.dims(),
    ensures
        r@ == alternated(image_1.rgba@, image_2.rgba@),
        r@.len() == rgba_len(image_1.width, image_1.height),
{
    proof {
        let (w, h) = (image_1.width as int, image_1.height as int);
        assert((w * h * 4) % 4 == 0) by (nonlinear_arith);
    }
    alternate_pixels(image_1.rgba, image_2.rgba)
}

/// The combined buffer has the length of its inputs.
pub proof fn lemma_alternated_len(a: Seq<u8>, b: Seq<u8>)
    requires
        a.len() == b.len(),
        a.len() % 4 == 0,
    ensures
        alternated(a, b).len() == a.len(),
{
}

/// Pixel block `i` of the combined buffer is block `i` of `a` when `i` is
/// even and block `i` of `b` when it is odd.
pub proof fn lemma_alternated_blocks(a: Seq<u8>, b: Seq<u8>, i: int)
    requires
        a.len() == b.len(),
        a.len() % 4 == 0,
        0 <= i < a.len() / 4,
    ensures
        alternated(a, b).subrange(4 * i, 4 * i + 4) == (if i % 2 == 0 {
            a.subrange(4 * i, 4 * i + 4)
        } else {
            b.subrange(4 * i, 4 * i + 4)
        }),
{
    let c = alternated(a, b);
    assert forall|k: int| 4 * i <= k < 4 * i + 4 implies block_of(k) == i by {}
    if i % 2 == 0 {
        assert(c.subrange(4 * i, 4 * i + 4) =~= a.subrange(4 * i, 4 * i + 4));
    } else {
        assert(c.subrange(4 * i, 4 * i + 4) =~= b.subrange(4 * i, 4 * i + 4));
    }
}

} // verus!
