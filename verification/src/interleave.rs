use vstd::prelude::*;

use crate::images::{rgba_len, DecodedImage};

verus! {

/// The fixed channel-selection rule, per byte of the flattened buffer: byte
/// `i` is a red sample exactly when `i % 4 == 0`, and red comes from the
/// first buffer while green, blue and alpha come from the second.
pub open spec fn interleave(a: Seq<u8>, b: Seq<u8>) -> Seq<u8> {
    Seq::new(a.len(), |i: int| if i % 4 == 0 { a[i] } else { b[i] })
}

/// Interleaving two equal-length buffers takes each red byte from the first
/// and every other byte from the second, over the whole output.
pub proof fn lemma_interleave_channel_rule(a: Seq<u8>, b: Seq<u8>)
    requires
        a.len() == b.len(),
    ensures
        interleave(a, b).len() == a.len(),
        forall|i: int|
            0 <= i < a.len() ==> interleave(a, b)[i] == (if i % 4 == 0 {
                a[i]
            } else {
                b[i]
            }),
{
}

/// Builds the combined buffer byte by byte under the channel-selection rule.
/// The second buffer may be longer; only the first buffer's length is read.
pub fn alternate_pixels(vec_1: Vec<u8>, vec_2: Vec<u8>) -> (r: Vec<u8>)
    requires
        vec_1@.len() <= vec_2@.len(),
    ensures
        r@ == interleave(vec_1@, vec_2@),
        r@.len() == vec_1@.len(),
{
    let mut vec_out: Vec<u8> = Vec::new();
    let n: usize = vec_1.len();
    let mut i: usize = 0;
    while i < n
        invariant
            n == vec_1@.len() <= vec_2@.len(),
            i <= n,
            vec_out@.len() == i,
            forall|j: int|
                0 <= j < i ==> vec_out@[j] == (if j % 4 == 0 {
                    vec_1@[j]
                } else {
                    vec_2@[j]
                }),
        decreases n - i,
    {
        if i % 4 == 0 {
            vec_out.push(vec_1[i]);
        } else {
            vec_out.push(vec_2[i]);
        }
        i = i + 1;
    }
    proof {
        assert(vec_out@ =~= interleave(vec_1@, vec_2@));
    }
    vec_out
}

/// Merges two images already reconciled to the same dimensions: the output
/// buffer takes every pixel's red channel from the first image and the other
/// channels from the second.
pub fn combine_images(image_1: DecodedImage, image_2: DecodedImage) -> (r: Vec<u8>)
    requires
        image_1.width == image_2.width,
        image_1.height == image_2.height,
        image_1.data@.len() == rgba_len(image_1.width, image_1.height),
        image_2.data@.len() == rgba_len(image_2.width, image_2.height),
    ensures
        r@ == interleave(image_1.data@, image_2.data@),
        r@.len() == image_1.data@.len(),
{
    alternate_pixels(image_1.data, image_2.data)
}

} // verus!
