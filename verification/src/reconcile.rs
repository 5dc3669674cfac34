use vstd::prelude::*;

use crate::images::{rgba_len, DecodedImage};

verus! {

/// The total pixel count of a dimension pair; dimension pairs are ordered by
/// it, not lexicographically.
pub open spec fn pixel_count(dim: (u32, u32)) -> int {
    (dim.0 as int) * (dim.1 as int)
}

/// The target of reconciliation: the pair covering strictly fewer pixels, and
/// the first pair on a tie.
pub open spec fn smallest_dimensions(dim_1: (u32, u32), dim_2: (u32, u32)) -> (u32, u32) {
    if pixel_count(dim_1) <= pixel_count(dim_2) {
        dim_1
    } else {
        dim_2
    }
}

/// Reconciliation keeps one of the two input pairs: the one whose pixel count
/// is no larger than the other's, the first input winning a tie.
pub proof fn lemma_reconcile_picks_fewest_pixels(dim_1: (u32, u32), dim_2: (u32, u32))
    ensures
        pixel_count(smallest_dimensions(dim_1, dim_2)) <= pixel_count(dim_1),
        pixel_count(smallest_dimensions(dim_1, dim_2)) <= pixel_count(dim_2),
        pixel_count(dim_1) <= pixel_count(dim_2) ==> smallest_dimensions(dim_1, dim_2) == dim_1,
        pixel_count(dim_2) < pixel_count(dim_1) ==> smallest_dimensions(dim_1, dim_2) == dim_2,
{
}

pub fn get_smallest_dimensions(dim_1: (u32, u32), dim_2: (u32, u32)) -> (r: (u32, u32))
    ensures
        r == smallest_dimensions(dim_1, dim_2),
{
    proof {
        assert((dim_1.0 as int) * (dim_1.1 as int) <= (u32::MAX as int) * (u32::MAX as int))
            by (nonlinear_arith)
            requires
                dim_1.0 <= u32::MAX,
                dim_1.1 <= u32::MAX,
        ;
        assert((dim_2.0 as int) * (dim_2.1 as int) <= (u32::MAX as int) * (u32::MAX as int))
            by (nonlinear_arith)
            requires
                dim_2.0 <= u32::MAX,
                dim_2.1 <= u32::MAX,
        ;
    }
    let pix_1: u64 = (dim_1.0 as u64) * (dim_1.1 as u64);
    let pix_2: u64 = (dim_2.0 as u64) * (dim_2.1 as u64);

    if pix_1 <= pix_2 {
        dim_1
    } else {
        dim_2
    }
}

/// What a resize to the target grid hands back: the nearest-neighbor resample
/// of an RGBA8 grid of the given size onto `new_width` by `new_height`. The
/// resample is deterministic, a function of the grid and the sizes alone.
pub uninterp spec fn resampled(
    data: Seq<u8>,
    width: int,
    height: int,
    new_width: int,
    new_height: int,
) -> Seq<u8>;

/// Relies on `image::DynamicImage::resize_exact` with the nearest-neighbor
/// filter: a deterministic resample that yields a grid of exactly
/// `new_width` by `new_height` RGBA8 pixels, four bytes each.
#[verifier::external_body]
fn resize_rgba(width: u32, height: u32, data: &Vec<u8>, new_width: u32, new_height: u32) -> (r: Vec<
    u8,
>)
    requires
        width >= 1,
        height >= 1,
        data@.len() == rgba_len(width, height),
        rgba_len(new_width, new_height) <= usize::MAX,
    ensures
        r@.len() == rgba_len(new_width, new_height),
        r@ == resampled(data@, width as int, height as int, new_width as int, new_height as int),
{
    let buffer = image::RgbaImage::from_raw(width, height, data.clone()).unwrap();
    let resized = image::DynamicImage::ImageRgba8(buffer).resize_exact(
        new_width,
        new_height,
        image::imageops::FilterType::Nearest,
    );
    resized.to_rgba8().into_vec()
}

/// Resizes both images to the reconciled target: the dimensions of whichever
/// input covers fewer pixels, the first on a tie. Cannot fail on two
/// well-formed images.
pub fn standardize_size(image_1: DecodedImage, image_2: DecodedImage) -> (r: (
    DecodedImage,
    DecodedImage,
))
    requires
        image_1.wf(),
        image_2.wf(),
    ensures
        ({
            let target = smallest_dimensions(image_1.dims(), image_2.dims());
            &&& r.0.dims() == target
            &&& r.1.dims() == target
            &&& r.0.width == r.1.width && r.0.height == r.1.height
            &&& r.0.wf() && r.1.wf()
            &&& r.0.format == image_1.format
            &&& r.1.format == image_2.format
            &&& r.0.data@ == resampled(
                image_1.data@,
                image_1.width as int,
                image_1.height as int,
                target.0 as int,
                target.1 as int,
            )
            &&& r.1.data@ == resampled(
                image_2.data@,
                image_2.width as int,
                image_2.height as int,
                target.0 as int,
                target.1 as int,
            )
        }),
{
    let len_1: usize = image_1.data.len();
    let len_2: usize = image_2.data.len();
    let (width, height) = get_smallest_dimensions(
        (image_1.width, image_1.height),
        (image_2.width, image_2.height),
    );
    assert(rgba_len(width, height) == len_1 || rgba_len(width, height) == len_2);
    let data_1 = resize_rgba(image_1.width, image_1.height, &image_1.data, width, height);
    let data_2 = resize_rgba(image_2.width, image_2.height, &image_2.data, width, height);
    let out_1 = DecodedImage { width, height, data: data_1, format: image_1.format };
    let out_2 = DecodedImage { width, height, data: data_2, format: image_2.format };
    (out_1, out_2)
}

} // verus!
