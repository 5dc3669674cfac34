use vstd::prelude::*;

use crate::codec::{encode_image, encode_ok, encoded_bytes};
use crate::errors::ImageDataErrors;
use crate::formats::format_eq;
use crate::images::{rgba_len, DecodedImage, FloatingImage};
use crate::interleave::{combine_images, interleave};
use crate::reconcile::{resampled, smallest_dimensions, standardize_size};

verus! {

/// The combined buffer the pipeline owes for two well-formed, same-format
/// inputs: both grids resampled to the reconciled target, then interleaved
/// under the channel-selection rule.
pub open spec fn combined_data(image_1: DecodedImage, image_2: DecodedImage) -> Seq<u8> {
    let target = smallest_dimensions(image_1.dims(), image_2.dims());
    interleave(
        resampled(
            image_1.data@,
            image_1.width as int,
            image_1.height as int,
            target.0 as int,
            target.1 as int,
        ),
        resampled(
            image_2.data@,
            image_2.width as int,
            image_2.height as int,
            target.0 as int,
            target.1 as int,
        ),
    )
}

/// Runs the pixel stages of the pipeline over two decoded images: format
/// check, reconciliation, interleaving, and the capacity-checked assignment
/// into the output image. Fails with `DifferentImageFormats`, before any
/// pixel work, exactly when the two format tags differ; on equal tags it
/// cannot fail, and the output image carries the reconciled dimensions, the
/// given name, and the interleaved buffer, filled to capacity.
pub fn process_images(image_1: DecodedImage, image_2: DecodedImage, output_name: String) -> (r:
    Result<FloatingImage, ImageDataErrors>)
    requires
        image_1.wf(),
        image_2.wf(),
        rgba_len(image_1.width, image_1.height) <= u32::MAX,
        rgba_len(image_2.width, image_2.height) <= u32::MAX,
    ensures
        image_1.format != image_2.format <==> (r matches Err(e) && e is DifferentImageFormats),
        image_1.format == image_2.format ==> (r matches Ok(out) && {
            let target = smallest_dimensions(image_1.dims(), image_2.dims());
            &&& (out.width, out.height) == target
            &&& out.name == output_name
            &&& out.data@ == combined_data(image_1, image_2)
            &&& out.data@.len() == out.capacity()
            &&& out.wf()
        }),
{
    if !format_eq(&image_1.format, &image_2.format) {
        return Err(ImageDataErrors::DifferentImageFormats);
    }
    let (image_1, image_2) = standardize_size(image_1, image_2);
    let mut output = FloatingImage::new(image_1.width, image_1.height, output_name);
    let combined = combine_images(image_1, image_2);
    match output.set_data(combined) {
        Ok(()) => Ok(output),
        Err(e) => Err(e),
    }
}

/// Runs the whole in-memory pipeline: the pixel stages, then encoding in the
/// format detected for the first input. On success it hands back the filled
/// output image together with exactly the codec's bytes for the combined
/// buffer at the target dimensions in that format; after the format check,
/// it fails only where the codec refuses that encoding, with
/// `UnableToSaveImage`.
pub fn run_pipeline(image_1: DecodedImage, image_2: DecodedImage, output_name: String) -> (r:
    Result<(FloatingImage, Vec<u8>), ImageDataErrors>)
    requires
        image_1.wf(),
        image_2.wf(),
        rgba_len(image_1.width, image_1.height) <= u32::MAX,
        rgba_len(image_2.width, image_2.height) <= u32::MAX,
    ensures
        image_1.format != image_2.format <==> (r matches Err(e) && e is DifferentImageFormats),
        image_1.format == image_2.format ==> {
            let target = smallest_dimensions(image_1.dims(), image_2.dims());
            let combined = combined_data(image_1, image_2);
            &&& (r is Ok <==> encode_ok(combined, target.0, target.1, image_1.format))
            &&& (r matches Err(e) ==> e is UnableToSaveImage)
            &&& (r matches Ok(p) ==> p.1@ == encoded_bytes(
                combined,
                target.0,
                target.1,
                image_1.format,
            ))
        },
        r matches Ok(p) ==> {
            let target = smallest_dimensions(image_1.dims(), image_2.dims());
            &&& (p.0.width, p.0.height) == target
            &&& p.0.name == output_name
            &&& p.0.data@ == combined_data(image_1, image_2)
        },
{
    let format = image_1.format;
    let output = match process_images(image_1, image_2, output_name) {
        Ok(out) => out,
        Err(e) => { return Err(e); },
    };
    match encode_image(&output, format) {
        Ok(bytes) => Ok((output, bytes)),
        Err(e) => Err(e),
    }
}

} // verus!
