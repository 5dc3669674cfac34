use vstd::prelude::*;

use crate::errors::ImageDataErrors;
use crate::formats::{format_from_path, path_format};
use crate::images::{rgba_len, DecodedImage, FloatingImage};

verus! {

/// Whether the codec can decode the given bytes as the given format.
/// Decoding reads nothing but the bytes and the format tag, so the outcome is
/// a function of them alone.
pub uninterp spec fn decode_ok(bytes: Seq<u8>, format: image::ImageFormat) -> bool;

/// The pixel grid the codec decodes from the given bytes under the given
/// format, as width, height, and the RGBA8 buffer; meaningful where
/// `decode_ok` holds.
pub uninterp spec fn decoded_image(bytes: Seq<u8>, format: image::ImageFormat) -> (
    u32,
    u32,
    Seq<u8>,
);

/// Relies on `image::load_from_memory_with_format` and
/// `DynamicImage::to_rgba8`: decoding is deterministic in the bytes and the
/// format, a decoded image converted to RGBA8 carries exactly
/// `width * height * 4` bytes, and on failure the codec's error text comes
/// back.
#[verifier::external_body]
fn decode_rgba(bytes: &Vec<u8>, format: image::ImageFormat) -> (r: Result<
    (u32, u32, Vec<u8>),
    String,
>)
    ensures
        r is Ok <==> decode_ok(bytes@, format),
        r matches Ok(t) ==> (t.0, t.1, t.2@) == decoded_image(bytes@, format),
        r matches Ok(t) ==> t.2@.len() == rgba_len(t.0, t.1),
{
    match image::load_from_memory_with_format(bytes.as_slice(), format) {
        Ok(img) => {
            let rgba = img.to_rgba8();
            let (width, height) = rgba.dimensions();
            Ok((width, height, rgba.into_vec()))
        },
        Err(e) => Err(e.to_string()),
    }
}

/// Whether the codec can encode an RGBA8 grid of the given size in the given
/// format. Encoding into memory reads nothing but the buffer, the dimensions
/// and the format tag, so the outcome is a function of them alone.
pub uninterp spec fn encode_ok(
    data: Seq<u8>,
    width: u32,
    height: u32,
    format: image::ImageFormat,
) -> bool;

/// The bytes the codec produces for an RGBA8 grid of the given size in the
/// given format; meaningful where `encode_ok` holds.
pub uninterp spec fn encoded_bytes(
    data: Seq<u8>,
    width: u32,
    height: u32,
    format: image::ImageFormat,
) -> Seq<u8>;

/// Relies on `image::write_buffer_with_format`: encoding an RGBA8 grid into
/// an in-memory cursor is deterministic in the buffer, the dimensions and the
/// format; the codec's refusal of a format or layout comes back as an error.
/// The exact-length `requires` keeps the encoders' own length assertions from
/// firing.
#[verifier::external_body]
fn encode_rgba(data: &Vec<u8>, width: u32, height: u32, format: image::ImageFormat) -> (r: Result<
    Vec<u8>,
    String,
>)
    requires
        data@.len() == rgba_len(width, height),
    ensures
        r is Ok <==> encode_ok(data@, width, height, format),
        r matches Ok(b) ==> b@ == encoded_bytes(data@, width, height, format),
{
    let mut cursor = std::io::Cursor::new(Vec::new());
    match image::write_buffer_with_format(
        &mut cursor,
        data.as_slice(),
        width,
        height,
        image::ColorType::Rgba8,
        format,
    ) {
        Ok(()) => Ok(cursor.into_inner()),
        Err(e) => Err(e.to_string()),
    }
}

/// Turns a file's bytes into a decoded image: detects the encoded format from
/// the path's extension, then decodes the bytes under that format. Fails with
/// `UnableToFormatImage` exactly when no format is detected for the path, and
/// with `UnableToDecodeImage` exactly when the codec rejects the bytes or
/// hands back an empty grid. On success the image is the decode of the bytes,
/// well-formed and tagged with the detected format; no partial result is ever
/// returned.
pub fn load_image(path: String, bytes: Vec<u8>) -> (r: Result<DecodedImage, ImageDataErrors>)
    ensures
        path_format(path@) is None <==> (r matches Err(e) && e matches
            ImageDataErrors::UnableToFormatImage(p) && p == path),
        (r matches Err(e) && e is UnableToFormatImage) ==> path_format(path@) is None,
        r matches Err(e) ==> (e is UnableToFormatImage || e is UnableToDecodeImage),
        path_format(path@) matches Some(f) ==> {
            let d = decoded_image(bytes@, f);
            &&& (r is Ok <==> decode_ok(bytes@, f) && d.0 >= 1 && d.1 >= 1)
            &&& (r matches Ok(img) ==> {
                &&& img.format == f
                &&& (img.width, img.height, img.data@) == d
                &&& img.wf()
            })
        },
{
    let format = match format_from_path(&path) {
        Some(f) => f,
        None => { return Err(ImageDataErrors::UnableToFormatImage(path)); },
    };
    match decode_rgba(&bytes, format) {
        Ok((width, height, data)) => {
            if width == 0 || height == 0 {
                return Err(
                    ImageDataErrors::UnableToDecodeImage("decoded image has no pixels".to_owned()),
                );
            }
            Ok(DecodedImage { width, height, data, format })
        },
        Err(msg) => Err(ImageDataErrors::UnableToDecodeImage(msg)),
    }
}

/// Encodes the output image's buffer in the given format, yielding exactly
/// the codec's bytes for that grid and format. Succeeds exactly where the
/// codec accepts the grid and the format; fails only with
/// `UnableToSaveImage`, carrying the codec's error text.
pub fn encode_image(output: &FloatingImage, format: image::ImageFormat) -> (r: Result<
    Vec<u8>,
    ImageDataErrors,
>)
    requires
        output.data@.len() == rgba_len(output.width, output.height),
    ensures
        r is Ok <==> encode_ok(output.data@, output.width, output.height, format),
        r matches Ok(b) ==> b@ == encoded_bytes(output.data@, output.width, output.height, format),
        r matches Err(e) ==> e is UnableToSaveImage,
{
    match encode_rgba(&output.data, output.width, output.height, format) {
        Ok(bytes) => Ok(bytes),
        Err(msg) => Err(ImageDataErrors::UnableToSaveImage(msg)),
    }
}

} // verus!
