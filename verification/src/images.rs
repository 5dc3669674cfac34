use vstd::prelude::*;

use crate::errors::ImageDataErrors;

verus! {

/// The byte length of an RGBA8 pixel grid: four bytes (red, green, blue,
/// alpha) per pixel, row-major.
pub open spec fn rgba_len(width: u32, height: u32) -> int {
    (width as int) * (height as int) * 4
}

/// A fully decoded image: its pixel grid as a flat RGBA8 byte buffer together
/// with the encoded format detected for it. Superseded, never mutated, by
/// resizing.
pub struct DecodedImage {
    pub width: u32,
    pub height: u32,
    pub data: Vec<u8>,
    pub format: image::ImageFormat,
}

impl DecodedImage {
    /// What holds of every image a decoder hands out: a pixel grid of at
    /// least one pixel whose buffer holds exactly four bytes per pixel.
    pub open spec fn wf(self) -> bool {
        &&& self.width >= 1
        &&& self.height >= 1
        &&& self.data@.len() == rgba_len(self.width, self.height)
    }

    /// The image's dimension pair, ordered elsewhere by total pixel count.
    pub open spec fn dims(self) -> (u32, u32) {
        (self.width, self.height)
    }
}

/// The destination image: dimensions fixed at construction, a buffer that may
/// never exceed the capacity those dimensions give, and the target file name.
pub struct FloatingImage {
    pub width: u32,
    pub height: u32,
    pub data: Vec<u8>,
    pub name: String,
}

impl FloatingImage {
    /// The fixed byte capacity computed from the dimensions at construction.
    pub open spec fn capacity(self) -> int {
        rgba_len(self.width, self.height)
    }

    /// The capacity invariant: the capacity was computed in 32-bit arithmetic
    /// at construction, and the buffer never exceeds it.
    pub open spec fn wf(self) -> bool {
        &&& self.capacity() <= u32::MAX
        &&& self.data@.len() <= self.capacity()
    }

    pub fn new(width: u32, height: u32, name: String) -> (r: FloatingImage)
        requires
            rgba_len(width, height) <= u32::MAX,
        ensures
            r.width == width,
            r.height == height,
            r.name == name,
            r.data@.len() == 0,
            r.wf(),
    {
        let buffer_size: u32 = height * width * 4;
        let buffer: Vec<u8> = Vec::with_capacity(buffer_size as usize);
        FloatingImage { width, height, data: buffer, name }
    }

    /// Accepts a buffer only under the capacity ceiling; a shorter buffer is
    /// accepted as well, the check being a ceiling and not an exact length.
    pub fn set_data(&mut self, data: Vec<u8>) -> (r: Result<(), ImageDataErrors>)
        requires
            old(self).wf(),
        ensures
            r is Ok <==> data@.len() <= old(self).capacity(),
            r is Ok ==> final(self).data == data,
            r is Err ==> *final(self) == *old(self) && (r matches Err(e) && e is BufferTooSmall),
            final(self).width == old(self).width,
            final(self).height == old(self).height,
            final(self).name == old(self).name,
            final(self).wf(),
    {
        let cap: u64 = (self.width as u64) * (self.height as u64) * 4;
        if (data.len() as u64) > cap {
            return Err(ImageDataErrors::BufferTooSmall);
        }
        self.data = data;
        Ok(())
    }
}

} // verus!
