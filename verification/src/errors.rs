use vstd::prelude::*;

verus! {

/// The closed set of failure kinds of the combination pipeline. Every error is
/// produced by the component that detects it and propagated unchanged; no stage
/// retries or recovers.
#[derive(Debug)]
pub enum ImageDataErrors {
    /// The two inputs carry different encoded-format tags.
    DifferentImageFormats,
    /// A buffer offered to the output image exceeds its fixed capacity.
    BufferTooSmall,
    /// An input path could not be opened or read; carries the cause's text.
    UnableToReadImageFromPath(String),
    /// No encoded format could be detected for an input; carries the path.
    UnableToFormatImage(String),
    /// The byte stream could not be decoded into a pixel grid.
    UnableToDecodeImage(String),
    /// The combined buffer could not be encoded for writing.
    UnableToSaveImage(String),
}

} // verus!
