pub mod codec;
pub mod errors;
pub mod formats;
pub mod images;
pub mod interleave;
pub mod pipeline;
pub mod reconcile;
