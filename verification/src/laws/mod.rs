//! What holds of the reader, the writer and the codecs together.

pub mod names;
pub mod payload;
pub mod structured;
pub mod binary;
pub mod dispatch;
pub mod extensions;
