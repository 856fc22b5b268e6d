//! CloudEvents event model and its HTTP protocol binding.
//!
//! The crate holds the in-memory event, the payload codec, and the reader
//! and writer that translate between an event and the binary, structured
//! and batch encodings carried by HTTP headers and a body.

pub mod builder;
pub mod codec;
pub mod error;
pub mod event;
pub mod extensions;
pub mod http;
pub mod json;
pub mod laws;
pub mod payload;
pub mod payload_json;
pub mod spec_version;
pub mod text;
pub mod timestamp;

pub use builder::EventBuilder;
pub use codec::{batch_from_json, batch_to_json, event_from_json, event_to_json};
pub use error::{Cause, CauseView, CodecError, CodecErrorView};
pub use event::{Event, EventView};
pub use extensions::Extensions;
pub use json::{JsonValue, JsonView};
pub use payload::{
    Payload, PayloadMapper, PayloadReader, PayloadResult, PayloadView, PayloadWriter,
};
pub use spec_version::SpecVersion;
pub use timestamp::Timestamp;
