//! A narrow boundary around an embedded, persistent key-value engine.
//!
//! The boundary owns three things: the lifecycle of an engine handle, the
//! hand-over of byte buffers to the caller, and the coarse status that each
//! operation reports. The engine itself is `sled`; what is believed of it is
//! collected in [`engine`].

pub mod buffer;
pub mod engine;
pub mod handle;
pub mod laws;
pub mod status;

pub use buffer::{classify_view, sled_free_data, SledData, ViewKind};
pub use handle::{sled_close, sled_get, sled_insert, sled_open, sled_remove, SledDb};
pub use status::SledResult;
