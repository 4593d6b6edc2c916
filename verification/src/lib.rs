//! A clipboard change-detection and bounded-history engine.
//!
//! The engine classifies each captured clipboard payload, fingerprints it to
//! discard consecutive re-captures of identical content, and keeps a
//! capacity-bounded, insertion-ordered history that callers can query,
//! clear and resize.

pub mod classify;
pub mod entry;
pub mod fingerprint;
pub mod laws;
pub mod store;

pub use entry::ClipboardContentType;
pub use entry::ClipboardError;
pub use entry::ClipboardItem;
