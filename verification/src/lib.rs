//! Finalize-and-inject pipeline for a dictation assistant.
//!
//! The library receives a raw transcription string, asks a remote
//! text-polishing service to clean it up (falling back to the raw text on
//! any remote failure), and plans the injection of the resulting string as
//! synthetic keystrokes after the assistant's own window has yielded focus.
//! All sequencing, guarding and failure-handling decisions live here; the
//! surrounding process performs the actual network and OS calls and feeds
//! their outcomes back in as events.

pub mod inject;
pub mod json;
pub mod pipeline;
pub mod polish;
pub mod text;
