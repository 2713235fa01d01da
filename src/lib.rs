//! Per-line text state for an incremental shaping and layout pipeline.
//!
//! A [`BufferLine`] owns its text, line ending, attribute spans and alignment,
//! and caches two derived artifacts (a shape and a layout). Every mutation
//! states exactly which caches it invalidates; the caches keep the storage of
//! invalidated artifacts so the next computation can reuse it.

mod cached;

pub use cached::Cached;
mod attrs;
mod style;

pub use attrs::{AttrsList, Span};
pub use style::{Align, Attrs, LineEnding, Shaping, Style};
mod text;

pub use text::{byte_len, bytes_of, lemma_bytes_of_concat, lemma_bytes_of_injective};
mod engine;
mod line;

pub use engine::LineEngine;
pub use line::{BufferLine, LineState};
