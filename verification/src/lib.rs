//! In-place, byte-wise transformation of buffers and files: bit inversion,
//! bit reversal within each byte, and nibble swap.
//!
//! [`process_buffer`] transforms a region of memory. A file is transformed
//! either whole, mapped into memory and handed to [`process_mapped`], or in
//! chunks, under the direction of a [`ChunkedRun`]. The library itself
//! touches no file: it is given bytes and says what to do next.

pub mod bits;
pub mod buffer;
pub mod chunked;
pub mod model;
pub mod operations;

pub use crate::buffer::{process_buffer, process_mapped};
pub use crate::chunked::{Action, ChunkedRun, Event, Fault, Phase, CHUNK_SIZE};
pub use crate::operations::{operations, Operations, Permutation};
