//! A dynamically resizable, contiguous, ordered container of `i32` values.
//!
//! The container supports construction from an initial list, appending,
//! bounds-checked indexed reads and writes, length and descriptor-size
//! queries, front-to-back iteration (read-only and mutating), and
//! non-owning sub-range views. Out-of-bounds arguments are reported
//! through the single error condition [`sequence::SequenceError::OutOfBounds`];
//! no operation panics.

pub mod laws;
pub mod sequence;
