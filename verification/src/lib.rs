//! Capture the output of a C-style text formatter whose length is not known
//! in advance.
//!
//! The formatter writes into a caller-supplied buffer of fixed capacity and
//! reports, through a signed return value, either failure or the number of
//! bytes the full output occupies.  The caller must discover that size,
//! allocate accordingly, and invoke the formatter again when the first buffer
//! was too small.  This crate holds that sizing-and-invocation protocol:
//! classifying a raw return value, growing the buffer, deciding whether to
//! retry, trimming the terminator, and decoding the final bytes as text.
//!
//! The foreign call itself crosses the C ABI with raw pointers and lives
//! outside this crate; everything here works on plain values and is verified.

pub mod buffer;
pub mod driver;
pub mod laws;
pub mod model;
pub mod outcome;
pub mod pipeline;
pub mod text;
