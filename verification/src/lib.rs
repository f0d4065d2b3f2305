//! A byte-code interpreter for a small fictional 8-bit processor with three
//! general-purpose registers, a flags register, and a flat memory buffer.
//!
//! The instruction set lives in [`arch`]; the processor state and the
//! fetch-decode-execute engine live in [`machine`].

pub mod arch;
pub mod machine;
