//! Front end of a static binary-lifting pipeline for AArch64 images.
//!
//! The crate has two halves.  The `image` module parses a packed executable
//! container and recovers the four typed memory segments (code, read-only
//! data, read-write data, zero-fill).  The `opcode`, `inst` and `decode`
//! modules define the canonical decoded-instruction model: a closed opcode
//! enumeration that collapses alias encodings to single canonical symbols, a
//! record type whose payload is a sum type selected by opcode category, and a
//! decoder for the instruction groups whose canonicalization rules this crate
//! documents.  Every word sequence decodes to exactly one record per word;
//! unrecognized and reserved words are reported in-band as `Unknown` and
//! `Invalid` records rather than as failures.

pub mod decode;
pub mod image;
pub mod inst;
pub mod opcode;
