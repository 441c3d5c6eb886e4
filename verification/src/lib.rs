//! Decoder for the 128-byte header of an NES Sound Format (NSF) file.
//!
//! The header is a fixed little-endian layout in front of the 6502 program
//! data. This crate turns it into a typed record, reports soft-constraint
//! violations as warnings, and locates the program data that follows.

pub mod bytes;
pub mod header;
pub mod text;
pub mod layout;
pub mod decode;
pub mod encode;

pub use crate::decode::{decode, decode_header, decode_lenient, decode_with, Decoded, FormatError};
pub use crate::encode::encode;
pub use crate::header::{ExpansionChip, NSFHeader, ProgramRegion, Warning, HEADER_SIZE};
pub use crate::text::decode_text;
