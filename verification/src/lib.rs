//! Identification and classification of the volume descriptor sequence of an
//! ISO 9660 optical-disc image, including detection of an embedded UDF
//! ("Universal Disc Format") bridge filesystem.
//!
//! The crate has two parts: a decoder for the fixed seven-byte header that
//! opens every volume descriptor sector, and a walker that follows a run of
//! descriptor sectors, tracks the extended descriptor area brackets, and
//! classifies the image.

use vstd::prelude::*;

pub mod header;
pub mod utf8;
pub mod util;
pub mod walker;

verus! {

/// Size of a standard sector, in bytes.
pub const SECTOR_SIZE: usize = 2048;

} // verus!
