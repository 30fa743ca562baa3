//! A lossy pixel codec that packs 24-bit RGB rasters into 16-bit words
//! under a caller-chosen per-channel bit allocation (for example 5/6/5),
//! together with the canonical byte serialization of the packed form.

pub mod buffer;
pub mod cli;
pub mod codec;
pub mod decode;
pub mod encode;
pub mod errors;
pub mod file;
pub mod mask;
pub mod raster;
pub mod render;

use vstd::prelude::*;

verus! {

/// Leading 16-bit sentinel of every serialized packed image.
pub const MAGIC: u16 = 0x5152;

} // verus!
