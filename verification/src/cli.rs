//! The command-line surface: which subcommand runs, with which options.

use vstd::prelude::*;

use crate::decode::DecodeOptions;
use crate::encode::EncodeOptions;

verus! {

/// One subcommand with its options.
pub enum Commands {
    /// Encode a raster image into the packed format.
    Encode(EncodeOptions),
    /// Decode a packed file back into a raster image.
    Decode(DecodeOptions),
}

/// The parsed command line.
pub struct Cli {
    pub command: Commands,
}

} // verus!
