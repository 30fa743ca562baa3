//! Typed errors returned by the codec.

use vstd::prelude::*;

verus! {

/// Errors from mask validation and from parsing a serialized packed image.
///
/// The mask variants carry the character span `[start, end)` of the
/// offending part of the mask specification string.
#[derive(Debug, PartialEq, Eq)]
pub enum FormatError {
    /// The mask specification is not exactly three decimal digits.
    InvalidMaskSize { start: usize, end: usize },
    /// A mask digit exceeds 8.
    InvalidMaskDigit { start: usize, end: usize },
    /// The three mask digits do not sum to 16.
    InvalidMaskSum { start: usize, end: usize },
    /// The byte stream is shorter than the fixed header, or its leading
    /// 16 bits are not the format's magic value, or its stored mask is not
    /// a valid channel allocation.
    CorruptHeader,
    /// The byte stream ends before `width * height` packed words.
    TruncatedPayload,
}

/// Errors from checking file names handed to the command-line layer.
///
/// `UnsupportedFormat` carries the offending path and the span of its
/// extension: `start` is the index just past the first `'.'`, `len` the
/// extension's character count.
#[derive(Debug, PartialEq, Eq)]
pub enum FileFormatError {
    /// The path contains no `'.'`, so no extension can be read.
    MissingExtension,
    /// The extension is not one the command accepts.
    UnsupportedFormat { input: String, start: usize, len: usize },
}

} // verus!
