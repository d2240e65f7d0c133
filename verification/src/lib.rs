//! Split a combined multi-file patch into one artifact per target file.
//!
//! A combined patch is a text stream holding the diffs of several target
//! files in sequence.  Each per-target section opens with a boundary marker,
//! a line beginning with `diff `, whose last whitespace-delimited token names
//! the target.  The stream ends with a fixed two-line trailer that belongs to
//! no section.  This crate segments such a stream into its sections, so that
//! a caller can write each one out as a file of its own.

use vstd::prelude::*;

pub mod boundary;
pub mod laws;
pub mod model;
pub mod splitter;

verus! {

/// The two values the splitter needs from its caller: the path of the
/// combined patch and the directory that receives the artifacts.
#[derive(Debug)]
pub struct Config {
    pub patch_file: String,
    pub out_dir: String,
}

impl Config {
    pub fn new(patch_file: String, out_dir: String) -> (r: Config)
        ensures
            r.patch_file == patch_file,
            r.out_dir == out_dir,
    {
        Config { patch_file, out_dir }
    }
}

/// The one failure segmentation itself can report: the input does not have
/// the shape of a combined patch.  A section other than the last holds no
/// line beyond its marker, the last section does not reach past the two-line
/// trailer, or a boundary marker carries no usable target token.
#[derive(Debug, Clone, Copy, PartialEq, Eq)]
pub enum SplitError {
    MalformedPatch,
}

impl SplitError {
    /// A human-readable description of the error.
    pub fn message(&self) -> (r: String)
        ensures
            r@ == "malformed patch"@,
    {
        String::from_str("malformed patch")
    }
}

} // verus!
