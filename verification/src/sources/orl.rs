//! Records read from ORL text files.

use vstd::prelude::*;

pub mod line_parser;
pub mod orl_file_parser;
pub mod orl_line_parser;
pub mod parse_timestamp;
pub mod round_trip;

verus! {

/// A directory of ORL logs: one directory for each channel, one file for
/// each day.
#[derive(Clone, Debug, PartialEq, Eq)]
pub struct OrlFileSource {
    pub orl_dir: String,
}

impl OrlFileSource {
    /// The source that reads the directory `orl_dir`.
    pub fn new(orl_dir: String) -> (r: Self)
        ensures
            r.orl_dir == orl_dir,
    {
        OrlFileSource { orl_dir }
    }
}

} // verus!
