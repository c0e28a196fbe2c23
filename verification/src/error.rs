//! Error type for the capture viewer.
//!
//! Content problems inside the capture (a wrong magic number, an unsupported
//! version, a truncated trailing record) are display-time annotations, not
//! errors; the parser fails only when the 16-byte file header itself cannot
//! be read.

use vstd::prelude::*;

verus! {

#[derive(Debug, Clone, Copy, PartialEq, Eq, Structural)]
pub enum PcapViewerError {
    /// Fewer than 16 bytes were available, so no file header exists.
    TruncatedHeader,
}

impl PcapViewerError {
    /// A user-facing description of the error.
    pub fn message(&self) -> (r: &'static str)
        ensures
            r@ == "file shorter than the 16-byte file header"@,
    {
        "file shorter than the 16-byte file header"
    }
}

} // verus!
