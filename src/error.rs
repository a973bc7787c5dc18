//! The error kinds that requests and scans report.

use vstd::prelude::*;

verus! {

/// Why a scan, a lookup or a request failed.
#[derive(Clone, Copy, Debug, PartialEq, Eq, Structural)]
pub enum ServeError {
    /// The filesystem could not be read.
    Io,
    /// An album or a file was not found.
    NotFound,
    /// Metadata or a header could not be parsed.
    Parse,
    /// The shared state could not be locked.
    Lock,
}

} // verus!
