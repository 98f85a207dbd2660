use vstd::prelude::*;

verus! {

/// The ways a reconciliation run can fail.  Manifest-level failures abort
/// the run; local file troubles never do (an unreadable file is simply
/// treated as outdated, and cleanup is best-effort).
#[derive(Clone, Copy, Debug, PartialEq, Eq, Structural)]
pub enum UpdateError {
    /// The manifest or a file could not be fetched over the network.
    Network,
    /// The manifest body is malformed, or a listed filename cannot be
    /// resolved against the download base URL.
    Parse,
    /// The manifest's `last_updated` field is not a decimal integer that
    /// fits a signed 64-bit count of seconds.
    Timestamp,
    /// A local read, write or delete failed.
    Io,
}

} // verus!
