use vstd::prelude::*;

verus! {

/// Everything that can go wrong while probing the remote resource or while
/// serving a read request.
///
/// Probe-time failures (`NetworkError` on the probe, `UnexpectedStatus`,
/// `RangesUnsupported`, `MissingLength`, `UnparsableLength`) are fatal before
/// the filesystem is attached.  Per-read failures (`NotFound`, `InvalidRange`,
/// `InsufficientCacheCapacity`, `NetworkError` on a range fetch) are reported
/// to the requesting kernel call and leave the mount alive.
#[derive(Debug, PartialEq, Eq)]
pub enum Error {
    /// A transport-level failure, carrying the transport's own description.
    NetworkError(String),
    /// The probe answered with a status other than 200.
    UnexpectedStatus(u16),
    /// The probe answer carried no `accept-ranges: bytes` header.
    RangesUnsupported,
    /// The probe answer carried no `content-length` header.
    MissingLength,
    /// The `content-length` header did not parse as a non-negative 64-bit
    /// integer; the raw header value is kept.
    UnparsableLength(String),
    /// The inode (or directory entry name) does not exist.
    NotFound,
    /// A read was asked for with a negative offset.
    InvalidRange,
    /// A single read asked for more bytes than the configured cache window.
    InsufficientCacheCapacity,
}

impl Error {
    /// The kernel-level error code nearest to this error: per-read errors map
    /// to the classic POSIX numbers, everything transport-shaped to `EIO`.
    pub open spec fn spec_errno(self) -> i32 {
        match self {
            Error::NotFound => 2,  // ENOENT
            Error::InvalidRange => 34,  // ERANGE
            Error::InsufficientCacheCapacity => 28,  // ENOSPC
            _ => 5,  // EIO
        }
    }

    /// Translate the error to the nearest kernel-level error code.
    pub fn errno(&self) -> (r: i32)
        ensures
            r == self.spec_errno(),
    {
        match self {
            Error::NotFound => 2,
            Error::InvalidRange => 34,
            Error::InsufficientCacheCapacity => 28,
            _ => 5,
        }
    }
}

} // verus!
