//! Where a seek goes: the requested origin and displacement.

use vstd::prelude::*;

verus! {

/// Native seeks take a 32-bit signed displacement. A displacement whose
/// magnitude reaches this limit is outside what a handle-backed stream accepts.
pub const OFFSET_LIMIT: i64 = 0x7fff_ffff;

/// A seek request: an origin and a displacement from it, in bytes.
#[derive(Clone, Copy, Debug, PartialEq, Eq)]
pub enum SeekFrom {
    /// An absolute position, counted from the start of the stream.
    Start(u64),
    /// A displacement from the end of the stream.
    End(i64),
    /// A displacement from the current position.
    Current(i64),
}

/// The origin of a native seek.
#[derive(Clone, Copy, Debug, PartialEq, Eq)]
pub enum Whence {
    /// From the start of the stream.
    Start,
    /// From the current position.
    Current,
    /// From the end of the stream.
    End,
}

impl SeekFrom {
    /// The displacement, as a mathematical integer.
    pub open spec fn offset(self) -> int {
        match self {
            SeekFrom::Start(n) => n as int,
            SeekFrom::End(d) => d as int,
            SeekFrom::Current(d) => d as int,
        }
    }

    /// The origin the displacement is counted from.
    pub open spec fn whence(self) -> Whence {
        match self {
            SeekFrom::Start(_) => Whence::Start,
            SeekFrom::End(_) => Whence::End,
            SeekFrom::Current(_) => Whence::Current,
        }
    }

    /// Whether this is the request that only asks where the stream stands:
    /// a displacement of zero from the current position.
    pub open spec fn is_position_query(self) -> bool {
        self == SeekFrom::Current(0)
    }

    /// Whether the displacement is one that a native seek can carry: its
    /// magnitude lies strictly below [`OFFSET_LIMIT`].
    pub open spec fn in_native_range(self) -> bool {
        -OFFSET_LIMIT < self.offset() < OFFSET_LIMIT
    }

    /// Tests whether a handle-backed stream accepts this request.
    ///
    /// Seeking such a stream outside this range is a programming error, so
    /// callers that cannot rule it out test first.
    pub fn fits_native(&self) -> (fits: bool)
        ensures
            fits == self.in_native_range(),
    {
        match self {
            SeekFrom::Start(n) => *n < 0x7fff_ffff,
            SeekFrom::End(d) => -OFFSET_LIMIT < *d && *d < OFFSET_LIMIT,
            SeekFrom::Current(d) => -OFFSET_LIMIT < *d && *d < OFFSET_LIMIT,
        }
    }
}

} // verus!
