//! The one error type that every stream operation reports.

use vstd::prelude::*;

verus! {

/// Why a stream operation failed.
#[derive(Clone, Copy, Debug, PartialEq, Eq)]
pub enum StreamError {
    /// The native layer reported a failure; the value is the code that the
    /// handle's error indicator gave, unchanged.
    Os(i32),
    /// A seek on a memory-backed stream would have landed before the start
    /// of the buffer or beyond the largest position a stream can have.
    InvalidSeek,
}

impl StreamError {
    /// The code carried by a native failure, if this is one.
    pub open spec fn os_code(self) -> Option<i32> {
        match self {
            StreamError::Os(code) => Some(code),
            StreamError::InvalidSeek => None,
        }
    }

    /// The platform error code behind this error, if the native layer gave one.
    pub fn raw_os_error(&self) -> (code: Option<i32>)
        ensures
            code == self.os_code(),
    {
        match self {
            StreamError::Os(code) => Some(*code),
            StreamError::InvalidSeek => None,
        }
    }
}

} // verus!
