//! Seekable byte streams over a borrowed buffer or a C stdio handle.
//!
//! A [`CSource`] reads and seeks, a [`CDest`] writes, seeks and flushes. Each
//! is a closed choice between a cursor over a borrowed byte slice and a
//! [`CFile`], the adapter for a native file handle that somebody else owns.
//!
//! Nothing here touches a native handle. An operation on a handle-backed
//! stream is a decision procedure: given the replies that the native layer has
//! made so far, it says which native call comes next, or what the operation
//! returns. The caller performs the calls.

pub mod error;
pub mod seek;
pub mod native;
pub mod file;
pub mod memory;
pub mod source;
pub mod dest;
pub mod laws;

pub use crate::error::StreamError;
pub use crate::dest::CDest;
pub use crate::file::CFile;
pub use crate::memory::{Cursor, CursorMut, CursorState};
pub use crate::native::{NativeCall, NativeReply, Replies, Script, Step, EOF};
pub use crate::seek::{SeekFrom, Whence, OFFSET_LIMIT};
pub use crate::source::CSource;
