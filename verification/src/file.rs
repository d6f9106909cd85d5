//! The adapter for a native file handle.
//!
//! The adapter holds the address of a handle that it does not own, and turns
//! each stream operation into native calls and the reading of their replies.

use vstd::prelude::*;
use crate::error::StreamError;
use crate::native::{NativeCall, Replies, Step, EOF};
use crate::seek::{SeekFrom, Whence};

verus! {

/// What a read or write of `requested` bytes returns once the native layer
/// has moved `moved` bytes and, after a short transfer, reported `indicator`.
///
/// A short transfer with a clear indicator is an ordinary short result, such
/// as the end of the stream. With the indicator set it is a failure that
/// carries the indicator's value.
pub open spec fn transfer_outcome(requested: usize, moved: usize, indicator: i32) -> Result<
    usize,
    StreamError,
> {
    if moved < requested && indicator != 0 {
        Err(StreamError::Os(indicator))
    } else {
        Ok(moved)
    }
}

/// What a flush returns once the native flush has reported `status` and,
/// after a failure, the error indicator `indicator`.
pub open spec fn flush_outcome(status: i32, indicator: i32) -> Result<(), StreamError> {
    if status == EOF {
        Err(StreamError::Os(indicator))
    } else {
        Ok(())
    }
}

/// The position that a native position query of `raw` stands for: the same
/// number where it is not negative, else the number that the same 64 bits
/// spell when read as unsigned.
pub open spec fn position_value(raw: i64) -> u64 {
    if raw >= 0 {
        raw as u64
    } else {
        (raw + 0x1_0000_0000_0000_0000) as u64
    }
}

/// What a seek to `pos` returns once the native seek, where one was needed,
/// has reported `status`, a failed one the error indicator `indicator`, and
/// the position query `raw`.
pub open spec fn seek_outcome(pos: SeekFrom, status: i32, indicator: i32, raw: i64) -> Result<
    u64,
    StreamError,
> {
    if !pos.is_position_query() && status != 0 {
        Err(StreamError::Os(indicator))
    } else {
        Ok(position_value(raw))
    }
}

/// The native seek that a request stands for, or `None` for the request that
/// only asks for the position.
pub open spec fn native_seek(pos: SeekFrom) -> Option<NativeCall> {
    if pos.is_position_query() {
        None
    } else {
        Some(NativeCall::Seek { offset: pos.offset() as i32, whence: pos.whence() })
    }
}

/// The next step of a transfer that begins with `first`, a read or a write of
/// `requested` bytes, on the handle at `handle`.
pub open spec fn transfer_step(
    handle: usize,
    first: NativeCall,
    requested: usize,
    replies: Replies,
) -> Step<usize> {
    match replies.count {
        None => Step::Call { handle, call: first },
        Some(moved) => if moved >= requested {
            Step::Done(Ok(moved))
        } else {
            match replies.indicator {
                None => Step::Call { handle, call: NativeCall::ErrorIndicator },
                Some(code) => Step::Done(transfer_outcome(requested, moved, code)),
            }
        },
    }
}

/// The step that ends a seek: the position query, then its answer.
pub open spec fn tell_step(handle: usize, replies: Replies) -> Step<u64> {
    match replies.position {
        None => Step::Call { handle, call: NativeCall::Tell },
        Some(raw) => Step::Done(Ok(position_value(raw))),
    }
}

/// The next step of a seek to `pos` on the handle at `handle`.
pub open spec fn seek_step(handle: usize, pos: SeekFrom, replies: Replies) -> Step<u64> {
    match native_seek(pos) {
        None => tell_step(handle, replies),
        Some(call) => match replies.status {
            None => Step::Call { handle, call },
            Some(status) => if status == 0 {
                tell_step(handle, replies)
            } else {
                match replies.indicator {
                    None => Step::Call { handle, call: NativeCall::ErrorIndicator },
                    Some(code) => Step::Done(Err(StreamError::Os(code))),
                }
            },
        },
    }
}

/// The next step of a flush on the handle at `handle`.
pub open spec fn flush_step(handle: usize, replies: Replies) -> Step<()> {
    match replies.status {
        None => Step::Call { handle, call: NativeCall::Flush },
        Some(status) => if status != EOF {
            Step::Done(Ok(()))
        } else {
            match replies.indicator {
                None => Step::Call { handle, call: NativeCall::ErrorIndicator },
                Some(code) => Step::Done(flush_outcome(status, code)),
            }
        },
    }
}

/// A native file handle that this value refers to and does not own.
///
/// The handle is never null. The adapter never closes or frees it: whoever
/// opened it keeps it open for as long as the adapter is in use, and closes
/// it afterwards. The adapter is a plain address and may move between threads;
/// it does nothing to keep two users of one handle apart.
#[derive(Clone, Copy, Debug, PartialEq, Eq)]
pub struct CFile {
    handle: usize,
}

impl CFile {
    #[verifier::type_invariant]
    spec fn non_null(self) -> bool {
        self.handle != 0
    }

    /// The address of the native handle.
    pub closed spec fn addr(self) -> usize {
        self.handle
    }

    /// Wraps the native handle at address `handle`.
    ///
    /// The address must not be null, and the handle must stay open for as
    /// long as the adapter is used. Only the first can be demanded here; the
    /// second is the caller's promise.
    pub fn new_unchecked(handle: usize) -> (file: CFile)
        requires
            handle != 0,
        ensures
            file.addr() == handle,
    {
        CFile { handle }
    }

    /// The address of the native handle, which is never null.
    pub fn handle(&self) -> (handle: usize)
        ensures
            handle == self.addr(),
            handle != 0,
    {
        proof {
            use_type_invariant(self);
        }
        self.handle
    }

    /// Reads up to `requested` bytes at the current position.
    ///
    /// Asks the native layer to fill the buffer. A full transfer is the
    /// result as it stands. After a short one the error indicator decides:
    /// clear, the short count is the result; set, the read fails with the
    /// indicator's value.
    pub fn read(&self, requested: usize, replies: &Replies) -> (step: Step<usize>)
        ensures
            step == transfer_step(
                self.addr(),
                NativeCall::Read { len: requested },
                requested,
                *replies,
            ),
    {
        self.transfer(NativeCall::Read { len: requested }, requested, replies)
    }

    /// Writes `requested` bytes at the current position.
    ///
    /// Asks the native layer to take the buffer, and tells a short transfer
    /// from a failure as [`CFile::read`] does.
    pub fn write(&self, requested: usize, replies: &Replies) -> (step: Step<usize>)
        ensures
            step == transfer_step(
                self.addr(),
                NativeCall::Write { len: requested },
                requested,
                *replies,
            ),
    {
        self.transfer(NativeCall::Write { len: requested }, requested, replies)
    }

    /// The step shared by reads and writes: a short transfer is looked up
    /// in the error indicator before it is believed.
    fn transfer(&self, first: NativeCall, requested: usize, replies: &Replies) -> (step: Step<
        usize,
    >)
        ensures
            step == transfer_step(self.addr(), first, requested, *replies),
    {
        match replies.count {
            None => Step::Call { handle: self.handle, call: first },
            Some(moved) => {
                if moved >= requested {
                    Step::Done(Ok(moved))
                } else {
                    match replies.indicator {
                        None => Step::Call {
                            handle: self.handle,
                            call: NativeCall::ErrorIndicator,
                        },
                        Some(code) => {
                            if code != 0 {
                                Step::Done(Err(StreamError::Os(code)))
                            } else {
                                Step::Done(Ok(moved))
                            }
                        },
                    }
                }
            },
        }
    }

    /// Moves the position and reports where the stream then stands.
    ///
    /// A displacement of zero from the current position moves nothing: the
    /// only native call is the position query. Every other request is handed
    /// to the native seek unchanged; if that succeeds the position is queried
    /// and returned, so the result is always the absolute position and never
    /// the displacement asked for. A failed native seek ends the operation
    /// with the error indicator's value.
    ///
    /// The displacement must be one that a native seek can carry.
    pub fn seek(&self, pos: SeekFrom, replies: &Replies) -> (step: Step<u64>)
        requires
            pos.in_native_range(),
        ensures
            step == seek_step(self.addr(), pos, *replies),
    {
        let (offset, whence): (i32, Whence) = match pos {
            SeekFrom::Start(n) => (n as i32, Whence::Start),
            SeekFrom::End(d) => (d as i32, Whence::End),
            SeekFrom::Current(d) => (d as i32, Whence::Current),
        };
        let query: bool = match pos {
            SeekFrom::Current(d) => d == 0,
            _ => false,
        };
        if !query {
            match replies.status {
                None => {
                    return Step::Call {
                        handle: self.handle,
                        call: NativeCall::Seek { offset, whence },
                    };
                },
                Some(status) => {
                    if status != 0 {
                        return match replies.indicator {
                            None => Step::Call {
                                handle: self.handle,
                                call: NativeCall::ErrorIndicator,
                            },
                            Some(code) => Step::Done(Err(StreamError::Os(code))),
                        };
                    }
                },
            }
        }
        match replies.position {
            None => Step::Call { handle: self.handle, call: NativeCall::Tell },
            Some(raw) => Step::Done(Ok(position_of(raw))),
        }
    }

    /// Hands buffered output to the native layer.
    ///
    /// When the native flush reports failure, the operation fails with the
    /// error indicator's value.
    pub fn flush(&self, replies: &Replies) -> (step: Step<()>)
        ensures
            step == flush_step(self.addr(), *replies),
    {
        match replies.status {
            None => Step::Call { handle: self.handle, call: NativeCall::Flush },
            Some(status) => {
                if status != EOF {
                    Step::Done(Ok(()))
                } else {
                    match replies.indicator {
                        None => Step::Call {
                            handle: self.handle,
                            call: NativeCall::ErrorIndicator,
                        },
                        Some(code) => Step::Done(Err(StreamError::Os(code))),
                    }
                }
            },
        }
    }
}

/// Reads the reply of a native position query as an unsigned position.
pub fn position_of(raw: i64) -> (position: u64)
    ensures
        position == position_value(raw),
{
    if raw >= 0 {
        raw as u64
    } else {
        u64::MAX - ((-(raw + 1)) as u64)
    }
}

} // verus!
