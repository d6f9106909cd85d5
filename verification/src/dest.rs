//! The writable stream: bytes go to a borrowed slice or to a native handle,
//! and the writer need not know which.

use vstd::prelude::*;
use crate::file::{flush_step, seek_step, transfer_step, CFile};
use crate::memory::CursorMut;
use crate::native::{NativeCall, Replies, Step};
use crate::seek::SeekFrom;

verus! {

/// A destination for bytes that can be written, repositioned and flushed.
///
/// The shape is chosen once, when the value is made. The memory-backed
/// shape answers every operation at once and never asks for a native call;
/// the handle-backed shape does what its [`CFile`] does.
pub enum CDest<'a> {
    /// Writes into a borrowed byte slice.
    Memory(CursorMut<'a>),
    /// Writes to a native file handle.
    File(CFile),
}

impl<'a> CDest<'a> {
    /// The next step of a write of `buf`.
    ///
    /// Memory-backed, the write is done on the spot: the slice holds, from
    /// the current position on, as much of `buf` as there was room for, and
    /// the position has advanced by that count. This cannot fail.
    ///
    /// Handle-backed, nothing is touched here: the step is the one that
    /// [`CFile::write`] takes for a request of the length of `buf`.
    pub fn write(&mut self, buf: &[u8], replies: &Replies) -> (step: Step<usize>)
        ensures
            match *old(self) {
                CDest::Memory(before) => {
                    let n = before@.transfer_len(buf@.len());
                    &&& step == Step::<usize>::Done(Ok(n as usize))
                    &&& *final(self) matches CDest::Memory(after)
                    &&& after@ == before@.after_write(buf@)
                    &&& final(after.data)@ == final(before.data)@
                },
                CDest::File(file) => {
                    &&& step == transfer_step(
                        file.addr(),
                        NativeCall::Write { len: buf@.len() as usize },
                        buf@.len() as usize,
                        *replies,
                    )
                    &&& *final(self) == *old(self)
                },
            },
    {
        match self {
            CDest::Memory(cursor) => {
                let n = cursor.write(buf);
                Step::Done(Ok(n))
            },
            CDest::File(file) => file.write(buf.len(), replies),
        }
    }

    /// The next step of a flush.
    ///
    /// Memory-backed there is nothing to flush, and the flush succeeds at
    /// once. Handle-backed, the step is the one that [`CFile::flush`] takes.
    pub fn flush(&mut self, replies: &Replies) -> (step: Step<()>)
        ensures
            match *old(self) {
                CDest::Memory(before) => {
                    &&& step == Step::<()>::Done(Ok(()))
                    &&& *final(self) matches CDest::Memory(after)
                    &&& after@ == before@
                    &&& final(after.data)@ == final(before.data)@
                },
                CDest::File(file) => {
                    &&& step == flush_step(file.addr(), *replies)
                    &&& *final(self) == *old(self)
                },
            },
    {
        match self {
            CDest::Memory(cursor) => {
                cursor.flush();
                Step::Done(Ok(()))
            },
            CDest::File(file) => file.flush(replies),
        }
    }

    /// The next step of a seek to `pos`.
    ///
    /// Memory-backed, the seek is done on the spot: the result is the new
    /// position, or a refusal that leaves the position where it was.
    ///
    /// Handle-backed, the step is the one that [`CFile::seek`] takes, and the
    /// displacement must be one that a native seek can carry.
    pub fn seek(&mut self, pos: SeekFrom, replies: &Replies) -> (step: Step<u64>)
        requires
            *old(self) is File ==> pos.in_native_range(),
        ensures
            match *old(self) {
                CDest::Memory(before) => {
                    &&& step == Step::Done(before@.seek_result(pos))
                    &&& *final(self) matches CDest::Memory(after)
                    &&& after@ == before@.after_seek(pos)
                    &&& final(after.data)@ == final(before.data)@
                },
                CDest::File(file) => {
                    &&& step == seek_step(file.addr(), pos, *replies)
                    &&& *final(self) == *old(self)
                },
            },
    {
        match self {
            CDest::Memory(cursor) => Step::Done(cursor.seek(pos)),
            CDest::File(file) => file.seek(pos, replies),
        }
    }
}

} // verus!
