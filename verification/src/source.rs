//! The readable stream: bytes come from a borrowed slice or from a native
//! handle, and the reader need not know which.

use vstd::prelude::*;
use crate::file::{seek_step, transfer_step, CFile};
use crate::memory::Cursor;
use crate::native::{NativeCall, Replies, Step};
use crate::seek::SeekFrom;

verus! {

/// A source of bytes that can be read and repositioned.
///
/// The shape is chosen once, when the value is made. The memory-backed
/// shape answers every operation at once and never asks for a native call;
/// the handle-backed shape does what its [`CFile`] does.
pub enum CSource<'a> {
    /// Reads from a borrowed byte slice.
    Memory(Cursor<'a>),
    /// Reads from a native file handle.
    File(CFile),
}

impl<'a> CSource<'a> {
    /// The next step of a read into `buf`.
    ///
    /// Memory-backed, the read is done on the spot: `buf` holds the bytes
    /// from the current position, as many as fit in `buf` and are left in
    /// the slice, and the position has advanced by their count. This cannot
    /// fail.
    ///
    /// Handle-backed, nothing is touched here: the step is the one that
    /// [`CFile::read`] takes for a request of the length of `buf`.
    pub fn read(&mut self, buf: &mut [u8], replies: &Replies) -> (step: Step<usize>)
        ensures
            match *old(self) {
                CSource::Memory(before) => {
                    let n = before@.transfer_len(old(buf)@.len());
                    &&& step == Step::<usize>::Done(Ok(n as usize))
                    &&& final(buf)@ == before@.bytes_read(old(buf)@.len()) + old(buf)@.subrange(
                        n,
                        old(buf)@.len() as int,
                    )
                    &&& *final(self) matches CSource::Memory(after)
                    &&& after@ == before@.after_read(old(buf)@.len())
                },
                CSource::File(file) => {
                    &&& step == transfer_step(
                        file.addr(),
                        NativeCall::Read { len: old(buf)@.len() as usize },
                        old(buf)@.len() as usize,
                        *replies,
                    )
                    &&& final(buf)@ == old(buf)@
                    &&& *final(self) == *old(self)
                },
            },
    {
        match self {
            CSource::Memory(cursor) => {
                let n = cursor.read(buf);
                Step::Done(Ok(n))
            },
            CSource::File(file) => file.read(buf.len(), replies),
        }
    }

    /// The next step of a seek to `pos`.
    ///
    /// Memory-backed, the seek is done on the spot: the result is the new
    /// position, or a refusal that leaves the position where it was.
    ///
    /// Handle-backed, the step is the one that [`CFile::seek`] takes, and the
    /// displacement must be one that a native seek can carry.
    pub fn seek(&mut self, pos: SeekFrom, replies: &Replies) -> (step: Step<u64>)
        requires
            *old(self) is File ==> pos.in_native_range(),
        ensures
            match *old(self) {
                CSource::Memory(before) => {
                    &&& step == Step::Done(before@.seek_result(pos))
                    &&& *final(self) matches CSource::Memory(after)
                    &&& after@ == before@.after_seek(pos)
                },
                CSource::File(file) => {
                    &&& step == seek_step(file.addr(), pos, *replies)
                    &&& *final(self) == *old(self)
                },
            },
    {
        match self {
            CSource::Memory(cursor) => Step::Done(cursor.seek(pos)),
            CSource::File(file) => file.seek(pos, replies),
        }
    }
}

} // verus!
