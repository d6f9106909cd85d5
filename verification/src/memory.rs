//! Cursors over a borrowed byte slice: a position that reads, writes and
//! seeks move, and nothing else.
//!
//! The position is free to stand beyond the end of the slice. From there a
//! read or a write transfers nothing.

use vstd::prelude::*;
use crate::error::StreamError;
use crate::seek::SeekFrom;

verus! {

/// What a cursor is, to its user: the bytes of the slice and a position.
pub struct CursorState {
    /// The bytes of the slice.
    pub bytes: Seq<u8>,
    /// The position, in bytes from the start of the slice.
    pub pos: nat,
}

impl CursorState {
    /// The index at which a transfer begins: the position, or the end of the
    /// slice if the position lies beyond it.
    pub open spec fn start(self) -> int {
        if self.pos <= self.bytes.len() {
            self.pos as int
        } else {
            self.bytes.len() as int
        }
    }

    /// The count of bytes that a transfer of `want` bytes moves: all of
    /// them, or as many as lie between the position and the end of the slice.
    pub open spec fn transfer_len(self, want: nat) -> int {
        let room = self.bytes.len() - self.start();
        if want <= room {
            want as int
        } else {
            room
        }
    }

    /// The bytes that a read of `want` bytes yields.
    pub open spec fn bytes_read(self, want: nat) -> Seq<u8> {
        self.bytes.subrange(self.start(), self.start() + self.transfer_len(want))
    }

    /// The cursor after a read of `want` bytes: the same bytes, the position
    /// advanced by the count read.
    pub open spec fn after_read(self, want: nat) -> CursorState {
        CursorState { bytes: self.bytes, pos: (self.pos + self.transfer_len(want)) as nat }
    }

    /// The cursor after a write of `given`: the part of `given` that fits
    /// replaces what stood at the position, the rest of the slice stays, and
    /// the position has advanced by the count written.
    pub open spec fn after_write(self, given: Seq<u8>) -> CursorState {
        let n = self.transfer_len(given.len());
        CursorState {
            bytes: self.bytes.subrange(0, self.start()) + given.subrange(0, n)
                + self.bytes.subrange(self.start() + n, self.bytes.len() as int),
            pos: (self.pos + n) as nat,
        }
    }

    /// Where a seek request points, before any bound is applied.
    pub open spec fn seek_target(self, to: SeekFrom) -> int {
        match to {
            SeekFrom::Start(n) => n as int,
            SeekFrom::End(d) => self.bytes.len() + d,
            SeekFrom::Current(d) => self.pos + d,
        }
    }

    /// Whether a seek request can be met: its target is a position, neither
    /// negative nor beyond the largest one.
    pub open spec fn can_seek(self, to: SeekFrom) -> bool {
        0 <= self.seek_target(to) <= u64::MAX
    }

    /// What a seek returns: the new position, or the refusal of a target that
    /// is no position.
    pub open spec fn seek_result(self, to: SeekFrom) -> Result<u64, StreamError> {
        if self.can_seek(to) {
            Ok(self.seek_target(to) as u64)
        } else {
            Err(StreamError::InvalidSeek)
        }
    }

    /// The cursor after a seek: at the target, or where it was if the seek
    /// was refused.
    pub open spec fn after_seek(self, to: SeekFrom) -> CursorState {
        if self.can_seek(to) {
            CursorState { bytes: self.bytes, pos: self.seek_target(to) as nat }
        } else {
            self
        }
    }
}

/// Computes `base + delta` where that is a position.
fn displaced(base: u64, delta: i64) -> (target: Option<u64>)
    ensures
        target == if 0 <= base + delta <= u64::MAX {
            Some((base + delta) as u64)
        } else {
            None
        },
{
    if delta >= 0 {
        let up: u64 = delta as u64;
        if up <= u64::MAX - base {
            Some(base + up)
        } else {
            None
        }
    } else {
        let down: u64 = (-(delta + 1)) as u64 + 1;
        if down <= base {
            Some(base - down)
        } else {
            None
        }
    }
}

/// The seek shared by both cursors, on a slice of `len` bytes with the
/// position at `pos`: the target where it is a position.
fn seek_position(len: usize, pos: u64, to: SeekFrom) -> (target: Option<u64>)
    ensures
        ({
            let at = match to {
                SeekFrom::Start(n) => n as int,
                SeekFrom::End(d) => len + d,
                SeekFrom::Current(d) => pos + d,
            };
            target == if 0 <= at <= u64::MAX {
                Some(at as u64)
            } else {
                None
            }
        }),
{
    match to {
        SeekFrom::Start(n) => Some(n),
        SeekFrom::End(d) => displaced(len as u64, d),
        SeekFrom::Current(d) => displaced(pos, d),
    }
}

/// A reading position in a borrowed byte slice.
pub struct Cursor<'a> {
    /// The bytes that the cursor reads.
    pub data: &'a [u8],
    /// The position of the next read, in bytes from the start.
    pub pos: u64,
}

/// A writing position in a borrowed byte slice.
pub struct CursorMut<'a> {
    /// The bytes that the cursor overwrites.
    pub data: &'a mut [u8],
    /// The position of the next write, in bytes from the start.
    pub pos: u64,
}

impl<'a> View for Cursor<'a> {
    type V = CursorState;

    open spec fn view(&self) -> CursorState {
        CursorState { bytes: self.data@, pos: self.pos as nat }
    }
}

impl<'a> View for CursorMut<'a> {
    type V = CursorState;

    open spec fn view(&self) -> CursorState {
        CursorState { bytes: self.data@, pos: self.pos as nat }
    }
}

impl<'a> Cursor<'a> {
    /// A cursor at the start of `data`.
    pub fn new(data: &'a [u8]) -> (cursor: Cursor<'a>)
        ensures
            cursor@ == (CursorState { bytes: data@, pos: 0 }),
    {
        Cursor { data, pos: 0 }
    }

    /// The current position.
    pub fn position(&self) -> (pos: u64)
        ensures
            pos == self@.pos,
    {
        self.pos
    }

    /// Reads into `buf` from the current position and advances by the count
    /// read, which is the length of `buf` or, near the end, what is left.
    /// The rest of `buf` keeps what it held. A read never fails.
    pub fn read(&mut self, buf: &mut [u8]) -> (n: usize)
        ensures
            n == old(self)@.transfer_len(old(buf)@.len()),
            final(buf)@ == old(self)@.bytes_read(old(buf)@.len()) + old(buf)@.subrange(
                n as int,
                old(buf)@.len() as int,
            ),
            final(self)@ == old(self)@.after_read(old(buf)@.len()),
    {
        let len: usize = self.data.len();
        let start: usize = if self.pos <= len as u64 {
            self.pos as usize
        } else {
            len
        };
        let room: usize = len - start;
        let n: usize = if buf.len() <= room {
            buf.len()
        } else {
            room
        };
        let mut i: usize = 0;
        while i < n
            invariant
                i <= n,
                n <= buf@.len(),
                start + n <= len,
                len == self.data@.len(),
                buf@.len() == old(buf)@.len(),
                self.data@ == old(self).data@,
                self.pos == old(self).pos,
                forall|j: int| 0 <= j < i ==> buf@[j] == self.data@[start + j],
                forall|j: int| i <= j < buf@.len() ==> buf@[j] == old(buf)@[j],
            decreases n - i,
        {
            buf[i] = self.data[start + i];
            i = i + 1;
        }
        self.pos = self.pos + n as u64;
        assert(buf@ =~= old(self)@.bytes_read(old(buf)@.len()) + old(buf)@.subrange(
            n as int,
            old(buf)@.len() as int,
        ));
        n
    }

    /// Moves the position. Any position can be reached, also one beyond the
    /// end of the slice; a target before the start, or beyond the largest
    /// position, is refused and leaves the cursor where it was.
    pub fn seek(&mut self, to: SeekFrom) -> (result: Result<u64, StreamError>)
        ensures
            result == old(self)@.seek_result(to),
            final(self)@ == old(self)@.after_seek(to),
    {
        match seek_position(self.data.len(), self.pos, to) {
            Some(target) => {
                self.pos = target;
                Ok(target)
            },
            None => Err(StreamError::InvalidSeek),
        }
    }
}

impl<'a> CursorMut<'a> {
    /// A cursor at the start of `data`.
    ///
    /// The cursor holds the caller's borrow, which is what the last clause
    /// says: the bytes that the slice holds when the cursor lets go of it
    /// are the bytes that its owner finds.
    pub fn new(data: &'a mut [u8]) -> (cursor: CursorMut<'a>)
        ensures
            cursor@ == (CursorState { bytes: old(data)@, pos: 0 }),
            final(cursor.data)@ == final(data)@,
    {
        CursorMut { data, pos: 0 }
    }

    /// The current position.
    pub fn position(&self) -> (pos: u64)
        ensures
            pos == self@.pos,
    {
        self.pos
    }

    /// Writes `buf` at the current position and advances by the count
    /// written, which is the length of `buf` or, near the end, the room that
    /// is left. The slice never grows, and a write never fails.
    ///
    /// The borrow that the cursor holds stays the one it was, which is what
    /// the last clause says; the same clause stands on every operation.
    pub fn write(&mut self, buf: &[u8]) -> (n: usize)
        ensures
            n == old(self)@.transfer_len(buf@.len()),
            final(self)@ == old(self)@.after_write(buf@),
            final(final(self).data)@ == final(old(self).data)@,
    {
        let len: usize = self.data.len();
        let start: usize = if self.pos <= len as u64 {
            self.pos as usize
        } else {
            len
        };
        let room: usize = len - start;
        let n: usize = if buf.len() <= room {
            buf.len()
        } else {
            room
        };
        let mut i: usize = 0;
        while i < n
            invariant
                i <= n,
                n <= buf@.len(),
                start + n <= len,
                len == self.data@.len(),
                self.data@.len() == old(self).data@.len(),
                self.pos == old(self).pos,
                final(self.data)@ == final(old(self).data)@,
                forall|j: int| 0 <= j < i ==> self.data@[start + j] == buf@[j],
                forall|j: int|
                    0 <= j < self.data@.len() && !(start <= j < start + i) ==> self.data@[j] == old(
                        self,
                    ).data@[j],
            decreases n - i,
        {
            self.data[start + i] = buf[i];
            i = i + 1;
        }
        self.pos = self.pos + n as u64;
        assert(self.data@ =~= old(self)@.after_write(buf@).bytes);
        n
    }

    /// Moves the position, as [`Cursor::seek`] does.
    pub fn seek(&mut self, to: SeekFrom) -> (result: Result<u64, StreamError>)
        ensures
            result == old(self)@.seek_result(to),
            final(self)@ == old(self)@.after_seek(to),
            final(final(self).data)@ == final(old(self).data)@,
    {
        match seek_position(self.data.len(), self.pos, to) {
            Some(target) => {
                self.pos = target;
                Ok(target)
            },
            None => Err(StreamError::InvalidSeek),
        }
    }

    /// Does nothing: a slice holds no output back.
    pub fn flush(&mut self)
        ensures
            final(self)@ == old(self)@,
            final(final(self).data)@ == final(old(self).data)@,
    {
    }
}

} // verus!
