//! What holds of the streams whatever the buffer holds and whatever the
//! native layer answers.

use vstd::prelude::*;
use crate::error::StreamError;
use crate::file::{
    flush_outcome, flush_step, native_seek, position_value, seek_outcome, seek_step,
    transfer_outcome, transfer_step,
};
use crate::memory::CursorState;
use crate::native::{run, NativeCall, NativeReply, Replies, Script, Step};
use crate::seek::{SeekFrom, OFFSET_LIMIT};

verus! {

/// A seek of a memory-backed stream that lands inside the slice, from
/// whichever origin, succeeds with the position it lands on; a read of `want`
/// bytes from there yields exactly the bytes of the slice that start there,
/// `want` of them or, near the end, those that are left, and stops behind
/// the last of them.
pub proof fn read_after_seek_yields_the_bytes_there(cursor: CursorState, to: SeekFrom, want: nat)
    requires
        cursor.bytes.len() <= usize::MAX,
        0 <= cursor.seek_target(to) <= cursor.bytes.len(),
    ensures
        ({
            let at = cursor.seek_target(to);
            let left = cursor.bytes.len() - at;
            let n = if want <= left {
                want as int
            } else {
                left
            };
            let there = cursor.after_seek(to);
            &&& cursor.seek_result(to) == Ok::<u64, StreamError>(at as u64)
            &&& there == (CursorState { bytes: cursor.bytes, pos: at as nat })
            &&& there.transfer_len(want) == n
            &&& there.bytes_read(want) == cursor.bytes.subrange(at, at + n)
            &&& there.after_read(want) == (CursorState { bytes: cursor.bytes, pos: (at + n) as nat })
        }),
{
}

/// A read or a write on a memory-backed stream never moves more than was
/// asked for, nor beyond the end of the slice; asked for more than lies
/// between the position and the end, it moves what lies there. Neither
/// changes the length of the slice.
pub proof fn memory_transfer_is_short_at_the_end(cursor: CursorState, want: nat, given: Seq<u8>)
    ensures
        0 <= cursor.transfer_len(want) <= want,
        cursor.start() + cursor.transfer_len(want) <= cursor.bytes.len(),
        want > cursor.bytes.len() - cursor.start() ==> cursor.transfer_len(want)
            == cursor.bytes.len() - cursor.start(),
        cursor.bytes_read(want).len() == cursor.transfer_len(want),
        cursor.after_write(given).bytes.len() == cursor.bytes.len(),
{
}

/// Bytes written to a memory-backed stream at a position are the bytes that
/// a read over the same slice at the same position finds: all of them where
/// they fit in the slice, else the part that fitted. The read stops where
/// the write stopped.
pub proof fn write_then_read_round_trips(cursor: CursorState, given: Seq<u8>)
    ensures
        ({
            let n = cursor.transfer_len(given.len());
            let written = cursor.after_write(given);
            let reader = CursorState { bytes: written.bytes, pos: cursor.pos };
            &&& reader.transfer_len(given.len()) == n
            &&& reader.bytes_read(given.len()) == given.subrange(0, n)
            &&& reader.after_read(given.len()) == written
            &&& cursor.pos + given.len() <= cursor.bytes.len() ==> n == given.len()
                && reader.bytes_read(given.len()) == given
        }),
{
    let n = cursor.transfer_len(given.len());
    let written = cursor.after_write(given);
    let reader = CursorState { bytes: written.bytes, pos: cursor.pos };
    assert(reader.bytes_read(given.len()) =~= given.subrange(0, n));
    if cursor.pos + given.len() <= cursor.bytes.len() {
        assert(given.subrange(0, n) =~= given);
    }
}

/// A seek by zero from the current position moves nothing. On a handle the
/// only native call it ever asks for is the position query, and its result
/// is the position that the query reported. On a slice it succeeds with the
/// position the cursor has, and leaves it there.
pub proof fn position_query_moves_nothing(handle: usize, replies: Replies, cursor: CursorState)
    requires
        cursor.pos <= u64::MAX,
    ensures
        native_seek(SeekFrom::Current(0)) is None,
        match seek_step(handle, SeekFrom::Current(0), replies) {
            Step::Call { handle: on, call } => on == handle && call == NativeCall::Tell
                && replies.position is None,
            Step::Done(result) => replies.position is Some && result == Ok::<u64, StreamError>(
                position_value(replies.position->0),
            ),
        },
        cursor.seek_result(SeekFrom::Current(0)) == Ok::<u64, StreamError>(cursor.pos as u64),
        cursor.after_seek(SeekFrom::Current(0)) == cursor,
{
}

/// After a short transfer on a handle the error indicator is asked, and it
/// alone decides: clear, the short count is returned; set, the operation
/// fails with the indicator's value. A full transfer is returned without a
/// look at the indicator.
pub proof fn short_transfer_is_judged_by_the_indicator(
    handle: usize,
    first: NativeCall,
    requested: usize,
    moved: usize,
    indicator: i32,
)
    ensures
        ({
            let after_transfer = Replies::none().with(NativeReply::Count(moved));
            let after_query = after_transfer.with(NativeReply::Indicator(indicator));
            &&& transfer_step(handle, first, requested, Replies::none()) == Step::<usize>::Call {
                handle,
                call: first,
            }
            &&& moved >= requested ==> transfer_step(handle, first, requested, after_transfer)
                == Step::<usize>::Done(Ok(moved))
            &&& moved < requested ==> transfer_step(handle, first, requested, after_transfer)
                == Step::<usize>::Call { handle, call: NativeCall::ErrorIndicator }
            &&& moved < requested && indicator == 0 ==> transfer_step(
                handle,
                first,
                requested,
                after_query,
            ) == Step::<usize>::Done(Ok(moved))
            &&& moved < requested && indicator != 0 ==> transfer_step(
                handle,
                first,
                requested,
                after_query,
            ) == Step::<usize>::Done(Err(StreamError::Os(indicator)))
        }),
{
}

/// A handle-backed stream accepts a seek exactly when the magnitude of its
/// displacement lies below the limit of a native seek, and then the native
/// seek carries the displacement and the origin as they were asked for:
/// nothing is cut to fit.
pub proof fn native_seek_carries_the_request(pos: SeekFrom)
    ensures
        pos.in_native_range() <==> -OFFSET_LIMIT < pos.offset() < OFFSET_LIMIT,
        pos.in_native_range() && !pos.is_position_query() ==> (native_seek(pos) matches Some(
            NativeCall::Seek { offset, whence },
        ) && offset == pos.offset() && whence == pos.whence()),
{
}

/// No operation on a handle asks for a call whose reply it holds, and the
/// reply to a call, once recorded, is held. So an operation that is given
/// the reply to each call it asks for comes to an end.
pub proof fn no_call_is_asked_twice(
    handle: usize,
    first: NativeCall,
    requested: usize,
    pos: SeekFrom,
    replies: Replies,
    script: Script,
)
    requires
        first.is_transfer(),
    ensures
        transfer_step(handle, first, requested, replies) matches Step::Call { call, .. }
            ==> !replies.answers(call),
        seek_step(handle, pos, replies) matches Step::Call { call, .. } ==> !replies.answers(call),
        flush_step(handle, replies) matches Step::Call { call, .. } ==> !replies.answers(call),
        forall|call: NativeCall| #[trigger] replies.with(call.reply(script)).answers(call),
{
}

/// A read or a write on a handle ends after at most two native calls,
/// whatever the native layer answers, and returns what the count and the
/// indicator say together.
pub proof fn transfer_runs_to_its_outcome(
    handle: usize,
    first: NativeCall,
    requested: usize,
    script: Script,
)
    requires
        first.is_transfer(),
    ensures
        run(
            |replies: Replies| transfer_step(handle, first, requested, replies),
            script,
            Replies::none(),
            2,
        ) == Some(transfer_outcome(requested, script.count, script.indicator)),
{
    reveal_with_fuel(run, 3);
}

/// A seek on a handle ends after at most three native calls, whatever the
/// native layer answers. It fails with the indicator's value if the native
/// seek failed, and returns the queried position otherwise.
pub proof fn seek_runs_to_its_outcome(handle: usize, pos: SeekFrom, script: Script)
    ensures
        run(|replies: Replies| seek_step(handle, pos, replies), script, Replies::none(), 3)
            == Some(seek_outcome(pos, script.status, script.indicator, script.position)),
{
    reveal_with_fuel(run, 4);
}

/// A flush on a handle ends after at most two native calls, whatever the
/// native layer answers. It fails with the indicator's value if the native
/// flush failed, and succeeds otherwise.
pub proof fn flush_runs_to_its_outcome(handle: usize, script: Script)
    ensures
        run(|replies: Replies| flush_step(handle, replies), script, Replies::none(), 2) == Some(
            flush_outcome(script.status, script.indicator),
        ),
{
    reveal_with_fuel(run, 3);
}

} // verus!
