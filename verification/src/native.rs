//! The conversation with the native layer: the calls an operation may ask
//! for, the replies it gets, and the step it takes next.

use vstd::prelude::*;
use crate::error::StreamError;
use crate::seek::Whence;

verus! {

/// The status with which the native flush reports failure.
pub const EOF: i32 = -1;

/// One call of the C stdio layer on a handle.
///
/// There is no call that opens, closes or frees a handle: a stream never
/// asks for one.
#[derive(Clone, Copy, Debug, PartialEq, Eq)]
pub enum NativeCall {
    /// `fread` of `len` single bytes into the caller's buffer; replies with
    /// the count of bytes read.
    Read { len: usize },
    /// `fwrite` of `len` single bytes from the caller's buffer; replies with
    /// the count of bytes written.
    Write { len: usize },
    /// `fseek` by `offset` from `whence`; replies with a status, zero on success.
    Seek { offset: i32, whence: Whence },
    /// `ftell`; replies with the absolute position.
    Tell,
    /// `fflush`; replies with a status, [`EOF`] on failure.
    Flush,
    /// `ferror`; replies with the handle's error indicator, zero when clear.
    ErrorIndicator,
}

/// What the native layer answered to one call.
#[derive(Clone, Copy, Debug, PartialEq, Eq)]
pub enum NativeReply {
    /// The count that a read or write transferred.
    Count(usize),
    /// The status of a seek or a flush.
    Status(i32),
    /// The value of the error indicator.
    Indicator(i32),
    /// The position that a position query reported.
    Position(i64),
}

/// The replies that one operation has gathered so far. A fresh operation
/// starts from [`Replies::new`]; each native call adds its reply.
#[derive(Clone, Copy, Debug, PartialEq, Eq)]
pub struct Replies {
    /// The count transferred, once a read or write has been made.
    pub count: Option<usize>,
    /// The status, once a seek or flush has been made.
    pub status: Option<i32>,
    /// The error indicator, once it has been queried.
    pub indicator: Option<i32>,
    /// The position, once it has been queried.
    pub position: Option<i64>,
}

/// What an operation on a stream does next.
#[derive(Debug, PartialEq, Eq)]
pub enum Step<T> {
    /// Perform `call` on the native handle at address `handle`, record the
    /// reply, and ask again.
    Call { handle: usize, call: NativeCall },
    /// The operation is over, with this result.
    Done(Result<T, StreamError>),
}

/// What the native layer answers during one operation, whichever calls the
/// operation turns out to make. An operation makes each sort of call at most
/// once, so one answer of each sort describes the native layer in full.
pub struct Script {
    /// The count that the read or write transfers.
    pub count: usize,
    /// The status that the seek or flush reports.
    pub status: i32,
    /// The value that the error indicator has when it is queried.
    pub indicator: i32,
    /// The position that the position query reports.
    pub position: i64,
}

impl NativeCall {
    /// The reply that a native layer described by `script` makes to this call.
    pub open spec fn reply(self, script: Script) -> NativeReply {
        match self {
            NativeCall::Read { .. } | NativeCall::Write { .. } => NativeReply::Count(script.count),
            NativeCall::Seek { .. } | NativeCall::Flush => NativeReply::Status(script.status),
            NativeCall::ErrorIndicator => NativeReply::Indicator(script.indicator),
            NativeCall::Tell => NativeReply::Position(script.position),
        }
    }

    /// Whether this call transfers bytes: a read or a write.
    pub open spec fn is_transfer(self) -> bool {
        self is Read || self is Write
    }
}

/// The result of an operation that is carried out against a native layer
/// described by `script`: from `replies`, take the step that `next` gives; if
/// it is a call, record the native layer's reply and go on. `None` if more
/// than `calls` native calls would be needed.
pub open spec fn run<T>(
    next: spec_fn(Replies) -> Step<T>,
    script: Script,
    replies: Replies,
    calls: nat,
) -> Option<Result<T, StreamError>>
    decreases calls,
{
    match next(replies) {
        Step::Done(result) => Some(result),
        Step::Call { call, .. } => if calls == 0 {
            None
        } else {
            run(next, script, replies.with(call.reply(script)), (calls - 1) as nat)
        },
    }
}

impl Replies {
    /// The state of an operation before any native call.
    pub open spec fn none() -> Replies {
        Replies { count: None, status: None, indicator: None, position: None }
    }

    /// Whether the reply to `call` has been recorded.
    pub open spec fn answers(self, call: NativeCall) -> bool {
        match call {
            NativeCall::Read { .. } | NativeCall::Write { .. } => self.count is Some,
            NativeCall::Seek { .. } | NativeCall::Flush => self.status is Some,
            NativeCall::ErrorIndicator => self.indicator is Some,
            NativeCall::Tell => self.position is Some,
        }
    }

    /// These replies with `reply` added.
    pub open spec fn with(self, reply: NativeReply) -> Replies {
        match reply {
            NativeReply::Count(n) => Replies { count: Some(n), ..self },
            NativeReply::Status(s) => Replies { status: Some(s), ..self },
            NativeReply::Indicator(c) => Replies { indicator: Some(c), ..self },
            NativeReply::Position(p) => Replies { position: Some(p), ..self },
        }
    }

    /// No replies: the state in which every operation starts.
    pub fn new() -> (replies: Replies)
        ensures
            replies == Replies::none(),
    {
        Replies { count: None, status: None, indicator: None, position: None }
    }

    /// Adds a reply of the native layer to what the operation knows. A later
    /// reply of the same sort replaces an earlier one.
    pub fn record(&mut self, reply: NativeReply)
        ensures
            *final(self) == old(self).with(reply),
    {
        match reply {
            NativeReply::Count(n) => {
                self.count = Some(n);
            },
            NativeReply::Status(s) => {
                self.status = Some(s);
            },
            NativeReply::Indicator(c) => {
                self.indicator = Some(c);
            },
            NativeReply::Position(p) => {
                self.position = Some(p);
            },
        }
    }
}

} // verus!
