//! Statuses of message iterators, upstream and user-implemented.

use vstd::prelude::*;
use crate::error::{BtResult, Error};
use crate::status::{STATUS_AGAIN, STATUS_END, STATUS_ERROR, STATUS_OK};

verus! {

/// What asking an upstream iterator for a batch gave.
#[derive(Clone, Copy, PartialEq, Eq, Structural, PartialOrd, Ord, Hash, Debug)]
pub enum NextStatus {
    /// A batch of messages is ready.
    Ready,
    /// The iterator is finished.
    End,
    /// No message now; try again later.
    TryAgain,
}

impl NextStatus {
    pub open spec fn spec_from_code(code: i32) -> BtResult<NextStatus> {
        if code == STATUS_OK {
            Ok(NextStatus::Ready)
        } else if code == STATUS_END {
            Ok(NextStatus::End)
        } else if code == STATUS_AGAIN {
            Ok(NextStatus::TryAgain)
        } else {
            Err(Error::Failure(code as isize))
        }
    }

    /// The meaning of the engine's status for a request for the next batch.
    pub fn from_code(code: i32) -> (r: BtResult<NextStatus>)
        ensures
            r == Self::spec_from_code(code),
    {
        if code == STATUS_OK {
            Ok(NextStatus::Ready)
        } else if code == STATUS_END {
            Ok(NextStatus::End)
        } else if code == STATUS_AGAIN {
            Ok(NextStatus::TryAgain)
        } else {
            Err(Error::Failure(code as isize))
        }
    }
}

/// What a user-implemented source iterator reports for one request.
#[derive(Clone, Copy, PartialEq, Eq, Structural, PartialOrd, Ord, Hash, Debug)]
pub enum MessageIteratorStatus {
    NoMessages,
    /// This many messages were written.
    Messages(u64),
    Done,
}

/// The engine status (and message count) that answers the engine's request
/// for a user source iterator's next messages.
pub open spec fn spec_next_method_outcome(r: BtResult<MessageIteratorStatus>) -> (i32, Option<u64>) {
    match r {
        Err(_) => (STATUS_ERROR, None),
        Ok(MessageIteratorStatus::NoMessages) => (STATUS_AGAIN, None),
        Ok(MessageIteratorStatus::Messages(n)) => (STATUS_OK, Some(n)),
        Ok(MessageIteratorStatus::Done) => (STATUS_END, None),
    }
}

pub fn next_method_outcome(r: &BtResult<MessageIteratorStatus>) -> (o: (i32, Option<u64>))
    ensures
        o == spec_next_method_outcome(*r),
{
    match r {
        Err(_) => (STATUS_ERROR, None),
        Ok(MessageIteratorStatus::NoMessages) => (STATUS_AGAIN, None),
        Ok(MessageIteratorStatus::Messages(n)) => (STATUS_OK, Some(*n)),
        Ok(MessageIteratorStatus::Done) => (STATUS_END, None),
    }
}

/// The status of a user source's initialize callback: the user's own
/// initialization must succeed, and then adding the output port (attempted
/// only after it, so absent when it failed).
pub open spec fn spec_source_initialize_status(
    handler: BtResult<()>,
    port_added: Option<BtResult<()>>,
) -> i32 {
    if handler.is_err() {
        STATUS_ERROR
    } else {
        match port_added {
            Some(Ok(())) => STATUS_OK,
            _ => STATUS_ERROR,
        }
    }
}

pub fn source_initialize_status(handler: &BtResult<()>, port_added: &Option<BtResult<()>>) -> (r: i32)
    ensures
        r == spec_source_initialize_status(*handler, *port_added),
{
    if handler.is_err() {
        STATUS_ERROR
    } else {
        match port_added {
            Some(Ok(())) => STATUS_OK,
            _ => STATUS_ERROR,
        }
    }
}

} // verus!
