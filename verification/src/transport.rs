//! What a network exchange hands back to the client, as plain values.
//!
//! The client never talks to the network itself. Whoever does reports what
//! happened with one of these values, and the client decides what it means.

use crate::response::ChatMessageResponse;
use vstd::prelude::*;

verus! {

/// What came of one single-shot exchange with the service.
#[derive(Debug, PartialEq, Eq)]
pub enum ChatExchange {
    /// The request could not be sent; holds a description of the failure.
    SendFailed(String),
    /// The service answered with a non-success status. Holds the text of its
    /// answer, or, where that could not be read, a description of why.
    Refused(Result<String, String>),
    /// The service accepted the request, but its answer could not be read;
    /// holds a description of the failure.
    Unreadable(String),
    /// The service accepted the request and its answer was read. Holds the
    /// response, or, where the answer did not have the shape of one, a
    /// description of what was wrong.
    Answered(Result<ChatMessageResponse, String>),
}

/// What came of opening a streamed exchange with the service.
#[derive(Debug, PartialEq, Eq)]
pub enum StreamOpening {
    /// The request could not be sent; holds a description of the failure.
    SendFailed(String),
    /// The service answered with a non-success status. Holds the text of its
    /// answer, or, where that could not be read, a description of why.
    Refused(Result<String, String>),
    /// The service accepted the request; frames will follow.
    Accepted,
}

/// What came of reading one frame of a streamed answer.
#[derive(Debug, PartialEq, Eq)]
pub enum StreamFrame {
    /// The frame held a response.
    Response(ChatMessageResponse),
    /// The frame did not have the shape of a response.
    Malformed,
    /// The frame could not be read.
    ReadFailed,
}

} // verus!
