//! What the relay answers: a status code and a response of a status and a
//! message.

use vstd::prelude::*;

verus! {

/// The status of a response.
#[derive(Clone, Copy, Debug, PartialEq, Eq, Structural)]
pub enum RelayStatus {
    Okay,
    Success,
    Error,
}

/// The outcome of one request, as the producer is told.
#[derive(Clone, Debug, PartialEq, Eq)]
pub struct RelayResponse {
    pub status: RelayStatus,
    /// The outcome in words, with what the downstream service or the
    /// transport said where there is such detail.
    pub message: String,
}

/// A response together with the HTTP status code under which it is sent.
#[derive(Clone, Debug, PartialEq, Eq)]
pub struct Reply {
    pub code: u16,
    pub response: RelayResponse,
}

/// A `Reply` with its message as a sequence of characters.
pub struct ReplyView {
    pub code: u16,
    pub status: RelayStatus,
    pub message: Seq<char>,
}

impl View for Reply {
    type V = ReplyView;

    open spec fn view(&self) -> ReplyView {
        ReplyView {
            code: self.code,
            status: self.response.status,
            message: self.response.message@,
        }
    }
}

impl RelayStatus {
    /// The word that stands for this status on the wire.
    pub open spec fn tag_text(self) -> Seq<char> {
        match self {
            RelayStatus::Okay => "ok"@,
            RelayStatus::Success => "success"@,
            RelayStatus::Error => "error"@,
        }
    }

    /// The word that stands for this status on the wire.
    pub fn tag(&self) -> (tag: &'static str)
        ensures
            tag@ == self.tag_text(),
    {
        match self {
            RelayStatus::Okay => "ok",
            RelayStatus::Success => "success",
            RelayStatus::Error => "error",
        }
    }
}

impl ReplyView {
    /// The code is one of the server errors, 500 to 599.
    pub open spec fn is_server_error(self) -> bool {
        500 <= self.code <= 599
    }
}

impl Reply {
    /// Puts a reply together.
    pub fn new(code: u16, status: RelayStatus, message: String) -> (reply: Reply)
        ensures
            reply@ == (ReplyView { code, status, message: message@ }),
    {
        Reply { code, response: RelayResponse { status, message } }
    }
}

} // verus!
