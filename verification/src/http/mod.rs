//! What the service answers, and how a failed database call is answered.


pub mod v1;

use vstd::prelude::*;

verus! {

/// A failed database call, by what its answer needs.
#[derive(Clone, Debug, PartialEq, Eq)]
pub enum StoreError {
    /// No record matched; holds the query that found nothing.
    NotFound(String),
    /// Any other failure; holds its description.
    Other(String),
}

/// The errors that a route can end in.
#[derive(Clone, Debug, PartialEq, Eq)]
pub enum SomeError {
    CharybdisError(StoreError),
}

/// An answer of the service: its status and its body.
#[derive(Clone, Debug, PartialEq, Eq)]
pub enum Reply {
    /// A status and an empty body.
    Empty { status: u16 },
    /// A status and the JSON body `{"error": error, "message": message}`.
    Problem { status: u16, error: String, message: String },
    /// A status and the JSON body `{"status": status, "message": message}`:
    /// the body repeats the status.
    Failure { status: u16, message: String },
}

/// An answer as plain values.
pub enum ReplyView {
    Empty { status: u16 },
    Problem { status: u16, error: Seq<char>, message: Seq<char> },
    Failure { status: u16, message: Seq<char> },
}

impl View for Reply {
    type V = ReplyView;

    open spec fn view(&self) -> ReplyView {
        match self {
            Reply::Empty { status } => ReplyView::Empty { status: *status },
            Reply::Problem { status, error, message } => ReplyView::Problem {
                status: *status,
                error: error@,
                message: message@,
            },
            Reply::Failure { status, message } => ReplyView::Failure {
                status: *status,
                message: message@,
            },
        }
    }
}

/// The answer to a failed database call: `404` when no record matched,
/// `500` otherwise, with the error's text as the message.
pub open spec fn error_reply(e: SomeError) -> ReplyView {
    match e {
        SomeError::CharybdisError(StoreError::NotFound(query)) => ReplyView::Failure {
            status: 404,
            message: query@,
        },
        SomeError::CharybdisError(StoreError::Other(description)) => ReplyView::Failure {
            status: 500,
            message: description@,
        },
    }
}

/// The `401` answer with the JSON body `{"error": "Unauthorized", "message": message}`.
pub open spec fn unauthorized_reply(message: Seq<char>) -> ReplyView {
    ReplyView::Problem { status: 401, error: "Unauthorized"@, message }
}

impl SomeError {
    /// The answer that this error gives: see `error_reply`.
    pub fn error_response(&self) -> (r: Reply)
        ensures
            r@ == error_reply(*self),
            match self {
                SomeError::CharybdisError(StoreError::NotFound(query)) => r matches Reply::Failure {
                    status,
                    message,
                } && status == 404 && message@ == query@,
                SomeError::CharybdisError(StoreError::Other(description)) => r matches Reply::Failure {
                    status,
                    message,
                } && status == 500 && message@ == description@,
            },
    {
        match self {
            SomeError::CharybdisError(StoreError::NotFound(query)) => Reply::Failure {
                status: 404,
                message: query.clone(),
            },
            SomeError::CharybdisError(StoreError::Other(description)) => Reply::Failure {
                status: 500,
                message: description.clone(),
            },
        }
    }
}

/// The text that the root route answers with.
pub fn welcome() -> (s: String)
    ensures
        s@ == "Welcome!"@,
{
    "Welcome!".to_owned()
}

}
