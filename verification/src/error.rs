//! The errors of the client.

use vstd::prelude::*;

verus! {

/// Why a connection, a registration or a decode failed.
#[derive(Debug, Clone, PartialEq, Eq)]
pub enum AegisError {
    /// The connection is unusable, or the peer broke the protocol.
    Connection(String),
    /// The daemon refused the registration. Never retried.
    Registration(String),
    /// The peer did not answer in time.
    Timeout,
    /// A read or a write failed, with the system's message.
    Io(String),
    /// A JSON text or value did not have the expected form, with the parser's
    /// message.
    Json(String),
}

/// What an [`AegisError`] says.
pub enum AegisErrorView {
    Connection(Seq<char>),
    Registration(Seq<char>),
    Timeout,
    Io(Seq<char>),
    Json(Seq<char>),
}

impl AegisError {
    /// What the error says.
    pub open spec fn view(&self) -> AegisErrorView {
        match *self {
            AegisError::Connection(m) => AegisErrorView::Connection(m@),
            AegisError::Registration(m) => AegisErrorView::Registration(m@),
            AegisError::Timeout => AegisErrorView::Timeout,
            AegisError::Io(m) => AegisErrorView::Io(m@),
            AegisError::Json(m) => AegisErrorView::Json(m@),
        }
    }
}

/// What a fallible operation without a value came to.
pub open spec fn outcome_view(r: Result<(), AegisError>) -> Result<(), AegisErrorView> {
    match r {
        Ok(_) => Ok(()),
        Err(e) => Err(e.view()),
    }
}

/// The view of an error tells its kind and its message.
pub proof fn law_errors_shown(e: AegisError)
    ensures
        match e {
            AegisError::Connection(m) => e.view() == AegisErrorView::Connection(m@),
            AegisError::Registration(m) => e.view() == AegisErrorView::Registration(m@),
            AegisError::Timeout => e.view() == AegisErrorView::Timeout,
            AegisError::Io(m) => e.view() == AegisErrorView::Io(m@),
            AegisError::Json(m) => e.view() == AegisErrorView::Json(m@),
        },
        outcome_view(Err(e)) == Err::<(), AegisErrorView>(e.view()),
        outcome_view(Ok(())) == Ok::<(), AegisErrorView>(()),
{
}

} // verus!
