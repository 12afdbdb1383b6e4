use vstd::prelude::*;

use crate::error::ErrorModel;
use crate::types::{SessionID, UserID};

verus! {

/// Failures of the session coordinator.
#[derive(Clone, Debug, PartialEq, Eq)]
pub enum Error {
    /// The coordinator holds no conduit for this user.
    ClientUnreachable(UserID),
    /// No session has this id.
    SessionNotFound(SessionID),
    /// The winner of a round is not among the session's users.
    UnknownWinner,
    /// The user has already joined the session.
    UserAlreadyInSession(UserID, SessionID),
    /// The user has not joined the session.
    UserNotInSession(UserID, SessionID),
    /// The session already holds as many users as its player count.
    SessionFull(SessionID),
    /// A prompt sent to a user failed.
    Conduit(crate::error::Error),
}

/// The mathematical value of an [`Error`].
pub enum ErrorView {
    ClientUnreachable(UserID),
    SessionNotFound(SessionID),
    UnknownWinner,
    UserAlreadyInSession(UserID, SessionID),
    UserNotInSession(UserID, SessionID),
    SessionFull(SessionID),
    Conduit(ErrorModel),
}

impl View for Error {
    type V = ErrorView;

    open spec fn view(&self) -> ErrorView {
        match self {
            Error::ClientUnreachable(u) => ErrorView::ClientUnreachable(*u),
            Error::SessionNotFound(s) => ErrorView::SessionNotFound(*s),
            Error::UnknownWinner => ErrorView::UnknownWinner,
            Error::UserAlreadyInSession(u, s) => ErrorView::UserAlreadyInSession(*u, *s),
            Error::UserNotInSession(u, s) => ErrorView::UserNotInSession(*u, *s),
            Error::SessionFull(s) => ErrorView::SessionFull(*s),
            Error::Conduit(e) => ErrorView::Conduit(e@),
        }
    }
}

} // verus!
