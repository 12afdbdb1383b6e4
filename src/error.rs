use vstd::prelude::*;

verus! {

/// Failures of the envelope layer and of the per-user conduit.
#[derive(Clone, Debug, PartialEq, Eq)]
pub enum Error {
    /// The user's inbound queue closed before the awaited response arrived.
    ClientDisconnected,
    /// The client's handler reported a failure with this text.
    ClientError(String),
    /// A wire session type outside the known values.
    InvalidSessionType,
    /// A wire coin value outside the known values.
    InvalidCoinValue,
    /// A server prompt on the wire without a payload.
    InvalidServerRequest,
    /// A client response without a payload, or of another kind than the prompt expects.
    InvalidClientResponse,
}

/// The mathematical value of an [`Error`].
pub enum ErrorModel {
    ClientDisconnected,
    ClientError(Seq<char>),
    InvalidSessionType,
    InvalidCoinValue,
    InvalidServerRequest,
    InvalidClientResponse,
}

impl View for Error {
    type V = ErrorModel;

    open spec fn view(&self) -> ErrorModel {
        match self {
            Error::ClientDisconnected => ErrorModel::ClientDisconnected,
            Error::ClientError(t) => ErrorModel::ClientError(t@),
            Error::InvalidSessionType => ErrorModel::InvalidSessionType,
            Error::InvalidCoinValue => ErrorModel::InvalidCoinValue,
            Error::InvalidServerRequest => ErrorModel::InvalidServerRequest,
            Error::InvalidClientResponse => ErrorModel::InvalidClientResponse,
        }
    }
}

} // verus!
