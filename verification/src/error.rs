//! Failures of the gateway and the text each one carries to the caller.

use vstd::prelude::*;

verus! {

/// Failures raised while routing a request or by a back-end collaborator.
#[derive(Debug, PartialEq, Eq)]
pub enum BaseError {
    /// No worker is registered under the account that was asked for.
    AccountNotFound,
    /// The worker of the account has terminated: its channel is closed.
    WorkerUnavailable,
    /// A one-off query did not answer before its deadline.
    QueryTimeout,
    /// The route type names no back-end family of this gateway.
    InvalidRouteType,
    /// A failure reported by the back-end, carried as it came.
    Backend(String),
}

impl BaseError {
    /// The text of this failure.
    pub open spec fn text(&self) -> Seq<char> {
        match self {
            BaseError::AccountNotFound => "account not found"@,
            BaseError::WorkerUnavailable => "worker unavailable"@,
            BaseError::QueryTimeout => "query timeout"@,
            BaseError::InvalidRouteType => "invalid route type"@,
            BaseError::Backend(detail) => detail@,
        }
    }

    /// Renders this failure for the caller; a back-end failure comes out verbatim.
    pub fn message(&self) -> (r: String)
        ensures
            r@ == self.text(),
    {
        match self {
            BaseError::AccountNotFound => "account not found".to_owned(),
            BaseError::WorkerUnavailable => "worker unavailable".to_owned(),
            BaseError::QueryTimeout => "query timeout".to_owned(),
            BaseError::InvalidRouteType => "invalid route type".to_owned(),
            BaseError::Backend(detail) => detail.clone(),
        }
    }
}

/// Every way in which a request to the front can fail.
#[derive(Debug, PartialEq, Eq)]
pub enum Error {
    /// A routing, timeout or back-end failure.
    BaseErr(BaseError),
    /// The request itself was refused; the text says why.
    SimpleErr(String),
    /// A payload was not canonical base64.
    Base64DocodeErr(base64::DecodeError),
}

impl Error {
    /// Renders this failure for the caller. A decoding failure is rendered as
    /// it displays itself.
    pub fn message(&self) -> (r: String)
        ensures
            self matches Error::BaseErr(e) ==> r@ == e.text(),
            self matches Error::SimpleErr(text) ==> r@ == text@,
            self matches Error::Base64DocodeErr(e) ==> vstd::string::to_string_from_display_ensures::<
                base64::DecodeError,
            >(e, r),
    {
        match self {
            Error::BaseErr(e) => e.message(),
            Error::SimpleErr(text) => text.clone(),
            Error::Base64DocodeErr(e) => e.to_string(),
        }
    }
}

impl From<BaseError> for Error {
    fn from(e: BaseError) -> (r: Error) {
        Error::BaseErr(e)
    }
}

impl vstd::std_specs::convert::FromSpecImpl<BaseError> for Error {
    open spec fn obeys_from_spec() -> bool {
        true
    }

    open spec fn from_spec(e: BaseError) -> Error {
        Error::BaseErr(e)
    }
}

impl From<base64::DecodeError> for Error {
    fn from(e: base64::DecodeError) -> (r: Error) {
        Error::Base64DocodeErr(e)
    }
}

impl vstd::std_specs::convert::FromSpecImpl<base64::DecodeError> for Error {
    open spec fn obeys_from_spec() -> bool {
        true
    }

    open spec fn from_spec(e: base64::DecodeError) -> Error {
        Error::Base64DocodeErr(e)
    }
}

} // verus!
