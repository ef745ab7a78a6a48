use base64::DecodeError;
use gateway::error::{BaseError, Error};

#[test]
fn base_error_messages() {
    assert_eq!(BaseError::AccountNotFound.message(), "account not found");
    assert_eq!(BaseError::WorkerUnavailable.message(), "worker unavailable");
    assert_eq!(BaseError::QueryTimeout.message(), "query timeout");
    assert_eq!(BaseError::InvalidRouteType.message(), "invalid route type");
}

#[test]
fn backend_failure_is_rendered_verbatim() {
    let text = "CTP: 3 invalid login";
    assert_eq!(BaseError::Backend(text.to_string()).message(), text);
    assert_eq!(BaseError::Backend(String::new()).message(), "");
}

#[test]
fn error_message_of_each_variant() {
    assert_eq!(Error::BaseErr(BaseError::QueryTimeout).message(), "query timeout");
    assert_eq!(Error::SimpleErr("no".to_string()).message(), "no");
    assert_eq!(
        Error::Base64DocodeErr(DecodeError::InvalidByte(3, b'*')).message(),
        DecodeError::InvalidByte(3, b'*').to_string()
    );
    assert_eq!(Error::Base64DocodeErr(DecodeError::InvalidLength(5)).message(), "Invalid input length: 5");
}

#[test]
fn error_from_its_parts() {
    assert_eq!(Error::from(BaseError::WorkerUnavailable), Error::BaseErr(BaseError::WorkerUnavailable));
    assert_eq!(
        Error::from(DecodeError::InvalidPadding),
        Error::Base64DocodeErr(DecodeError::InvalidPadding)
    );
}
