use resvolt::error::{AuthenticationError, RSError};

#[test]
fn authentication_errors_show_their_name() {
    assert_eq!(AuthenticationError::LabelMe.to_text(), "LabelMe");
    assert_eq!(AuthenticationError::InternalError.to_text(), "InternalError");
    assert_eq!(AuthenticationError::InvalidSession.to_text(), "InvalidSession");
    assert_eq!(AuthenticationError::AlreadyAuthenticated.to_text(), "AlreadyAuthenticated");
    for error in [AuthenticationError::LabelMe, AuthenticationError::InvalidSession] {
        assert_eq!(error.to_text(), format!("{:?}", error));
    }
}

#[test]
fn errors_show_their_kind_and_what_they_carry() {
    assert_eq!(
        RSError::CommandNotFound("Command 'x' not found".to_string()).to_text(),
        "Command not found: Command 'x' not found"
    );
    assert_eq!(RSError::Http("timeout".to_string()).to_text(), "HTTP error: timeout");
    assert_eq!(RSError::Ws("closed".to_string()).to_text(), "WebSocket error: closed");
    assert_eq!(
        RSError::Authentication(AuthenticationError::InvalidSession).to_text(),
        "Authentication error: InvalidSession"
    );
    assert_eq!(RSError::Unknown("what".to_string()).to_text(), "Unknown error: what");
    assert_eq!(RSError::ErrorHandlerNotSet.to_text(), "Error handler not set");
}
