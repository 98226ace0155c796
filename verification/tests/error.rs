use api::{DispatchError, LookupError, ValidationError};

#[test]
fn dispatch_errors_become_upstream_errors() {
    assert_eq!(
        LookupError::from(DispatchError::Transport),
        LookupError::Upstream(DispatchError::Transport)
    );
    assert_eq!(
        LookupError::from(DispatchError::Decode),
        LookupError::Upstream(DispatchError::Decode)
    );
}

#[test]
fn validation_errors_keep_missing_apart_from_broken() {
    assert_eq!(LookupError::from(ValidationError::NotFound), LookupError::NotFound);
    assert_eq!(LookupError::from(ValidationError::NoData), LookupError::BadUpstream);
}

#[test]
fn only_transport_failures_are_worth_another_try() {
    assert!(DispatchError::Transport.is_retryable());
    assert!(!DispatchError::Decode.is_retryable());
    assert!(LookupError::Upstream(DispatchError::Transport).is_retryable());
    assert!(!LookupError::Upstream(DispatchError::Decode).is_retryable());
    assert!(!LookupError::NotFound.is_retryable());
    assert!(!LookupError::BadUpstream.is_retryable());
}
