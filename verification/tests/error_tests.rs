use loguinho::errors::classify;
use loguinho::errors::ErrorAction;
use loguinho::errors::ErrorKind;
use loguinho::errors::FetchError;

#[test]
fn credentials_failures_continue() {
    let c = classify(&FetchError::Credentials("no profile found".to_string()));
    assert_eq!(c.kind, ErrorKind::CredentialsFailure);
    assert_eq!(c.action, ErrorAction::LogAndContinue);
}

#[test]
fn throttling_body_is_rate_limited() {
    let body = "{\"__type\":\"ThrottlingException\",\"message\":\"Rate exceeded\"}";
    let c = classify(&FetchError::Api(body.to_string()));
    assert_eq!(c.kind, ErrorKind::RateLimited);
    assert_eq!(c.action, ErrorAction::PauseBatch);
}

#[test]
fn other_api_bodies_are_unclassified() {
    let c = classify(&FetchError::Api("ResourceNotFoundException".to_string()));
    assert_eq!(c.kind, ErrorKind::Unclassified);
    assert_eq!(c.action, ErrorAction::LogAndContinue);
}

#[test]
fn network_failures_are_transport() {
    let c = classify(&FetchError::Transport("connection refused".to_string()));
    assert_eq!(c.kind, ErrorKind::Transport);
    assert_eq!(c.action, ErrorAction::LogAndContinue);
}

#[test]
fn no_kind_recommends_aborting() {
    let errors = vec![
        FetchError::Credentials("x".to_string()),
        FetchError::Api("Rate exceeded".to_string()),
        FetchError::Api("y".to_string()),
        FetchError::Transport("z".to_string()),
    ];
    for e in &errors {
        assert_ne!(classify(e).action, ErrorAction::LogAndAbort);
    }
}
