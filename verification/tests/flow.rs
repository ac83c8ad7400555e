use rocket_oauth2::{
    AbsoluteUri, Callback, CsrfState, Error, ErrorKind, HyperRustlsAdapter, LoginAttempt,
    OAuthConfig, Phase, ProviderConfig, TokenRequest,
};

const ENTROPY: [u8; 16] = [
    0x00, 0x01, 0x0f, 0x10, 0x7f, 0x80, 0x9a, 0xab, 0xbc, 0xcd, 0xde, 0xef, 0xf0, 0xfe, 0xff, 0x5a,
];
const STATE: &str = "00010f107f809aabbccddeeff0feff5a";

fn callback(code: Option<&str>, state: Option<&str>, error: Option<&str>) -> Callback {
    Callback {
        code: code.map(|text| text.to_string()),
        state: state.map(|text| text.to_string()),
        error: error.map(|text| text.to_string()),
        error_description: None,
    }
}

fn awaiting() -> LoginAttempt {
    LoginAttempt::resume(Some(STATE.to_string()))
}

fn some_uri() -> AbsoluteUri {
    AbsoluteUri::parse("https://example.com/authorize?state=x".to_string()).unwrap()
}

#[test]
fn state_is_the_entropy_in_hexadecimal() {
    let state = CsrfState::from_entropy(&ENTROPY).unwrap();
    assert_eq!(state.as_str(), STATE);
    assert_eq!(state.clone().into_string(), STATE);
}

#[test]
fn state_needs_sixteen_bytes_of_entropy() {
    assert!(CsrfState::from_entropy(&[]).is_none());
    assert!(CsrfState::from_entropy(&ENTROPY[..15]).is_none());
    assert!(CsrfState::from_entropy(&ENTROPY).is_some());
    let longer = [0xabu8; 32];
    assert_eq!(
        CsrfState::from_entropy(&longer).unwrap().as_str(),
        "ab".repeat(32)
    );
}

#[test]
fn states_from_different_entropy_differ() {
    let mut other = ENTROPY;
    other[15] ^= 1;
    assert_ne!(
        CsrfState::from_entropy(&ENTROPY).unwrap(),
        CsrfState::from_entropy(&other).unwrap()
    );
}

#[test]
fn state_stands_in_the_uri_as_it_is() {
    let provider =
        ProviderConfig::new("https://example.com/authorize", "https://example.com/token").unwrap();
    let config = OAuthConfig::new(provider, "id".to_string(), "secret".to_string(), None).unwrap();
    let state = CsrfState::from_entropy(&ENTROPY).unwrap();
    let uri = HyperRustlsAdapter
        .authorization_uri(&config, state.as_str(), &[])
        .unwrap();
    assert!(uri.as_str().ends_with(&format!("&state={}", STATE)));
}

#[test]
fn verify_wants_the_whole_state() {
    let state = CsrfState::from_stored("abcdef".to_string());
    assert!(state.verify("abcdef"));
    assert!(!state.verify("abcde"));
    assert!(!state.verify("abcdefg"));
    assert!(!state.verify("bcdef"));
    assert!(!state.verify("ABCDEF"));
    assert!(!state.verify(""));
    assert!(CsrfState::from_stored(String::new()).verify(""));
}

#[test]
fn attempt_goes_from_initiated_to_exchanged() {
    let state = CsrfState::from_entropy(&ENTROPY).unwrap();
    let mut attempt = LoginAttempt::initiate(state);
    assert_eq!(attempt.phase(), Phase::Initiated);
    assert_eq!(attempt.pending_state(), Some(STATE));

    let issued = attempt.redirect_issued(Ok(some_uri())).unwrap();
    assert_eq!(issued, some_uri());
    assert_eq!(attempt.phase(), Phase::AwaitingCallback);
    assert_eq!(attempt.pending_state(), Some(STATE));

    let decision = attempt
        .callback_received(&callback(Some("c0de"), Some(STATE), None))
        .unwrap();
    assert_eq!(decision, TokenRequest::AuthorizationCode("c0de".to_string()));
    assert_eq!(attempt.phase(), Phase::Validated);
    assert_eq!(attempt.pending_state(), None);

    let token = HyperRustlsAdapter
        .read_reply(200, br#"{"access_token":"abc","token_type":"bearer"}"#);
    let delivered = attempt.exchange_finished(token).unwrap();
    assert_eq!(delivered.access_token(), "abc");
    assert_eq!(attempt.phase(), Phase::Exchanged);
    assert_eq!(attempt.pending_state(), None);
}

#[test]
fn redirect_that_cannot_be_built_fails_the_attempt_and_drops_the_state() {
    let mut attempt = LoginAttempt::initiate(CsrfState::from_entropy(&ENTROPY).unwrap());
    let built = AbsoluteUri::parse("no uri".to_string());
    let error = attempt.redirect_issued(built).unwrap_err();
    assert_eq!(error.kind(), ErrorKind::InvalidUri);
    assert_eq!(error.detail(), "no uri");
    assert_eq!(attempt.phase(), Phase::Failed(ErrorKind::InvalidUri));
    assert_eq!(attempt.pending_state(), None);
}

#[test]
fn callback_with_another_state_is_a_state_mismatch() {
    let mut attempt = awaiting();
    let error = attempt
        .callback_received(&callback(Some("c0de"), Some("00010f107f809aabbccddeeff0feff5b"), None))
        .unwrap_err();
    assert_eq!(error.kind(), ErrorKind::StateMismatch);
    assert_eq!(attempt.phase(), Phase::Failed(ErrorKind::StateMismatch));
    assert_eq!(attempt.pending_state(), None);
}

#[test]
fn callback_with_a_prefix_of_the_state_is_a_state_mismatch() {
    let mut attempt = awaiting();
    let error = attempt
        .callback_received(&callback(Some("c0de"), Some(&STATE[..31]), None))
        .unwrap_err();
    assert_eq!(error.kind(), ErrorKind::StateMismatch);
    assert_eq!(attempt.pending_state(), None);
}

#[test]
fn callback_without_state_is_a_state_mismatch() {
    let mut attempt = awaiting();
    let error = attempt
        .callback_received(&callback(Some("c0de"), None, None))
        .unwrap_err();
    assert_eq!(error.kind(), ErrorKind::StateMismatch);
    assert_eq!(attempt.pending_state(), None);
}

#[test]
fn callback_with_nothing_pending_is_a_state_mismatch() {
    let mut attempt = LoginAttempt::resume(None);
    let error = attempt
        .callback_received(&callback(Some("c0de"), Some(STATE), None))
        .unwrap_err();
    assert_eq!(error.kind(), ErrorKind::StateMismatch);
    let mut attempt = LoginAttempt::resume(None);
    let error = attempt
        .callback_received(&callback(Some("c0de"), None, None))
        .unwrap_err();
    assert_eq!(error.kind(), ErrorKind::StateMismatch);
}

#[test]
fn state_mismatch_comes_before_a_provider_error() {
    let mut attempt = awaiting();
    let error = attempt
        .callback_received(&callback(None, Some("other"), Some("access_denied")))
        .unwrap_err();
    assert_eq!(error.kind(), ErrorKind::StateMismatch);
}

#[test]
fn replayed_callback_fails_the_second_time() {
    let good = callback(Some("c0de"), Some(STATE), None);
    let mut attempt = awaiting();
    assert!(attempt.callback_received(&good).is_ok());
    let replayed = attempt.callback_received(&good).unwrap_err();
    assert_eq!(replayed.kind(), ErrorKind::StateMismatch);
    assert_eq!(attempt.phase(), Phase::Failed(ErrorKind::StateMismatch));

    let mut first = awaiting();
    assert!(first.callback_received(&good).is_ok());
    let left = first.pending_state().map(|text| text.to_string());
    assert_eq!(left, None);
    let mut second = LoginAttempt::resume(left);
    let replayed = second.callback_received(&good).unwrap_err();
    assert_eq!(replayed.kind(), ErrorKind::StateMismatch);
}

#[test]
fn replay_after_a_failed_validation_fails_too() {
    let mut attempt = awaiting();
    let wrong = callback(Some("c0de"), Some("wrong"), None);
    assert!(attempt.callback_received(&wrong).is_err());
    let good = callback(Some("c0de"), Some(STATE), None);
    let error = attempt.callback_received(&good).unwrap_err();
    assert_eq!(error.kind(), ErrorKind::StateMismatch);
    let mut resumed = LoginAttempt::resume(attempt.pending_state().map(|text| text.to_string()));
    assert_eq!(
        resumed.callback_received(&good).unwrap_err().kind(),
        ErrorKind::StateMismatch
    );
}

#[test]
fn provider_denial_is_reported_and_nothing_is_exchanged() {
    let mut attempt = awaiting();
    let error = attempt
        .callback_received(&callback(None, Some(STATE), Some("access_denied")))
        .unwrap_err();
    assert_eq!(error.kind(), ErrorKind::ProviderDenied);
    assert_eq!(error.detail(), "access_denied");
    assert_eq!(attempt.phase(), Phase::Failed(ErrorKind::ProviderDenied));
    assert_eq!(attempt.pending_state(), None);
}

#[test]
fn provider_denial_carries_the_description() {
    let mut attempt = awaiting();
    let denied = Callback {
        code: Some("c0de".to_string()),
        state: Some(STATE.to_string()),
        error: Some("access_denied".to_string()),
        error_description: Some("The user said no".to_string()),
    };
    let error = attempt.callback_received(&denied).unwrap_err();
    assert_eq!(error.kind(), ErrorKind::ProviderDenied);
    assert_eq!(error.detail(), "access_denied: The user said no");
}

#[test]
fn callback_without_code_or_error_is_a_missing_code() {
    let mut attempt = awaiting();
    let error = attempt
        .callback_received(&callback(None, Some(STATE), None))
        .unwrap_err();
    assert_eq!(error.kind(), ErrorKind::MissingCode);
    assert_eq!(attempt.phase(), Phase::Failed(ErrorKind::MissingCode));
    assert_eq!(attempt.pending_state(), None);
}

#[test]
fn failed_exchange_fails_the_attempt_with_the_adapters_kind() {
    let mut attempt = awaiting();
    attempt
        .callback_received(&callback(Some("c0de"), Some(STATE), None))
        .unwrap();
    let outcome = HyperRustlsAdapter.read_reply(503, b"");
    let error = attempt.exchange_finished(outcome).unwrap_err();
    assert_eq!(error.kind(), ErrorKind::ExchangeError(503));
    assert_eq!(attempt.phase(), Phase::Failed(ErrorKind::ExchangeError(503)));

    let retried = HyperRustlsAdapter
        .read_reply(200, br#"{"access_token":"abc","token_type":"bearer"}"#);
    let error = attempt.exchange_finished(retried).unwrap_err();
    assert_eq!(error.kind(), ErrorKind::StateMismatch);
    assert_eq!(attempt.phase(), Phase::Failed(ErrorKind::ExchangeError(503)));
}

#[test]
fn token_does_not_leave_an_attempt_that_was_not_validated() {
    let mut attempt = awaiting();
    let token = HyperRustlsAdapter
        .read_reply(200, br#"{"access_token":"abc","token_type":"bearer"}"#);
    let error = attempt.exchange_finished(token).unwrap_err();
    assert_eq!(error.kind(), ErrorKind::StateMismatch);
    assert_eq!(attempt.phase(), Phase::Failed(ErrorKind::StateMismatch));
    assert_eq!(attempt.pending_state(), None);
}

#[test]
fn steps_out_of_turn_are_rejected() {
    let mut attempt = awaiting();
    let error = attempt.redirect_issued(Ok(some_uri())).unwrap_err();
    assert_eq!(error.kind(), ErrorKind::StateMismatch);
    assert_eq!(attempt.phase(), Phase::Failed(ErrorKind::StateMismatch));

    let mut attempt = LoginAttempt::initiate(CsrfState::from_entropy(&ENTROPY).unwrap());
    let error = attempt
        .callback_received(&callback(Some("c0de"), Some(STATE), None))
        .unwrap_err();
    assert_eq!(error.kind(), ErrorKind::StateMismatch);
    assert_eq!(attempt.pending_state(), None);
}

#[test]
fn exchanged_attempt_stays_exchanged() {
    let mut attempt = awaiting();
    attempt
        .callback_received(&callback(Some("c0de"), Some(STATE), None))
        .unwrap();
    let token = HyperRustlsAdapter
        .read_reply(200, br#"{"access_token":"abc","token_type":"bearer"}"#);
    attempt.exchange_finished(token).unwrap();
    let failure: Result<rocket_oauth2::TokenResponse<()>, Error> =
        Err(Error::bare(ErrorKind::ExchangeFailure));
    assert_eq!(
        attempt.exchange_finished(failure).unwrap_err().kind(),
        ErrorKind::StateMismatch
    );
    assert_eq!(attempt.phase(), Phase::Exchanged);
    assert!(attempt
        .callback_received(&callback(Some("c0de"), Some(STATE), None))
        .is_err());
    assert_eq!(attempt.phase(), Phase::Exchanged);
    assert!(attempt.redirect_issued(Ok(some_uri())).is_err());
    assert_eq!(attempt.phase(), Phase::Exchanged);
}

#[test]
fn callback_is_read_from_the_fields_of_the_query() {
    let fields = |pairs: &[(&str, &str)]| -> Vec<(String, String)> {
        pairs
            .iter()
            .map(|(name, value)| (name.to_string(), value.to_string()))
            .collect()
    };
    assert_eq!(
        Callback::from_fields(&fields(&[("state", "s"), ("code", "c")])),
        callback(Some("c"), Some("s"), None)
    );
    assert_eq!(Callback::from_fields(&fields(&[])), callback(None, None, None));
    assert_eq!(
        Callback::from_fields(&fields(&[
            ("error", "access_denied"),
            ("error_description", "no"),
            ("state", "s"),
            ("scope", "x"),
            ("state", "t"),
            ("Code", "upper"),
            ("error", "second"),
        ])),
        Callback {
            code: None,
            state: Some("s".to_string()),
            error: Some("access_denied".to_string()),
            error_description: Some("no".to_string()),
        }
    );
}
