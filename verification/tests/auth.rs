use flowaim::auth::{get_acces_token, AuthAction, AuthEvent, AuthState, Identity};
use flowaim::error::AuthError;
use flowaim::signing::verify_message;

const PRIVATE: &str = "nWGxne/9WmC6hEr0kuwsxERJxWl7MmkZcDusAxyuf2A=";
const PUBLIC: &str = "11qYAYKxCrfVS/7TyWQHOg7hcvPapiMlrwIaaPcHURo=";
const OTHER_PRIVATE: &str = "TM0Imyj/ltqdtsNG7BFOD1uKMZ81q6Yk2oz27U+4pvs=";

fn identity() -> Identity {
    Identity {
        user_id: "u1".to_string(),
        public_key: PUBLIC.to_string(),
        private_key: PRIVATE.to_string(),
    }
}

/// A platform that issues one challenge for one user and redeems it once.
struct Platform {
    user: String,
    challenge: String,
    bearer: String,
    consumed: bool,
    calls: Vec<String>,
}

impl Platform {
    fn new() -> Platform {
        Platform {
            user: "u1".to_string(),
            challenge: "abc123".to_string(),
            bearer: "bearer-token-1".to_string(),
            consumed: false,
            calls: Vec::new(),
        }
    }

    fn answer(&mut self, action: &AuthAction) -> AuthEvent {
        match action {
            AuthAction::RequestChallenge(request) => {
                self.calls.push(request.url.clone());
                if request.user_id == self.user {
                    AuthEvent::ChallengeIssued(self.challenge.clone())
                } else {
                    AuthEvent::NetworkFailed
                }
            }
            AuthAction::Redeem(request) => {
                self.calls.push(request.url.clone());
                let valid = request.user_id == self.user
                    && request.auth_code == self.challenge
                    && !self.consumed
                    && verify_message(&request.auth_code, &request.key, &request.signature);
                if valid {
                    self.consumed = true;
                    AuthEvent::TokenIssued(self.bearer.clone())
                } else {
                    AuthEvent::NetworkFailed
                }
            }
            _ => panic!("nothing to answer"),
        }
    }
}

fn obtain_access_token(identity: &Identity, platform: &mut Platform) -> Result<String, AuthError> {
    let mut state = AuthState::Idle;
    let mut event = AuthEvent::Start;
    loop {
        let (next, action) = get_acces_token(identity, "https://api.example", state, event);
        state = next;
        match action {
            AuthAction::Finish(token) => {
                assert_eq!(state, AuthState::Authenticated);
                return Ok(token);
            }
            AuthAction::Abort(error) => {
                assert_eq!(state, AuthState::Failed);
                return Err(error);
            }
            AuthAction::Ignore => panic!("the exchange stalled"),
            other => event = platform.answer(&other),
        }
    }
}

#[test]
fn exchange_returns_the_bearer_string() {
    let mut platform = Platform::new();
    let token = obtain_access_token(&identity(), &mut platform);
    assert_eq!(token, Ok("bearer-token-1".to_string()));
    assert_eq!(
        platform.calls,
        vec![
            "https://api.example/v1/auth/code".to_string(),
            "https://api.example/v1/auth/token".to_string()
        ]
    );
}

#[test]
fn consumed_challenge_is_rejected_as_network_failure() {
    let mut platform = Platform::new();
    assert!(obtain_access_token(&identity(), &mut platform).is_ok());
    let again = obtain_access_token(&identity(), &mut platform);
    assert_eq!(again, Err(AuthError::NetworkFailure));
}

#[test]
fn unknown_user_is_rejected_as_network_failure() {
    let mut platform = Platform::new();
    let mut stranger = identity();
    stranger.user_id = "u2".to_string();
    assert_eq!(
        obtain_access_token(&stranger, &mut platform),
        Err(AuthError::NetworkFailure)
    );
    assert_eq!(platform.calls.len(), 1);
}

#[test]
fn mismatched_keys_end_the_exchange_before_redemption() {
    let mut platform = Platform::new();
    let mut broken = identity();
    broken.private_key = OTHER_PRIVATE.to_string();
    assert_eq!(
        obtain_access_token(&broken, &mut platform),
        Err(AuthError::InvalidKeyMaterial)
    );
    assert_eq!(platform.calls, vec!["https://api.example/v1/auth/code".to_string()]);
}

#[test]
fn start_requests_a_challenge_for_the_user() {
    let (state, action) = get_acces_token(&identity(), "http://h", AuthState::Idle, AuthEvent::Start);
    assert_eq!(state, AuthState::AwaitingChallenge);
    match action {
        AuthAction::RequestChallenge(request) => {
            assert_eq!(request.url, "http://h/v1/auth/code");
            assert_eq!(request.user_id, "u1");
        }
        _ => panic!("unexpected action"),
    }
}

#[test]
fn redemption_carries_the_challenge_as_issued() {
    let (state, action) = get_acces_token(
        &identity(),
        "http://h",
        AuthState::AwaitingChallenge,
        AuthEvent::ChallengeIssued("abc123".to_string()),
    );
    assert_eq!(state, AuthState::AwaitingToken);
    match action {
        AuthAction::Redeem(request) => {
            assert_eq!(request.url, "http://h/v1/auth/token");
            assert_eq!(request.user_id, "u1");
            assert_eq!(request.auth_code, "abc123");
            assert_eq!(request.key, PUBLIC);
            assert_eq!(request.signature.len(), 128);
            assert!(verify_message("abc123", PUBLIC, &request.signature));
        }
        _ => panic!("unexpected action"),
    }
}

#[test]
fn token_is_handed_out_as_issued() {
    let (state, action) = get_acces_token(
        &identity(),
        "http://h",
        AuthState::AwaitingToken,
        AuthEvent::TokenIssued("tok".to_string()),
    );
    assert_eq!(state, AuthState::Authenticated);
    assert!(matches!(action, AuthAction::Finish(token) if token == "tok"));
}

#[test]
fn network_failure_at_either_step_surfaces_at_once() {
    for waiting in [AuthState::AwaitingChallenge, AuthState::AwaitingToken] {
        let (state, action) =
            get_acces_token(&identity(), "http://h", waiting, AuthEvent::NetworkFailed);
        assert_eq!(state, AuthState::Failed);
        assert!(matches!(action, AuthAction::Abort(AuthError::NetworkFailure)));
    }
}

#[test]
fn malformed_answer_at_either_step_surfaces_at_once() {
    for waiting in [AuthState::AwaitingChallenge, AuthState::AwaitingToken] {
        let (state, action) = get_acces_token(&identity(), "http://h", waiting, AuthEvent::Malformed);
        assert_eq!(state, AuthState::Failed);
        assert!(matches!(action, AuthAction::Abort(AuthError::MalformedResponse)));
    }
}

#[test]
fn answer_of_the_wrong_shape_is_malformed() {
    let (state, action) = get_acces_token(
        &identity(),
        "http://h",
        AuthState::AwaitingChallenge,
        AuthEvent::TokenIssued("tok".to_string()),
    );
    assert_eq!(state, AuthState::Failed);
    assert!(matches!(action, AuthAction::Abort(AuthError::MalformedResponse)));
    let (state, action) = get_acces_token(
        &identity(),
        "http://h",
        AuthState::AwaitingToken,
        AuthEvent::ChallengeIssued("abc123".to_string()),
    );
    assert_eq!(state, AuthState::Failed);
    assert!(matches!(action, AuthAction::Abort(AuthError::MalformedResponse)));
}

#[test]
fn events_after_the_end_change_nothing() {
    for ended in [AuthState::Authenticated, AuthState::Failed] {
        let (state, action) = get_acces_token(&identity(), "http://h", ended, AuthEvent::Start);
        assert_eq!(state, ended);
        assert!(matches!(action, AuthAction::Ignore));
    }
    let (state, action) =
        get_acces_token(&identity(), "http://h", AuthState::Idle, AuthEvent::NetworkFailed);
    assert_eq!(state, AuthState::Idle);
    assert!(matches!(action, AuthAction::Ignore));
}

#[test]
fn error_messages_name_the_failing_step() {
    assert_eq!(AuthError::NetworkFailure.message(), "authentication: network call failed");
    assert_eq!(AuthError::MalformedResponse.message(), "authentication: malformed response");
    assert_eq!(AuthError::InvalidKeyMaterial.message(), "authentication: invalid key material");
}
