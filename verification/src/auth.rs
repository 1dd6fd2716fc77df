//! The challenge-response exchange that turns the operator's long-term key
//! pair into a bearer access token.
//!
//! The exchange takes two round trips and keeps no session: the challenge
//! that the platform issues is handed to the step that signs it, and the
//! redemption carries that same challenge. Nothing is retried.

use crate::error::AuthError;
use crate::encoding::is_lower_hex_char;
use crate::signing::{challenge_signature, sign_message, signature_verifies, SIGNATURE_BYTES};
use crate::text::join;
use vstd::prelude::*;

verus! {

/// The operator's identity as it is configured: the user id and the
/// long-term key pair, both keys in base64. The type has no `Debug`, so that
/// the private key cannot end up in a log.
pub struct Identity {
    pub user_id: String,
    pub public_key: String,
    pub private_key: String,
}

/// An identity as plain values.
pub struct IdentityView {
    pub user_id: Seq<char>,
    pub public_key: Seq<char>,
    pub private_key: Seq<char>,
}

impl View for Identity {
    type V = IdentityView;

    open spec fn view(&self) -> IdentityView {
        IdentityView {
            user_id: self.user_id@,
            public_key: self.public_key@,
            private_key: self.private_key@,
        }
    }
}

/// How far the exchange has come.
#[derive(Clone, Copy, Debug, PartialEq, Eq, Structural)]
pub enum AuthState {
    /// Nothing has been sent.
    Idle,
    /// The challenge has been requested.
    AwaitingChallenge,
    /// The signed challenge has been submitted.
    AwaitingToken,
    /// The platform has issued the access token.
    Authenticated,
    /// The exchange has failed.
    Failed,
}

/// What the caller reports to the next step.
pub enum AuthEvent {
    /// The exchange begins.
    Start,
    /// The platform answered with a challenge.
    ChallengeIssued(String),
    /// The platform answered with an access token.
    TokenIssued(String),
    /// The network call failed, or the platform refused the request.
    NetworkFailed,
    /// The answer could not be decoded into the expected shape.
    Malformed,
}

/// An event as plain values.
pub enum AuthEventView {
    Start,
    ChallengeIssued(Seq<char>),
    TokenIssued(Seq<char>),
    NetworkFailed,
    Malformed,
}

impl View for AuthEvent {
    type V = AuthEventView;

    open spec fn view(&self) -> AuthEventView {
        match self {
            AuthEvent::Start => AuthEventView::Start,
            AuthEvent::ChallengeIssued(auth_code) => AuthEventView::ChallengeIssued(auth_code@),
            AuthEvent::TokenIssued(access_token) => AuthEventView::TokenIssued(access_token@),
            AuthEvent::NetworkFailed => AuthEventView::NetworkFailed,
            AuthEvent::Malformed => AuthEventView::Malformed,
        }
    }
}

/// The request for a challenge: a POST whose body holds `userId`.
#[derive(Debug)]
pub struct ChallengeRequest {
    pub url: String,
    pub user_id: String,
}

/// The submission of a signed challenge: a POST whose body holds `userId`,
/// `authCode`, `signature` and `key`.
pub struct RedeemRequest {
    pub url: String,
    pub user_id: String,
    pub auth_code: String,
    pub signature: String,
    pub key: String,
}

/// What a step asks the caller to do.
pub enum AuthAction {
    /// Send the request and report the challenge that comes back.
    RequestChallenge(ChallengeRequest),
    /// Send the submission and report the access token that comes back.
    Redeem(RedeemRequest),
    /// The exchange is over; this is the access token.
    Finish(String),
    /// The exchange is over; report the failure.
    Abort(AuthError),
    /// The event does not belong to the state; nothing has changed.
    Ignore,
}

/// An action as plain values.
pub enum AuthActionView {
    RequestChallenge { url: Seq<char>, user_id: Seq<char> },
    Redeem {
        url: Seq<char>,
        user_id: Seq<char>,
        auth_code: Seq<char>,
        signature: Seq<char>,
        key: Seq<char>,
    },
    Finish(Seq<char>),
    Abort(AuthError),
    Ignore,
}

impl View for AuthAction {
    type V = AuthActionView;

    open spec fn view(&self) -> AuthActionView {
        match self {
            AuthAction::RequestChallenge(request) => AuthActionView::RequestChallenge {
                url: request.url@,
                user_id: request.user_id@,
            },
            AuthAction::Redeem(request) => AuthActionView::Redeem {
                url: request.url@,
                user_id: request.user_id@,
                auth_code: request.auth_code@,
                signature: request.signature@,
                key: request.key@,
            },
            AuthAction::Finish(access_token) => AuthActionView::Finish(access_token@),
            AuthAction::Abort(error) => AuthActionView::Abort(*error),
            AuthAction::Ignore => AuthActionView::Ignore,
        }
    }
}

/// The address of the endpoint that issues challenges.
pub open spec fn challenge_url(api_url: Seq<char>) -> Seq<char> {
    api_url + "/v1/auth/code"@
}

/// The address of the endpoint that redeems signed challenges.
pub open spec fn token_url(api_url: Seq<char>) -> Seq<char> {
    api_url + "/v1/auth/token"@
}

/// What one step of the exchange does.
///
/// The challenge that arrives is signed and submitted as it is, together
/// with the user id and the public key as configured. A failure of either
/// network call, an answer of the wrong shape and unusable keys end the
/// exchange at once.
pub open spec fn auth_step(
    identity: IdentityView,
    api_url: Seq<char>,
    state: AuthState,
    event: AuthEventView,
) -> (AuthState, AuthActionView) {
    match state {
        AuthState::Idle => match event {
            AuthEventView::Start => (
                AuthState::AwaitingChallenge,
                AuthActionView::RequestChallenge {
                    url: challenge_url(api_url),
                    user_id: identity.user_id,
                },
            ),
            _ => (state, AuthActionView::Ignore),
        },
        AuthState::AwaitingChallenge => match event {
            AuthEventView::ChallengeIssued(auth_code) => match challenge_signature(
                auth_code,
                identity.public_key,
                identity.private_key,
            ) {
                Ok(signature) => (
                    AuthState::AwaitingToken,
                    AuthActionView::Redeem {
                        url: token_url(api_url),
                        user_id: identity.user_id,
                        auth_code,
                        signature,
                        key: identity.public_key,
                    },
                ),
                Err(error) => (AuthState::Failed, AuthActionView::Abort(error)),
            },
            AuthEventView::NetworkFailed => (
                AuthState::Failed,
                AuthActionView::Abort(AuthError::NetworkFailure),
            ),
            _ => (AuthState::Failed, AuthActionView::Abort(AuthError::MalformedResponse)),
        },
        AuthState::AwaitingToken => match event {
            AuthEventView::TokenIssued(access_token) => (
                AuthState::Authenticated,
                AuthActionView::Finish(access_token),
            ),
            AuthEventView::NetworkFailed => (
                AuthState::Failed,
                AuthActionView::Abort(AuthError::NetworkFailure),
            ),
            _ => (AuthState::Failed, AuthActionView::Abort(AuthError::MalformedResponse)),
        },
        _ => (state, AuthActionView::Ignore),
    }
}

/// Takes one step of the exchange for an access token.
///
/// A submission that this step composes carries a signature of full length,
/// in lowercase hexadecimal, that `verify_message` accepts for the challenge
/// under the configured public key.
pub fn get_acces_token(
    identity: &Identity,
    api_url: &str,
    state: AuthState,
    event: AuthEvent,
) -> (next: (AuthState, AuthAction))
    ensures
        (next.0, next.1@) == auth_step(identity@, api_url@, state, event@),
        next.1 matches AuthAction::Redeem(request) ==> {
            &&& request.signature@.len() == 2 * SIGNATURE_BYTES
            &&& forall|i: int|
                0 <= i < request.signature@.len() ==> is_lower_hex_char(
                    #[trigger] request.signature@[i],
                )
            &&& signature_verifies(request.auth_code@, identity.public_key@, request.signature@)
        },
{
    match state {
        AuthState::Idle => match event {
            AuthEvent::Start => (
                AuthState::AwaitingChallenge,
                AuthAction::RequestChallenge(
                    ChallengeRequest {
                        url: join(api_url, "/v1/auth/code"),
                        user_id: identity.user_id.clone(),
                    },
                ),
            ),
            _ => (state, AuthAction::Ignore),
        },
        AuthState::AwaitingChallenge => match event {
            AuthEvent::ChallengeIssued(auth_code) => match sign_message(
                auth_code.as_str(),
                identity.public_key.as_str(),
                identity.private_key.as_str(),
            ) {
                Ok(signature) => (
                    AuthState::AwaitingToken,
                    AuthAction::Redeem(
                        RedeemRequest {
                            url: join(api_url, "/v1/auth/token"),
                            user_id: identity.user_id.clone(),
                            auth_code,
                            signature,
                            key: identity.public_key.clone(),
                        },
                    ),
                ),
                Err(error) => (AuthState::Failed, AuthAction::Abort(error)),
            },
            AuthEvent::NetworkFailed => (
                AuthState::Failed,
                AuthAction::Abort(AuthError::NetworkFailure),
            ),
            _ => (AuthState::Failed, AuthAction::Abort(AuthError::MalformedResponse)),
        },
        AuthState::AwaitingToken => match event {
            AuthEvent::TokenIssued(access_token) => (
                AuthState::Authenticated,
                AuthAction::Finish(access_token),
            ),
            AuthEvent::NetworkFailed => (
                AuthState::Failed,
                AuthAction::Abort(AuthError::NetworkFailure),
            ),
            _ => (AuthState::Failed, AuthAction::Abort(AuthError::MalformedResponse)),
        },
        _ => (state, AuthAction::Ignore),
    }
}

/// A submission carries the challenge that was issued for it: it is
/// composed only in answer to a challenge, and with that challenge.
pub proof fn lemma_redemption_carries_the_issued_challenge(
    identity: IdentityView,
    api_url: Seq<char>,
    state: AuthState,
    event: AuthEventView,
)
    ensures
        auth_step(identity, api_url, state, event).1 matches AuthActionView::Redeem {
            auth_code,
            ..
        } ==> state == AuthState::AwaitingChallenge && event == AuthEventView::ChallengeIssued(
            auth_code,
        ),
{
}

/// Nothing is retried: an exchange that has failed or has yielded its token
/// stays as it is and asks for no further request, whatever is reported.
pub proof fn lemma_ended_exchange_stays_ended(
    identity: IdentityView,
    api_url: Seq<char>,
    state: AuthState,
    event: AuthEventView,
)
    requires
        state == AuthState::Failed || state == AuthState::Authenticated,
    ensures
        auth_step(identity, api_url, state, event) == (state, AuthActionView::Ignore),
{
}

/// A failure surfaces at once: while the exchange waits for an answer, every
/// report but the awaited one ends it with an error.
pub proof fn lemma_failure_surfaces_at_once(
    identity: IdentityView,
    api_url: Seq<char>,
    state: AuthState,
    event: AuthEventView,
)
    requires
        state == AuthState::AwaitingChallenge || state == AuthState::AwaitingToken,
        event is NetworkFailed || event is Malformed,
    ensures
        auth_step(identity, api_url, state, event) == (
            AuthState::Failed,
            AuthActionView::Abort(
                if event is NetworkFailed {
                    AuthError::NetworkFailure
                } else {
                    AuthError::MalformedResponse
                },
            ),
        ),
{
}

} // verus!
