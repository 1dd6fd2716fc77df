//! The failures that the library reports, one enumeration per subsystem.

use vstd::prelude::*;

verus! {

/// Why the challenge-response exchange did not yield an access token.
#[derive(Clone, Copy, Debug, PartialEq, Eq, Structural)]
pub enum AuthError {
    /// One of the two network calls failed.
    NetworkFailure,
    /// A response could not be decoded into the expected shape.
    MalformedResponse,
    /// The configured keys cannot be decoded or do not form a signing pair.
    InvalidKeyMaterial,
}

/// Why a capability token could not be minted.
#[derive(Clone, Copy, Debug, PartialEq, Eq, Structural)]
pub enum TokenError {
    /// Signing or serialising the fact list failed.
    SigningFailure,
}

/// Why a privileged operation on a resource did not complete.
#[derive(Clone, Copy, Debug, PartialEq, Eq, Structural)]
pub enum ProvisionError {
    /// The platform answered a request with a non-success response.
    RemoteRejected,
    /// The local record of the resource could not be written.
    PersistFailure,
    /// No usable local record exists for the referenced environment.
    ConfigMissing,
}

impl AuthError {
    /// The text shown to the operator, naming the step that failed.
    pub open spec fn message_text(self) -> Seq<char> {
        match self {
            AuthError::NetworkFailure => "authentication: network call failed"@,
            AuthError::MalformedResponse => "authentication: malformed response"@,
            AuthError::InvalidKeyMaterial => "authentication: invalid key material"@,
        }
    }

    pub fn message(&self) -> (text: String)
        ensures
            text@ == self.message_text(),
    {
        match self {
            AuthError::NetworkFailure => String::from_str("authentication: network call failed"),
            AuthError::MalformedResponse => String::from_str("authentication: malformed response"),
            AuthError::InvalidKeyMaterial => String::from_str(
                "authentication: invalid key material",
            ),
        }
    }
}

impl TokenError {
    /// The text shown to the operator, naming the step that failed.
    pub open spec fn message_text(self) -> Seq<char> {
        "capability token: signing failed"@
    }

    pub fn message(&self) -> (text: String)
        ensures
            text@ == self.message_text(),
    {
        String::from_str("capability token: signing failed")
    }
}

impl ProvisionError {
    /// The text shown to the operator, naming the step that failed.
    pub open spec fn message_text(self) -> Seq<char> {
        match self {
            ProvisionError::RemoteRejected => "provisioning: request rejected by the platform"@,
            ProvisionError::PersistFailure => "provisioning: local record could not be written"@,
            ProvisionError::ConfigMissing => "provisioning: no local record for the environment"@,
        }
    }

    pub fn message(&self) -> (text: String)
        ensures
            text@ == self.message_text(),
    {
        match self {
            ProvisionError::RemoteRejected => String::from_str(
                "provisioning: request rejected by the platform",
            ),
            ProvisionError::PersistFailure => String::from_str(
                "provisioning: local record could not be written",
            ),
            ProvisionError::ConfigMissing => String::from_str(
                "provisioning: no local record for the environment",
            ),
        }
    }
}

} // verus!
