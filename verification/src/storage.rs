//! Where the token and the registration are kept in the credential store.

use vstd::prelude::*;

verus! {

/// Credential-store key of the access token.
pub const TOKEN_KEY: &'static str = "codewhisperer:odic:token";
/// Credential-store key of the client registration.
pub const REGISTRATION_KEY: &'static str = "codewhisperer:odic:device-registration";
/// User name under which both are stored.
pub const CREDENTIALS_USERNAME: &'static str = "kiro";

} // verus!
