//! The device-authorization sign-in flow: its constants, the answers it
//! reads and the decisions of its polling loop.

use vstd::prelude::*;
use crate::text::{owned, push_str};
use crate::token::{BuilderIdToken, DeviceRegistration, Timestamp, now, ts_ge, in_utc_range};

verus! {

/// The start URL of AWS Builder ID.
pub const START_URL: &'static str = "https://view.awsapps.com/start";
/// The client name the client registers under.
pub const CLIENT_NAME: &'static str = "Kiro CLI";
/// The client type the client registers as.
pub const CLIENT_TYPE: &'static str = "public";
/// The grant type of the device-code flow.
pub const DEVICE_CODE_GRANT_TYPE: &'static str = "urn:ietf:params:oauth:grant-type:device_code";
/// The grant type of a token refresh.
pub const REFRESH_TOKEN_GRANT_TYPE: &'static str = "refresh_token";

/// The answer to a device-authorization request.
#[derive(Debug, Clone)]
pub struct DeviceAuthorizationResponse {
    pub device_code: String,
    pub user_code: String,
    pub verification_uri: String,
    pub verification_uri_complete: Option<String>,
    pub expires_in: u64,
    pub interval: u64,
}

/// Why polling for a token did not (yet) give one.
#[derive(Debug)]
pub enum PollError {
    AuthorizationPending,
    SlowDown,
    ExpiredToken,
    AccessDenied,
    /// Any other failure, by its message.
    Other(String),
}

/// The mathematical content of a [`PollError`].
pub enum PollErrorView {
    AuthorizationPending,
    SlowDown,
    ExpiredToken,
    AccessDenied,
    Other(Seq<char>),
}

impl View for PollError {
    type V = PollErrorView;

    open spec fn view(&self) -> PollErrorView {
        match self {
            PollError::AuthorizationPending => PollErrorView::AuthorizationPending,
            PollError::SlowDown => PollErrorView::SlowDown,
            PollError::ExpiredToken => PollErrorView::ExpiredToken,
            PollError::AccessDenied => PollErrorView::AccessDenied,
            PollError::Other(s) => PollErrorView::Other(s@),
        }
    }
}

/// How `format!("{:?}", ..)` renders a string (quoted and escaped).
pub uninterp spec fn str_debug_text(s: Seq<char>) -> Seq<char>;

/// `<str as Debug>::fmt` through `format!`: the string in double quotes,
/// with quotes, backslashes and non-printable characters escaped.
#[verifier::external_body]
fn debug_str(s: &str) -> (r: String)
    ensures
        r@ == str_debug_text(s@),
{
    format!("{:?}", s)
}

/// How an optional string is rendered for debugging.
pub open spec fn optional_debug_text(o: Option<Seq<char>>) -> Seq<char> {
    match o {
        Some(s) => "Some("@ + str_debug_text(s) + ")"@,
        None => "None"@,
    }
}

/// The poll outcome that the sign-in service's error `error` (with
/// `error_description`) stands for.
pub open spec fn spec_oidc_error(error: Seq<char>, error_description: Option<Seq<char>>) -> PollErrorView {
    if error == "authorization_pending"@ {
        PollErrorView::AuthorizationPending
    } else if error == "slow_down"@ {
        PollErrorView::SlowDown
    } else if error == "expired_token"@ {
        PollErrorView::ExpiredToken
    } else if error == "access_denied"@ {
        PollErrorView::AccessDenied
    } else {
        PollErrorView::Other(
            "Token creation failed: "@ + error + " - "@ + optional_debug_text(error_description),
        )
    }
}

/// How an optional string is rendered for debugging (`format!("{:?}", ..)`).
pub fn debug_optional(o: &Option<String>) -> (r: String)
    ensures
        r@ == optional_debug_text(
            match o {
                Some(s) => Some(s@),
                None => None,
            },
        ),
{
    match o {
        Some(d) => {
            let mut m = owned("Some(");
            push_str(&mut m, debug_str(d.as_str()).as_str());
            push_str(&mut m, ")");
            m
        },
        None => owned("None"),
    }
}

impl PollError {
    /// The poll outcome that an error answer of the sign-in service stands for.
    pub fn from_oidc_error(error: String, error_description: Option<String>) -> (r: PollError)
        ensures
            r@ == spec_oidc_error(
                error@,
                match error_description {
                    Some(d) => Some(d@),
                    None => None,
                },
            ),
    {
        if error == owned("authorization_pending") {
            PollError::AuthorizationPending
        } else if error == owned("slow_down") {
            PollError::SlowDown
        } else if error == owned("expired_token") {
            PollError::ExpiredToken
        } else if error == owned("access_denied") {
            PollError::AccessDenied
        } else {
            let mut m = owned("Token creation failed: ");
            push_str(&mut m, error.as_str());
            push_str(&mut m, " - ");
            push_str(&mut m, debug_optional(&error_description).as_str());
            PollError::Other(m)
        }
    }

    /// The message of the error.
    pub open spec fn spec_message(&self) -> Seq<char> {
        match self {
            PollError::AuthorizationPending => "authorization pending"@,
            PollError::SlowDown => "slow down"@,
            PollError::ExpiredToken => "token expired"@,
            PollError::AccessDenied => "access denied"@,
            PollError::Other(s) => s@,
        }
    }

    /// The message of the error.
    pub fn message(&self) -> (r: String)
        ensures
            r@ == self.spec_message(),
    {
        match self {
            PollError::AuthorizationPending => owned("authorization pending"),
            PollError::SlowDown => owned("slow down"),
            PollError::ExpiredToken => owned("token expired"),
            PollError::AccessDenied => owned("access denied"),
            PollError::Other(s) => s.clone(),
        }
    }
}

impl DeviceRegistration {
    /// The registration that a registration answer gives: the client id and
    /// secret with their times, for AWS Builder ID, with `scopes`.
    pub fn registered(
        client_id: String,
        client_secret: String,
        client_id_issued_at: i64,
        client_secret_expires_at: i64,
        scopes: &[&str],
    ) -> (r: DeviceRegistration)
        ensures
            r.client_id == client_id,
            r.client_secret == client_secret,
            r.client_id_issued_at == client_id_issued_at,
            r.client_secret_expires_at == client_secret_expires_at,
            r.start_url@ == START_URL@,
            r.scopes@.len() == scopes@.len(),
            forall|i: int| 0 <= i < scopes@.len() ==> #[trigger] r.scopes@[i]@ == scopes@[i]@,
    {
        DeviceRegistration {
            client_id,
            client_secret,
            client_id_issued_at,
            client_secret_expires_at,
            start_url: owned(START_URL),
            scopes: strings_of(scopes),
        }
    }
}

/// Owned copies of string slices.
pub fn strings_of(v: &[&str]) -> (r: Vec<String>)
    ensures
        r@.len() == v@.len(),
        forall|i: int| 0 <= i < v@.len() ==> #[trigger] r@[i]@ == v@[i]@,
{
    let mut r: Vec<String> = Vec::new();
    let mut i: usize = 0;
    while i < v.len()
        invariant
            i <= v@.len(),
            r@.len() == i,
            forall|j: int| 0 <= j < i ==> #[trigger] r@[j]@ == v@[j]@,
        decreases v@.len() - i,
    {
        r.push(owned(v[i]));
        i = i + 1;
    }
    r
}

/// The state of the token polling loop: the current wait between attempts
/// and when the device code expires.
pub struct PollSchedule {
    pub interval_secs: u64,
    pub expires_at: Timestamp,
}

impl PollSchedule {
    /// Polling every `interval_secs` seconds until `expires_at`.
    pub fn new(interval_secs: u64, expires_at: Timestamp) -> (s: Self)
        ensures
            s.interval_secs == interval_secs,
            s.expires_at == expires_at,
    {
        PollSchedule { interval_secs, expires_at }
    }

    /// Before an attempt at `now`: the device code has expired (give up
    /// with `ExpiredToken`), or wait the current interval and try.
    pub fn before_attempt_at(&self, now: Timestamp) -> (r: Option<PollError>)
        ensures
            ts_ge(now, self.expires_at) ==> r matches Some(PollError::ExpiredToken),
            !ts_ge(now, self.expires_at) ==> r is None,
    {
        if now.is_at_or_after(&self.expires_at) {
            Some(PollError::ExpiredToken)
        } else {
            None
        }
    }

    /// Before an attempt now.
    pub fn before_attempt(&self) -> (r: Option<PollError>)
        ensures
            exists|t: Timestamp|
                in_utc_range(t) && t.secs >= 0 && (ts_ge(t, self.expires_at) ==> r matches Some(
                    PollError::ExpiredToken,
                )) && (!ts_ge(t, self.expires_at) ==> r is None),
    {
        let t = now();
        self.before_attempt_at(t)
    }

    /// After an attempt: a token ends the loop with it; a pending
    /// authorization tries again; a slow-down tries again five seconds
    /// slower; any other error ends the loop with it.
    pub fn after_attempt(&mut self, outcome: Result<BuilderIdToken, PollError>) -> (r: Option<Result<BuilderIdToken, PollError>>)
        requires
            outcome matches Err(PollError::SlowDown) ==> old(self).interval_secs + 5 <= u64::MAX,
        ensures
            final(self).expires_at == old(self).expires_at,
            match outcome {
                Ok(t) => r == Some(Ok::<BuilderIdToken, PollError>(t)) && final(self).interval_secs
                    == old(self).interval_secs,
                Err(PollError::AuthorizationPending) => r is None && final(self).interval_secs
                    == old(self).interval_secs,
                Err(PollError::SlowDown) => r is None && final(self).interval_secs
                    == old(self).interval_secs + 5,
                Err(e) => (r matches Some(Err(e2)) && e2@ == e@) && final(self).interval_secs
                    == old(self).interval_secs,
            },
    {
        match outcome {
            Ok(token) => Some(Ok(token)),
            Err(PollError::AuthorizationPending) => None,
            Err(PollError::SlowDown) => {
                self.interval_secs = self.interval_secs + 5;
                None
            },
            Err(e) => Some(Err(e)),
        }
    }
}

} // verus!
