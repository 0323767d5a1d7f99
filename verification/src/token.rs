//! Access tokens, client registrations and the instants they are judged at.

use vstd::prelude::*;

verus! {

/// The earliest instant `chrono` represents, in seconds since the Unix epoch.
pub const MIN_UTC_SECS: i64 = -8_334_601_315_200;
/// The latest second `chrono` represents, in seconds since the Unix epoch.
pub const MAX_UTC_SECS: i64 = 8_210_266_876_799;
/// The largest number of seconds that `chrono` turns into a duration.
pub const MAX_DELTA_SECS: i64 = 9_223_372_036_854_775;

/// An instant: whole seconds since the Unix epoch and nanoseconds past them.
#[derive(Debug, Clone, Copy, PartialEq, Eq, Structural)]
pub struct Timestamp {
    pub secs: i64,
    pub nanos: u32,
}

/// `a` is not earlier than `b`.
pub open spec fn ts_ge(a: Timestamp, b: Timestamp) -> bool {
    a.secs > b.secs || (a.secs == b.secs && a.nanos >= b.nanos)
}

/// `t` lies in the range of instants `chrono` represents.
pub open spec fn in_utc_range(t: Timestamp) -> bool {
    MIN_UTC_SECS <= t.secs <= MAX_UTC_SECS && t.nanos < 1_000_000_000
}

/// `chrono::Utc::now`, as seconds and nanoseconds since the Unix epoch.
/// What instant comes back is not stated, only that it lies at or after
/// the epoch (chrono fails on an earlier system clock) and within chrono's
/// range.
#[verifier::external_body]
pub(crate) fn now() -> (t: Timestamp)
    ensures
        in_utc_range(t),
        t.secs >= 0,
{
    let t = chrono::Utc::now();
    Timestamp { secs: t.timestamp(), nanos: t.timestamp_subsec_nanos() }
}

impl Timestamp {
    /// `self` is not earlier than `other`.
    pub fn is_at_or_after(&self, other: &Timestamp) -> (r: bool)
        ensures
            r == ts_ge(*self, *other),
    {
        self.secs > other.secs || (self.secs == other.secs && self.nanos >= other.nanos)
    }

    /// The instant `secs` seconds later.
    pub fn plus_seconds(&self, secs: i64) -> (r: Timestamp)
        requires
            -MAX_DELTA_SECS <= secs <= MAX_DELTA_SECS,
            in_utc_range(*self),
            MIN_UTC_SECS <= self.secs + secs <= MAX_UTC_SECS,
        ensures
            r == (Timestamp { secs: (self.secs + secs) as i64, nanos: self.nanos }),
            in_utc_range(r),
    {
        Timestamp { secs: self.secs + secs, nanos: self.nanos }
    }
}

/// A client registration with the sign-in service.
#[derive(Debug, Clone)]
pub struct DeviceRegistration {
    pub client_id: String,
    pub client_secret: String,
    pub client_id_issued_at: i64,
    pub client_secret_expires_at: i64,
    pub start_url: String,
    pub scopes: Vec<String>,
}

/// An access token with the means to refresh it.
#[derive(Debug, Clone)]
pub struct BuilderIdToken {
    pub access_token: String,
    pub refresh_token: String,
    pub expires_at: Timestamp,
    pub region: String,
    pub start_url: String,
    pub scopes: Vec<String>,
}

/// Copies a list of strings.
pub fn clone_strings(v: &Vec<String>) -> (r: Vec<String>)
    ensures
        r@ == v@,
{
    let mut r: Vec<String> = Vec::new();
    let mut i: usize = 0;
    while i < v.len()
        invariant
            i <= v@.len(),
            r@ == v@.take(i as int),
        decreases v@.len() - i,
    {
        r.push(v[i].clone());
        proof {
            assert(r@ =~= v@.take(i + 1));
        }
        i = i + 1;
    }
    proof {
        assert(v@.take(v@.len() as int) =~= v@);
    }
    r
}

/// `expires_at` is no later than `buffer_secs` seconds after `now`.
pub open spec fn expires_within(expires_at: Timestamp, now: Timestamp, buffer_secs: int) -> bool {
    now.secs + buffer_secs > expires_at.secs || (now.secs + buffer_secs == expires_at.secs
        && now.nanos >= expires_at.nanos)
}

/// Expiry and the refresh margin agree: with no margin, a token expires soon
/// exactly when it has expired; a wider margin only adds tokens that expire
/// soon, so an expired token expires soon for every margin that is not
/// negative.
pub proof fn law_expiry_margin(expires_at: Timestamp, now: Timestamp, narrow: int, wide: int)
    requires
        0 <= narrow <= wide,
    ensures
        expires_within(expires_at, now, 0) == ts_ge(now, expires_at),
        expires_within(expires_at, now, narrow) ==> expires_within(expires_at, now, wide),
        ts_ge(now, expires_at) ==> expires_within(expires_at, now, narrow),
{
}

impl BuilderIdToken {
    /// The token has expired at `now`.
    pub fn is_expired_at(&self, now: Timestamp) -> (r: bool)
        ensures
            r == ts_ge(now, self.expires_at),
    {
        now.is_at_or_after(&self.expires_at)
    }

    /// The token has expired now.
    pub fn is_expired(&self) -> (r: bool)
        ensures
            exists|t: Timestamp| in_utc_range(t) && t.secs >= 0 && r == ts_ge(t, self.expires_at),
    {
        let t = now();
        self.is_expired_at(t)
    }

    /// The token expires within `buffer_secs` seconds after `now`.
    pub fn expires_soon_at(&self, now: Timestamp, buffer_secs: i64) -> (r: bool)
        ensures
            r == expires_within(self.expires_at, now, buffer_secs as int),
    {
        let shifted = now.secs as i128 + buffer_secs as i128;
        shifted > self.expires_at.secs as i128 || (shifted == self.expires_at.secs as i128
            && now.nanos >= self.expires_at.nanos)
    }

    /// The token expires within `buffer_secs` seconds from now.
    pub fn expires_soon(&self, buffer_secs: i64) -> (r: bool)
        ensures
            exists|t: Timestamp| in_utc_range(t) && t.secs >= 0 && r == expires_within(self.expires_at, t, buffer_secs as int),
    {
        let t = now();
        self.expires_soon_at(t, buffer_secs)
    }

    /// The token a refresh answer gives: the new access token, the new
    /// refresh token (the old one when none is given), expiring `expires_in`
    /// seconds after `now`, for the same region, start URL and scopes.
    pub fn refreshed(
        &self,
        access_token: String,
        refresh_token: Option<String>,
        expires_in: i64,
        now: Timestamp,
    ) -> (t: BuilderIdToken)
        requires
            -MAX_DELTA_SECS <= expires_in <= MAX_DELTA_SECS,
            in_utc_range(now),
            MIN_UTC_SECS <= now.secs + expires_in <= MAX_UTC_SECS,
        ensures
            t.access_token == access_token,
            t.refresh_token == match refresh_token {
                Some(r) => r,
                None => self.refresh_token,
            },
            t.expires_at == (Timestamp { secs: (now.secs + expires_in) as i64, nanos: now.nanos }),
            t.region == self.region,
            t.start_url == self.start_url,
            t.scopes@ == self.scopes@,
    {
        BuilderIdToken {
            access_token,
            refresh_token: match refresh_token {
                Some(r) => r,
                None => self.refresh_token.clone(),
            },
            expires_at: now.plus_seconds(expires_in),
            region: self.region.clone(),
            start_url: self.start_url.clone(),
            scopes: clone_strings(&self.scopes),
        }
    }

    /// The token a device-code grant gives for `registration` in `region`:
    /// the access token, the refresh token (empty when none is given),
    /// expiring `expires_in` seconds after `now`, with the registration's
    /// start URL and scopes.
    pub fn issued(
        access_token: String,
        refresh_token: Option<String>,
        expires_in: i64,
        now: Timestamp,
        region: String,
        registration: &DeviceRegistration,
    ) -> (t: BuilderIdToken)
        requires
            -MAX_DELTA_SECS <= expires_in <= MAX_DELTA_SECS,
            in_utc_range(now),
            MIN_UTC_SECS <= now.secs + expires_in <= MAX_UTC_SECS,
        ensures
            t.access_token == access_token,
            t.refresh_token@ == match refresh_token {
                Some(r) => r@,
                None => Seq::<char>::empty(),
            },
            t.expires_at == (Timestamp { secs: (now.secs + expires_in) as i64, nanos: now.nanos }),
            t.region == region,
            t.start_url == registration.start_url,
            t.scopes@ == registration.scopes@,
    {
        BuilderIdToken {
            access_token,
            refresh_token: match refresh_token {
                Some(r) => r,
                None => String::new(),
            },
            expires_at: now.plus_seconds(expires_in),
            region,
            start_url: registration.start_url.clone(),
            scopes: clone_strings(&registration.scopes),
        }
    }
}

} // verus!
