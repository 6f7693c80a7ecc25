use vstd::prelude::*;

verus! {

/// How long a session token lives, in milliseconds: 24 hours.
pub const SESSION_TOKEN_EXP: usize = 86400000;

/// How long a refresh token lives, in milliseconds: 30 days.
pub const REFRESH_TOKEN_EXP: usize = 2592000000;

/// A timestamp a window further on, clamped at the type's bound.
pub open spec fn spec_expiry(now: usize, window: usize) -> usize {
    if now + window > usize::MAX {
        usize::MAX
    } else {
        (now + window) as usize
    }
}

fn expiry(now: usize, window: usize) -> (r: usize)
    ensures
        r == spec_expiry(now, window),
{
    if now > usize::MAX - window {
        usize::MAX
    } else {
        now + window
    }
}

/// The claims carried by a session token: the subject (user id) and the
/// expiry time in milliseconds since the epoch. Signing and verification
/// belong to the token collaborator around the library.
#[derive(Clone, Copy, Debug, PartialEq, Eq, Structural)]
pub struct SessionClaims {
    pub sub: i64,
    pub exp: usize,
}

impl SessionClaims {
    /// Session claims expiring one session window after now.
    pub fn new(sub: i64) -> (r: SessionClaims)
        ensures
            r.sub == sub,
    {
        let now = get_now_time_in_ms();
        SessionClaims::at_time(sub, now)
    }

    /// Session claims anchored at an explicit clock reading.
    pub fn at_time(sub: i64, now: usize) -> (r: SessionClaims)
        ensures
            r.sub == sub,
            r.exp == spec_expiry(now, SESSION_TOKEN_EXP),
    {
        SessionClaims { sub, exp: expiry(now, SESSION_TOKEN_EXP) }
    }
}

/// The claims carried by a refresh token; `is_refresh` distinguishes it from
/// a session token after decoding.
#[derive(Clone, Copy, Debug, PartialEq, Eq, Structural)]
pub struct RefreshClaims {
    pub sub: i64,
    pub exp: usize,
    pub is_refresh: bool,
}

impl RefreshClaims {
    /// Refresh claims expiring one refresh window after now.
    pub fn new(sub: i64) -> (r: RefreshClaims)
        ensures
            r.sub == sub,
            r.is_refresh,
    {
        let now = get_now_time_in_ms();
        RefreshClaims::at_time(sub, now)
    }

    /// Refresh claims anchored at an explicit clock reading.
    pub fn at_time(sub: i64, now: usize) -> (r: RefreshClaims)
        ensures
            r.sub == sub,
            r.exp == spec_expiry(now, REFRESH_TOKEN_EXP),
            r.is_refresh,
    {
        RefreshClaims { sub, exp: expiry(now, REFRESH_TOKEN_EXP), is_refresh: true }
    }
}

/// Milliseconds since the Unix epoch, by the system clock.
///
/// Relies on std::time::SystemTime::now; nothing can be promised of a clock
/// reading. A clock before the epoch reads as zero.
#[verifier::external_body]
pub(crate) fn get_now_time_in_ms() -> usize {
    std::time::SystemTime::now()
        .duration_since(std::time::SystemTime::UNIX_EPOCH)
        .map(|d| d.as_millis() as usize)
        .unwrap_or(0)
}

} // verus!
