//! Access-token claims and the clock they are stamped with.

use vstd::prelude::*;
use std::time::{Duration, SystemTime, SystemTimeError};

verus! {

/// How long an access token is valid, in seconds.
pub const ACCESS_TTL_SECS: u64 = 3600;

/// The claims carried by an access token.
#[derive(Clone, Debug, PartialEq)]
pub struct Claim {
    pub sub: String,
    pub exp: usize,
    pub iat: usize,
    pub username: String,
    pub user_type: String,
    pub role: String,
    pub name: String,
}

/// The claims of an access token issued at `now` to the given user: subject and
/// username are the username, and it expires `ACCESS_TTL_SECS` later.
pub fn access_claim(now: u64, username: &str, user_type: &str, role: &str, name: &str) -> (c: Claim)
    requires
        now + ACCESS_TTL_SECS <= u64::MAX,
    ensures
        c.sub@ == username@,
        c.username@ == username@,
        c.user_type@ == user_type@,
        c.role@ == role@,
        c.name@ == name@,
        c.iat == now as usize,
        c.exp == (now + ACCESS_TTL_SECS) as usize,
{
    Claim {
        sub: String::from_str(username),
        iat: now as usize,
        exp: (now + ACCESS_TTL_SECS) as usize,
        username: String::from_str(username),
        user_type: String::from_str(user_type),
        role: String::from_str(role),
        name: String::from_str(name),
    }
}

/// `std::time::SystemTime`, carried opaquely from the clock to the epoch
/// difference.
#[verifier::external_type_specification]
#[verifier::external_body]
pub struct ExSystemTime(SystemTime);

/// `std::time::SystemTimeError`, the error of a clock set before the epoch.
#[verifier::external_type_specification]
#[verifier::external_body]
pub struct ExSystemTimeError(SystemTimeError);

/// `SystemTime::now`: the current time. Nothing is stated of it.
#[verifier::external_body]
fn system_now() -> (t: SystemTime) {
    SystemTime::now()
}

/// `SystemTime::duration_since(UNIX_EPOCH)`: the time elapsed since the Unix
/// epoch, or an error when `t` is earlier. Nothing is stated of it.
#[verifier::external_body]
fn since_unix_epoch(t: &SystemTime) -> (r: Result<Duration, SystemTimeError>) {
    t.duration_since(std::time::UNIX_EPOCH)
}

/// `Duration::as_secs`: the whole seconds of `d`. Nothing is stated of it.
#[verifier::external_body]
fn whole_secs(d: &Duration) -> (r: u64) {
    d.as_secs()
}

/// Seconds since the Unix epoch from a reading of the clock: `since` holds the
/// whole seconds elapsed since the epoch, or nothing when the clock read earlier
/// than the epoch, which counts as 0.
pub fn epoch_secs(since: Option<u64>) -> (r: u64)
    ensures
        r == match since {
            Some(s) => s,
            None => 0,
        },
{
    match since {
        Some(s) => s,
        None => 0,
    }
}

/// Seconds since the Unix epoch by the system clock, or 0 when the clock reads
/// earlier than that (`epoch_secs` of the clock's reading).
pub fn now_secs() -> (r: u64) {
    let t: SystemTime = system_now();
    let since: Option<u64> = match since_unix_epoch(&t) {
        Ok(d) => Some(whole_secs(&d)),
        Err(_) => None,
    };
    epoch_secs(since)
}

} // verus!
