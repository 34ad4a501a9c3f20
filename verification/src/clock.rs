//! Time stamps of the form `unix:<seconds>`.
use vstd::prelude::*;

use crate::text::{extend_str, push_dec, spec_dec, string_of};

verus! {

#[verifier::external_type_specification]
#[verifier::external_body]
pub struct ExSystemTime(std::time::SystemTime);

#[verifier::external_type_specification]
#[verifier::external_body]
pub struct ExSystemTimeError(std::time::SystemTimeError);

/// `std::time::SystemTime::now`: the system clock's reading. Nothing is
/// stated of it: it is the time.
#[verifier::external_body]
fn system_now() -> (t: std::time::SystemTime) {
    std::time::SystemTime::now()
}

/// `SystemTime::duration_since` the Unix epoch: the time elapsed since the
/// epoch, or an error where the reading lies before it. Nothing is stated
/// of which.
#[verifier::external_body]
fn since_epoch(t: &std::time::SystemTime) -> (r: Result<std::time::Duration, std::time::SystemTimeError>) {
    t.duration_since(std::time::UNIX_EPOCH)
}

/// `Duration::as_secs`: the whole seconds of a duration. Nothing is stated
/// of the number, as a duration is opaque here.
#[verifier::external_body]
fn whole_secs(d: &std::time::Duration) -> (secs: u64) {
    d.as_secs()
}

/// Seconds since the Unix epoch, or 0 when the clock reads before it.
fn unix_now_secs() -> (secs: u64) {
    match since_epoch(&system_now()) {
        Ok(d) => whole_secs(&d),
        Err(_) => 0,
    }
}

/// `"unix:{secs}"`.
pub open spec fn spec_unix_stamp(secs: nat) -> Seq<char> {
    "unix:"@ + spec_dec(secs)
}

/// The stamp for a given number of seconds.
pub fn unix_stamp(secs: u64) -> (r: String)
    ensures
        r@ == spec_unix_stamp(secs as nat),
{
    let mut out: Vec<char> = Vec::new();
    extend_str(&mut out, "unix:");
    push_dec(&mut out, secs);
    string_of(&out)
}

/// The stamp of the current time.
pub fn now_utc_unix() -> (r: String)
    ensures
        exists|secs: u64| r@ == spec_unix_stamp(secs as nat),
{
    let secs = unix_now_secs();
    unix_stamp(secs)
}

} // verus!
