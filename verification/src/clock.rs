//! The wall clock, in milliseconds since the Unix epoch.

use std::time::{Duration, SystemTime};
use vstd::prelude::*;

verus! {

/// A reading of the system clock, carried as an opaque value.
#[verifier::external_type_specification]
#[verifier::external_body]
pub struct ExSystemTime(SystemTime);

/// Calls `SystemTime::now`. The reading depends on the machine, so nothing is
/// claimed of it.
#[verifier::external_body]
fn system_now() -> (t: SystemTime) {
    SystemTime::now()
}

/// Calls `SystemTime::duration_since` with the Unix epoch; `None` where the
/// clock stands before the epoch.
#[verifier::external_body]
fn since_epoch(t: &SystemTime) -> (d: Option<Duration>) {
    t.duration_since(std::time::UNIX_EPOCH).ok()
}

/// Calls `Duration::as_millis`: the whole milliseconds in the duration.
#[verifier::external_body]
fn whole_millis(d: &Duration) -> (ms: u128) {
    d.as_millis()
}

/// Sixty-four bits read as a signed number in two's complement: the number
/// itself below two to the 63rd, and the number less two to the 64th from
/// there on.
pub open spec fn signed_of(bits: u64) -> i64 {
    if bits <= i64::MAX as u64 {
        bits as i64
    } else {
        (bits - 0x1_0000_0000_0000_0000) as i64
    }
}

/// Reads sixty-four bits as a signed number.
pub fn to_signed(bits: u64) -> (r: i64)
    ensures
        r == signed_of(bits),
{
    if bits <= 0x7fff_ffff_ffff_ffff {
        bits as i64
    } else {
        let low: u64 = bits - 0x8000_0000_0000_0000;
        (low as i64) + (-0x7fff_ffff_ffff_ffff - 1)
    }
}

/// The low 64 bits of a count of milliseconds, read as a signed number: the
/// count itself wherever it fits.
pub fn millis_to_i64(ms: u128) -> (r: i64)
    ensures
        r == signed_of((ms % 0x1_0000_0000_0000_0000) as u64),
        ms <= i64::MAX ==> r == ms,
{
    let low: u128 = ms % 0x1_0000_0000_0000_0000;
    to_signed(low as u64)
}

/// Milliseconds between the Unix epoch and a reading of the clock, and zero
/// for a reading from before the epoch.
pub fn epoch_millis(elapsed: Option<u128>) -> (r: i64)
    ensures
        r == match elapsed {
            Some(ms) => signed_of((ms % 0x1_0000_0000_0000_0000) as u64),
            None => 0i64,
        },
{
    match elapsed {
        Some(ms) => millis_to_i64(ms),
        None => 0,
    }
}

/// The current time in milliseconds since the Unix epoch; zero where the
/// clock stands before the epoch.
pub fn unix_millis_now() -> (r: i64) {
    let t = system_now();
    let elapsed: Option<u128> = match since_epoch(&t) {
        Some(d) => Some(whole_millis(&d)),
        None => None,
    };
    epoch_millis(elapsed)
}

} // verus!
