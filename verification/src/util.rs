//! Freshness: the clock and random nonces.

use crate::wire::Nonce;
use std::time::{Duration, SystemTime};
use vstd::prelude::*;

verus! {

/// `std::time::SystemTime`: a reading of the clock. Opaque.
#[verifier::external_type_specification]
#[verifier::external_body]
pub struct ExSystemTime(SystemTime);

/// The time between the Unix epoch and a reading of the clock; `None` for a reading before it.
pub uninterp spec fn since_epoch(now: SystemTime) -> Option<Duration>;

/// The whole seconds of a span of time.
pub uninterp spec fn whole_secs(span: Duration) -> u64;

/// `std::time::SystemTime::now`. What it reads depends on the machine's clock alone, so nothing is
/// claimed of it.
pub assume_specification [SystemTime::now]() -> SystemTime;

/// `std::time::SystemTime::duration_since` the Unix epoch, of which only the success is kept. It
/// depends on the reading alone.
#[verifier::external_body]
fn duration_since_epoch(now: &SystemTime) -> (span: Option<Duration>)
    ensures
        span == since_epoch(*now),
{
    now.duration_since(SystemTime::UNIX_EPOCH).ok()
}

/// `std::time::Duration::as_secs`. It depends on the span alone.
pub assume_specification [Duration::as_secs](span: &Duration) -> (secs: u64)
    ensures
        secs == whole_secs(*span),
;

/// `rand::random`: 32 bytes from the thread's generator. They are drawn by chance, so nothing
/// is claimed of them.
#[verifier::external_body]
pub(crate) fn random_nonce() -> (nonce: Nonce) {
    rand::random()
}

/// Whether the random generator has given this nonce.
pub closed spec fn drawn(nonce: Seq<u8>) -> bool {
    exists|given: Nonce| given@ == nonce && #[trigger] call_ensures(random_nonce, (), given)
}

/// A drawn nonce is what some call of the generator returned, and nothing else is.
pub(crate) proof fn drawn_nonces_are_given_by_the_generator(nonce: Seq<u8>)
    ensures
        drawn(nonce) <==> exists|given: Nonce|
            given@ == nonce && #[trigger] call_ensures(random_nonce, (), given),
        drawn(nonce) ==> nonce.len() == 32,
{
}

/// A nonce that is drawn now.
pub(crate) fn draw_nonce() -> (nonce: Nonce)
    ensures
        drawn(nonce@),
{
    random_nonce()
}

/// Whether the machine's clock has given this reading.
pub open spec fn clock_gave(reading: SystemTime) -> bool {
    call_ensures(SystemTime::now, (), reading)
}

/// The seconds of a clock reading; 0 for a clock before the epoch.
pub fn epoch_secs(reading: Option<u64>) -> (secs: u64)
    ensures
        secs == (match reading {
            Some(secs) => secs,
            None => 0,
        }),
{
    match reading {
        Some(secs) => secs,
        None => 0,
    }
}

/// The whole seconds between the Unix epoch and a reading of the clock; 0 for a reading before it.
pub open spec fn secs_at(now: SystemTime) -> u64 {
    match since_epoch(now) {
        Some(span) => whole_secs(span),
        None => 0,
    }
}

/// Current wall-clock time as whole seconds since the Unix epoch.
///
/// Used as an *optional* freshness marker inside the signed transcript; the
/// random challenge nonce is the primary anti-replay mechanism.
pub fn unix_secs() -> (secs: u64)
    ensures
        exists|now: SystemTime|
            call_ensures(SystemTime::now, (), now) && (since_epoch(now) matches Some(span)
                ==> secs == whole_secs(span)) && (since_epoch(now) is None ==> secs == 0) && secs
                == #[trigger] secs_at(now),
{
    let now = SystemTime::now();
    let reading = match duration_since_epoch(&now) {
        Some(span) => Some(span.as_secs()),
        None => None,
    };
    let secs: u64 = epoch_secs(reading);
    assert(secs == secs_at(now));
    secs
}

/// Whether two timestamps lie at most `max` seconds apart; any two do where there is no limit.
pub open spec fn fresh(max: Option<u64>, ours: u64, theirs: u64) -> bool {
    max matches Some(limit) ==> -limit <= ours - theirs <= limit
}

/// Whether a peer's timestamp is within the tolerance.
pub fn is_fresh(max: Option<u64>, ours: u64, theirs: u64) -> (ok: bool)
    ensures
        ok == fresh(max, ours, theirs),
        max is None ==> ok,
        max matches Some(limit) ==> (ok <==> ours <= theirs + limit && theirs <= ours + limit),
{
    match max {
        Some(limit) => {
            let apart: u64 = if ours < theirs {
                theirs - ours
            } else {
                ours - theirs
            };
            apart <= limit
        },
        None => true,
    }
}

} // verus!
