//! The capture capability: privilege check, clocks, and the reads of volatile
//! state that a snapshot is made of.

use std::time::Duration;
use std::time::Instant;
use std::time::SystemTime;
use std::time::SystemTimeError;
use std::time::UNIX_EPOCH;
use vstd::prelude::*;

verus! {

/// `std::time::Instant`, a reading of the monotonic clock. Opaque here.
#[verifier::external_type_specification]
#[verifier::external_body]
pub struct ExInstant(Instant);

/// `std::time::SystemTime`, a reading of the wall clock. Opaque here.
#[verifier::external_type_specification]
#[verifier::external_body]
pub struct ExSystemTime(SystemTime);

/// `std::time::SystemTimeError`: the second reading lies before the first.
#[verifier::external_type_specification]
#[verifier::external_body]
pub struct ExSystemTimeError(SystemTimeError);

/// `Instant::now` reads the monotonic clock. Nothing is known of the reading.
pub assume_specification[ Instant::now ]() -> (now: Instant);

/// `Instant::elapsed` gives the time since the reading was taken. Nothing is
/// known of its length.
pub assume_specification[ Instant::elapsed ](start: &Instant) -> (elapsed: Duration);

/// `Duration::as_nanos` gives the whole duration in nanoseconds.
pub assume_specification[ Duration::as_nanos ](d: &Duration) -> (nanos: u128);

/// `SystemTime::now` reads the wall clock. Nothing is known of the reading.
pub assume_specification[ SystemTime::now ]() -> (now: SystemTime);

/// `SystemTime::duration_since` with `UNIX_EPOCH`: the time from the epoch to
/// the reading, or an error for a reading that lies before the epoch.
#[verifier::external_body]
fn since_unix_epoch(reading: &SystemTime) -> (r: Result<Duration, SystemTimeError>) {
    reading.duration_since(UNIX_EPOCH)
}

/// Nanoseconds since the Unix epoch by the wall clock. Nothing is known of
/// what the clock reads; `epoch_ns_from` states how the reading becomes the
/// timestamp.
pub(crate) fn system_epoch_ns() -> u64 {
    let now = SystemTime::now();
    let since_epoch: Option<u128> = match since_unix_epoch(&now) {
        Ok(elapsed) => Some(elapsed.as_nanos()),
        Err(_) => None,
    };
    epoch_ns_from(since_epoch)
}

/// Nanoseconds that have passed since `start` was read. Nothing is known of
/// how many they are.
pub(crate) fn elapsed_nanos(start: &Instant) -> u128 {
    let elapsed = start.elapsed();
    elapsed.as_nanos()
}

/// Number of values of a 64-bit timestamp.
pub const EPOCH_NS_MODULUS: u128 = 0x1_0000_0000_0000_0000;

/// The timestamp for a wall-clock reading, given as nanoseconds since the
/// Unix epoch: its low 64 bits. A clock that stands before the epoch has no
/// such reading, and the timestamp is zero.
pub fn epoch_ns_from(since_epoch: Option<u128>) -> (timestamp: u64)
    ensures
        since_epoch matches Some(nanos) ==> timestamp == nanos % EPOCH_NS_MODULUS,
        since_epoch is None ==> timestamp == 0,
{
    match since_epoch {
        Some(nanos) => {
            let low: u128 = nanos % EPOCH_NS_MODULUS;
            low as u64
        },
        None => 0,
    }
}

/// System-level data capture, supplied by the platform that the snapshot is
/// taken on. Nothing is promised of what an implementation returns.
pub trait SystemCaptureAPI: Send + Sync + 'static {
    /// Whether the caller holds the privileges that a capture needs.
    fn check_privilege() -> bool;

    /// The current time in nanoseconds since the Unix epoch.
    fn get_current_epoch_ns() -> u64 {
        system_epoch_ns()
    }

    /// Reads the predefined volatile memory regions.
    fn capture_volatile_memory() -> Result<Vec<u8>, ()>;

    /// Captures the execution stack trace. Best effort: it cannot fail.
    fn capture_execution_stack() -> String;
}

/// A provider for hosts without privileged access: every call
/// succeeds and returns fixed data.
pub struct DefaultCaptureProvider;

/// The memory image that `DefaultCaptureProvider` returns.
pub open spec fn default_memory_image() -> Seq<u8> {
    seq![0xAAu8, 0xBBu8, 0xCCu8, 0xDDu8, 0xEEu8, 0xFFu8]
}

impl SystemCaptureAPI for DefaultCaptureProvider {
    fn check_privilege() -> (granted: bool)
        ensures
            granted,
    {
        true
    }

    fn capture_volatile_memory() -> (r: Result<Vec<u8>, ()>)
        ensures
            r matches Ok(image) && image@ == default_memory_image(),
    {
        let mut image: Vec<u8> = Vec::new();
        image.push(0xAA);
        image.push(0xBB);
        image.push(0xCC);
        image.push(0xDD);
        image.push(0xEE);
        image.push(0xFF);
        assert(image@ =~= default_memory_image());
        Ok(image)
    }

    fn capture_execution_stack() -> (trace: String)
        ensures
            trace@ == "RT_THREAD_0x1A: MAIN_LOOP -> ASG_GENERATE_CALL"@,
    {
        String::from_str("RT_THREAD_0x1A: MAIN_LOOP -> ASG_GENERATE_CALL")
    }
}

} // verus!
