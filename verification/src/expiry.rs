use vstd::prelude::*;

verus! {

/// How long a quote stays valid, in minutes.
pub const QUOTE_EXPIRY_MINUTES: u64 = 30;

/// How long a quote stays valid, in seconds.
pub open spec fn quote_lifetime_secs() -> int {
    QUOTE_EXPIRY_MINUTES as int * 60
}

/// The last second that `chrono` can represent as a UTC date and time: the
/// end of the year 262142.
pub open spec fn max_utc_timestamp() -> int {
    8_210_266_876_799
}

/// `std::time::SystemTime`, a reading of the system clock.
#[verifier::external_type_specification]
#[verifier::external_body]
pub struct ExSystemTime(std::time::SystemTime);

/// `std::time::SystemTimeError`, a clock reading earlier than the one asked
/// to measure from.
#[verifier::external_type_specification]
#[verifier::external_body]
pub struct ExSystemTimeError(std::time::SystemTimeError);

/// Calls `std::time::SystemTime::now`. The reading is the machine's clock;
/// nothing is claimed of it.
#[verifier::external_body]
fn system_time_now() -> (t: std::time::SystemTime) {
    std::time::SystemTime::now()
}

/// Calls `SystemTime::duration_since` with `UNIX_EPOCH`: the time elapsed
/// since the Unix epoch, or an error where the reading is earlier than the
/// epoch. Nothing more is claimed, as nothing of the reading is described.
#[verifier::external_body]
fn duration_since_unix_epoch(t: &std::time::SystemTime) -> (r: Result<
    core::time::Duration,
    std::time::SystemTimeError,
>) {
    t.duration_since(std::time::UNIX_EPOCH)
}

/// Calls `Duration::as_secs`: the whole seconds of a duration. Nothing is
/// claimed of the value, as nothing of the duration is described.
#[verifier::external_body]
fn duration_whole_secs(d: &core::time::Duration) -> (secs: u64) {
    d.as_secs()
}

/// Calls `Duration::subsec_nanos`: the nanoseconds beyond the whole
/// seconds, which the documentation says are always below one billion.
#[verifier::external_body]
fn duration_subsec_nanos(d: &core::time::Duration) -> (nanos: u32)
    ensures
        nanos < 1_000_000_000,
{
    d.subsec_nanos()
}

/// Calls `chrono::DateTime::<Utc>::from_timestamp` and reads the Unix
/// timestamp of the result back. Claimed, from the crate's source and
/// documentation: the constructor succeeds on every second from the epoch
/// to the last one that `chrono` represents when the nanoseconds are below
/// one billion; whatever it returns lies no later than that last second;
/// and the timestamp round-trips.
#[verifier::external_body]
fn utc_from_timestamp(secs: i64, nanos: u32) -> (t: Option<i64>)
    ensures
        0 <= secs <= max_utc_timestamp() && nanos < 1_000_000_000 ==> t == Some(secs),
        t matches Some(v) ==> v == secs && v <= max_utc_timestamp(),
{
    match chrono::DateTime::<chrono::Utc>::from_timestamp(secs, nanos) {
        Some(dt) => Some(dt.timestamp()),
        None => None,
    }
}

/// The current time as a Unix timestamp in seconds, read as `chrono` reads
/// it: the system clock's whole seconds since the epoch, taken as a signed
/// number. Nothing where the clock reads before the epoch or beyond what
/// `chrono` can represent.
pub fn utc_now_timestamp() -> (now: Option<i64>)
    ensures
        now matches Some(t) ==> t <= max_utc_timestamp(),
{
    let reading = system_time_now();
    match duration_since_unix_epoch(&reading) {
        Err(_) => None,
        Ok(elapsed) => {
            let secs = duration_whole_secs(&elapsed);
            let nanos = duration_subsec_nanos(&elapsed);
            utc_from_timestamp(secs as i64, nanos)
        },
    }
}

/// The expiry of a quote made at the Unix timestamp `now`: thirty minutes
/// later, read as an unsigned timestamp; nothing where that instant lies
/// beyond the last one that `chrono` can represent.
pub open spec fn expiry_for(now: i64) -> Option<u64> {
    if now + quote_lifetime_secs() <= max_utc_timestamp() {
        Some((now + quote_lifetime_secs()) as u64)
    } else {
        None
    }
}

/// The expiry of a quote made at `now` (a Unix timestamp in seconds):
/// thirty minutes later, read as an unsigned timestamp; nothing where that
/// instant lies beyond the last one that `chrono` can represent.
pub fn quote_expiry_at(now: i64) -> (expiry: Option<u64>)
    ensures
        expiry is Some <==> now + quote_lifetime_secs() <= max_utc_timestamp(),
        expiry matches Some(e) ==> e == (now + quote_lifetime_secs()) as u64,
        expiry == expiry_for(now),
{
    if now <= 8_210_266_874_999 {
        let later: i64 = now + (QUOTE_EXPIRY_MINUTES as i64) * 60;
        Some(later as u64)
    } else {
        None
    }
}

/// The expiry of a quote made now: thirty minutes after the current time.
/// Nothing where the clock cannot be read as a `chrono` time (before the
/// epoch, or beyond the last instant `chrono` represents) or where the
/// thirty minutes would pass that last instant. The current time is the
/// clock's, so a result is that of some reading that `chrono` represents.
pub fn quote_expiry() -> (expiry: Option<u64>)
    ensures
        expiry is Some ==> exists|now: i64|
            now <= max_utc_timestamp() && expiry == #[trigger] expiry_for(now),
{
    match utc_now_timestamp() {
        None => None,
        Some(now) => {
            let expiry = quote_expiry_at(now);
            assert(now <= max_utc_timestamp() && expiry == expiry_for(now));
            expiry
        },
    }
}

} // verus!
