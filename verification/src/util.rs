use vstd::prelude::*;

verus! {

/// The last timestamp the readable rendering covers: the final second
/// of year 9999, so the rendered year always has four digits.
pub const MAX_RENDERABLE_TIMESTAMP: u64 = 253402300799;

/// The human-readable rendering (`YYYY-MM-DD HH:MM:SS.nnnnnnnnn`, UTC)
/// of a unix timestamp; names what `chrono`'s formatting returns, which
/// depends on the timestamp alone.
pub uninterp spec fn readable_of(t: u64) -> Seq<char>;

#[verifier::external_type_specification]
#[verifier::external_body]
pub struct ExSystemTime(std::time::SystemTime);

#[verifier::external_type_specification]
#[verifier::external_body]
pub struct ExSystemTimeError(std::time::SystemTimeError);

/// Relies on std::time::SystemTime::now: the wall clock.  Nothing can
/// be promised of what it reads.
pub assume_specification[ std::time::SystemTime::now ]() -> std::time::SystemTime;

/// Relies on std::time::SystemTime::duration_since: the elapsed time
/// since `earlier`, or an error when the clock reads before it.
pub assume_specification[ std::time::SystemTime::duration_since ](
    t: &std::time::SystemTime,
    earlier: std::time::SystemTime,
) -> Result<core::time::Duration, std::time::SystemTimeError>;

/// Relies on core::time::Duration::as_secs: the whole seconds of the
/// duration.
pub assume_specification[ core::time::Duration::as_secs ](d: &core::time::Duration) -> u64;

/// Relies on std::time::UNIX_EPOCH: the unix epoch as a time value.
#[verifier::external_body]
fn unix_epoch() -> std::time::SystemTime {
    std::time::UNIX_EPOCH
}

/// The current wall-clock time, in whole seconds since the unix epoch.
/// A clock reading from before the epoch comes back as the epoch.
pub fn get_timestamp() -> u64 {
    let now = std::time::SystemTime::now();
    match now.duration_since(unix_epoch()) {
        Ok(d) => d.as_secs(),
        Err(_) => 0,
    }
}

/// Relies on chrono: converting the timestamp to a UTC date-time and
/// formatting it with `%Y-%m-%d %H:%M:%S.%f` depends on the timestamp
/// alone; the conversion stays in chrono's date range because of the
/// bound on `timestamp`.
#[verifier::external_body]
pub fn get_readable_timestamp(timestamp: u64) -> (r: String)
    requires
        timestamp <= MAX_RENDERABLE_TIMESTAMP,
    ensures
        r@ == readable_of(timestamp),
{
    let d = std::time::UNIX_EPOCH + std::time::Duration::from_secs(timestamp);
    let date_time = chrono::DateTime::<chrono::Utc>::from(d);
    date_time.format("%Y-%m-%d %H:%M:%S.%f").to_string()
}

/// Relies on uuid::Uuid::new_v4: a fresh random identifier, rendered
/// in the 36-character hyphenated form.  Two calls may (and almost
/// always do) return different identifiers, so nothing more is stated.
#[verifier::external_body]
pub fn get_uuid() -> (r: String)
    ensures
        r@.len() == 36,
{
    uuid::Uuid::new_v4().to_string()
}

/// The current time, clamped to the renderable range, together with
/// its human-readable rendering.
pub fn get_time_meta() -> (r: (u64, String))
    ensures
        r.0 <= MAX_RENDERABLE_TIMESTAMP,
        r.1@ == readable_of(r.0),
{
    let now = get_timestamp();
    let ts: u64 = if now <= MAX_RENDERABLE_TIMESTAMP {
        now
    } else {
        MAX_RENDERABLE_TIMESTAMP
    };
    let readable = get_readable_timestamp(ts);
    (ts, readable)
}

} // verus!
