//! Instants and validity windows, in whole seconds since the Unix epoch,
//! with the trusted bridge to the clock and to chrono's RFC 3339 form.

use vstd::prelude::*;

verus! {

/// Timestamps are whole seconds since the Unix epoch, UTC.
///
/// Relies on std's `SystemTime::now` and `duration_since(UNIX_EPOCH)`: the
/// current moment as seconds since the epoch, clamped to zero for a clock
/// set before the epoch, so the call returns on every clock.  Nothing can
/// be promised of the clock's value itself; it is non-negative by the
/// clamping.
#[verifier::external_body]
pub fn now_seconds() -> (r: i64)
    ensures
        0 <= r,
{
    match std::time::SystemTime::now().duration_since(std::time::UNIX_EPOCH) {
        Ok(d) => {
            let s = d.as_secs();
            if s > i64::MAX as u64 {
                i64::MAX
            } else {
                s as i64
            }
        },
        Err(_) => 0,
    }
}

/// The instant a grant received at `received` and valid for `expires_in`
/// seconds stops being usable, clamped at the largest representable instant
/// instead of overflowing.
pub open spec fn expiry_spec(received: i64, expires_in: u64) -> int {
    if received + expires_in <= i64::MAX {
        received + expires_in
    } else {
        i64::MAX as int
    }
}

/// Computes `expiry_spec`.
pub fn expiry_instant(received: i64, expires_in: u64) -> (r: i64)
    ensures
        r == expiry_spec(received, expires_in),
{
    let total: i128 = received as i128 + expires_in as i128;
    if total > i64::MAX as i128 {
        i64::MAX
    } else {
        total as i64
    }
}

/// The RFC 3339 text chrono renders for the instant `t` seconds after the
/// Unix epoch.
pub uninterp spec fn rfc3339_of(t: i64) -> Seq<char>;

/// The instant chrono reads out of an RFC 3339 text, in seconds after the
/// Unix epoch; nothing for text it rejects.
pub uninterp spec fn rfc3339_parse_of(s: Seq<char>) -> Option<i64>;

/// Instants whose UTC calendar year has four digits, from
/// 0000-01-01T00:00:00 to 9999-12-31T23:59:59.  Only these render to a
/// text that chrono's RFC 3339 parser reads back; years beyond are written
/// with a sign and more digits, which that parser refuses.
pub open spec fn ts_renderable(t: i64) -> bool {
    -62_167_219_200 <= t <= 253_402_300_799
}

/// Decides `ts_renderable`.
pub fn ts_in_render_range(t: i64) -> (r: bool)
    ensures
        r == ts_renderable(t),
{
    -62_167_219_200 <= t && t <= 253_402_300_799
}

/// Relies on chrono's `DateTime::from_timestamp` and `to_rfc3339`: the
/// rendering depends on the instant alone, and every `ts_renderable`
/// instant renders to a text `parse_from_rfc3339` reads back to the same
/// instant (a four-digit year with offset `+00:00`).  Instants beyond
/// `ts_renderable` but inside chrono's wider calendar still render; their
/// text is not claimed to read back.
#[verifier::external_body]
pub fn fmt_rfc3339(t: i64) -> (r: Option<String>)
    ensures
        r matches Some(s) ==> s@ == rfc3339_of(t),
        ts_renderable(t) ==> r is Some,
        ts_renderable(t) ==> (r matches Some(s) ==> rfc3339_parse_of(s@) == Some(t)),
{
    chrono::DateTime::from_timestamp(t, 0).map(|d| d.to_rfc3339())
}

/// Relies on chrono's `DateTime::parse_from_rfc3339` and `timestamp`: the
/// instant read depends on the text alone, and lies within the four-digit
/// calendar years stretched by at most the widest accepted offset, 23:59
/// (86340 seconds) to either side.
#[verifier::external_body]
pub fn parse_rfc3339(s: &str) -> (r: Option<i64>)
    ensures
        r == rfc3339_parse_of(s@),
        r matches Some(t) ==> -62_167_305_540 <= t <= 253_402_387_139,
{
    chrono::DateTime::parse_from_rfc3339(s).ok().map(|d| d.timestamp())
}

} // verus!
