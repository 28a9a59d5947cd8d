use vstd::prelude::*;

verus! {

/// A timezone-naive instant: whole seconds since the Unix epoch together
/// with the nanoseconds past that second boundary. Every record admitted
/// to the buffer carries one, read from an RFC 3339 string.
#[derive(Clone, Copy, Debug, PartialEq, Eq, Structural)]
pub struct Timestamp {
    pub secs: i64,
    pub nanos: u32,
}

impl View for Timestamp {
    type V = (i64, u32);

    open spec fn view(&self) -> (i64, u32) {
        (self.secs, self.nanos)
    }
}

/// The instant an RFC 3339 string denotes, normalized to UTC, as
/// (seconds since the Unix epoch, nanoseconds past that second);
/// `None` where the string is not valid RFC 3339. The result is a
/// function of the characters alone.
pub uninterp spec fn rfc3339_utc(s: Seq<char>) -> Option<(i64, u32)>;

/// Relies on chrono::DateTime::parse_from_rfc3339, which accepts exactly
/// the RFC 3339 grammar, and on chrono's `timestamp` and
/// `timestamp_subsec_nanos`, which read the accepted instant back as
/// plain values (the epoch count is offset-independent, so this is the
/// UTC normalization).
#[verifier::external_body]
pub(crate) fn parse_rfc3339(s: &str) -> (r: Option<Timestamp>)
    ensures
        r is Some <==> rfc3339_utc(s@) is Some,
        r matches Some(t) ==> Some(t@) == rfc3339_utc(s@),
{
    match chrono::DateTime::parse_from_rfc3339(s) {
        Ok(dt) => Some(Timestamp { secs: dt.timestamp(), nanos: dt.timestamp_subsec_nanos() }),
        Err(_) => None,
    }
}

} // verus!
