//! Wall-clock readings, held as the texts the logs print.
use vstd::prelude::*;

verus! {

/// One reading of the UTC clock in the three renderings the logs use.
pub struct Stamp {
    /// RFC 3339, e.g. `2025-01-02T03:04:05.123456+00:00`.
    pub rfc3339: String,
    /// Time of day, `HH:MM:SS`.
    pub clock: String,
    /// Date and time, `YYYY-MM-DD HH:MM:SS UTC`.
    pub date_time: String,
}

impl Stamp {
    /// Reads the clock.
    ///
    /// Relies on chrono's `Utc::now`, `DateTime::to_rfc3339` and
    /// `DateTime::format`; the reading depends on the time, so nothing is
    /// promised of it.
    #[verifier::external_body]
    pub(crate) fn now() -> (r: Stamp) {
        let t = chrono::Utc::now();
        Stamp {
            rfc3339: t.to_rfc3339(),
            clock: t.format("%H:%M:%S").to_string(),
            date_time: t.format("%Y-%m-%d %H:%M:%S UTC").to_string(),
        }
    }

    /// A copy of this reading.
    pub fn copy(&self) -> (r: Stamp)
        ensures
            r@ == self@,
    {
        Stamp { rfc3339: self.rfc3339.clone(), clock: self.clock.clone(), date_time: self.date_time.clone() }
    }
}

impl View for Stamp {
    type V = (Seq<char>, Seq<char>, Seq<char>);

    open spec fn view(&self) -> (Seq<char>, Seq<char>, Seq<char>) {
        (self.rfc3339@, self.clock@, self.date_time@)
    }
}

} // verus!
