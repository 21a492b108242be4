use vstd::prelude::*;

verus! {

/// Length of the protection window in seconds: 24 hours.
pub const WINDOW_SECS: i64 = 86_400;

/// A moment of UTC time: the whole seconds since 1970-01-01T00:00:00Z and
/// the nanoseconds that have passed of the second after them.
#[derive(Clone, Copy, Debug, PartialEq, Eq, Structural)]
pub struct Instant {
    pub secs: i64,
    pub nanos: u32,
}

impl Instant {
    /// `self` is not later than `other`.
    pub open spec fn at_or_before(self, other: Instant) -> bool {
        self.secs < other.secs || (self.secs == other.secs && self.nanos <= other.nanos)
    }

    /// The moment one protection window after `self`, where the seconds
    /// still fit the machine's integer.
    pub open spec fn window_end(self) -> Option<Instant> {
        if self.secs + WINDOW_SECS <= i64::MAX {
            Some(Instant { secs: (self.secs + WINDOW_SECS) as i64, nanos: self.nanos })
        } else {
            None
        }
    }

    /// Whether `self` is not later than `other`.
    pub fn is_at_or_before(&self, other: &Instant) -> (r: bool)
        ensures
            r == self.at_or_before(*other),
    {
        self.secs < other.secs || (self.secs == other.secs && self.nanos <= other.nanos)
    }

    /// The moment at which a restriction that is set at `self` lifts.
    pub fn expiry(&self) -> (r: Option<Instant>)
        ensures
            r == self.window_end(),
    {
        match self.secs.checked_add(WINDOW_SECS) {
            Some(secs) => Some(Instant { secs, nanos: self.nanos }),
            None => None,
        }
    }
}

/// A later start gives a later end: of two windows, the one that is opened
/// later does not close earlier, and each closes exactly 24 hours after it
/// was opened.
pub proof fn lemma_later_start_later_end(first: Instant, second: Instant)
    requires
        first.at_or_before(second),
        first.window_end() is Some,
        second.window_end() is Some,
    ensures
        first.window_end()->0.at_or_before(second.window_end()->0),
        first.window_end()->0.secs == first.secs + 86_400,
        second.window_end()->0.secs == second.secs + 86_400,
        first.at_or_before(first.window_end()->0),
{
}

/// The RFC 3339 text that chrono writes for the UTC moment `secs` seconds and
/// `nanos` nanoseconds after 1970-01-01T00:00:00Z, or `None` where chrono has
/// no date for that moment.
pub uninterp spec fn rfc3339_utc(secs: i64, nanos: u32) -> Option<Seq<char>>;

/// `chrono::DateTime::from_timestamp` followed by `DateTime::to_rfc3339`.
///
/// Trusted: the text is a function of the two numbers alone, and it is absent
/// exactly when `from_timestamp` refuses them. Nothing is claimed of what the
/// text holds.
#[verifier::external_body]
pub(crate) fn rfc3339_text(secs: i64, nanos: u32) -> (r: Option<String>)
    ensures
        match r {
            Some(text) => rfc3339_utc(secs, nanos) == Some(text@),
            None => rfc3339_utc(secs, nanos) is None,
        },
{
    match chrono::DateTime::from_timestamp(secs, nanos) {
        Some(moment) => Some(moment.to_rfc3339()),
        None => None,
    }
}

/// `chrono::Utc::now`, read as seconds and nanoseconds.
///
/// Trusted, and nothing is claimed of the result: it is whatever the system
/// clock says. chrono stops the program if that clock stands before 1970.
#[verifier::external_body]
pub(crate) fn clock_now() -> Instant {
    let moment = chrono::Utc::now();
    Instant { secs: moment.timestamp(), nanos: moment.timestamp_subsec_nanos() }
}

} // verus!
