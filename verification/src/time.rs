//! Points in time.
//!
//! A [`Timestamp`] is a UTC instant with nanosecond resolution in the range of
//! `chrono::DateTime<Utc>`. In contracts `t@` is the number of nanoseconds
//! since the Unix epoch.
use vstd::prelude::*;

verus! {

/// First second of the representable range: `-262143-01-01T00:00:00Z`.
pub const FIRST_SECOND: i64 = -8334601228800;

/// Last second of the representable range: `+262142-12-31T23:59:59Z`.
pub const LAST_SECOND: i64 = 8210266876799;

/// Nanoseconds in a second.
pub const NANOS_PER_SECOND: u32 = 1000000000;

/// How `chrono` displays the instant `seconds` and `nanos` after the epoch.
pub uninterp spec fn instant_text(seconds: i64, nanos: u32) -> Seq<char>;

/// How `chrono` writes that instant in RFC 3339 notation.
pub uninterp spec fn instant_rfc3339(seconds: i64, nanos: u32) -> Seq<char>;

/// A UTC instant.
#[derive(Clone, Copy, Debug, PartialEq, Eq, Structural)]
pub struct Timestamp {
    pub(crate) seconds: i64,
    pub(crate) nanos: u32,
}

/// Whether an instant, in nanoseconds since the epoch, is representable.
pub open spec fn in_calendar(nanos: int) -> bool {
    FIRST_SECOND * 1000000000 <= nanos < (LAST_SECOND + 1) * 1000000000
}

impl View for Timestamp {
    type V = int;

    closed spec fn view(&self) -> int {
        self.seconds * 1000000000 + self.nanos
    }
}

impl Timestamp {
    #[verifier::type_invariant]
    pub(crate) closed spec fn well_formed(self) -> bool {
        FIRST_SECOND <= self.seconds <= LAST_SECOND && self.nanos < NANOS_PER_SECOND
    }

    /// Whole seconds since the epoch, rounded down.
    pub open spec fn spec_seconds(self) -> int {
        self@ / 1000000000
    }

    /// Whole milliseconds since the epoch, rounded down.
    pub open spec fn spec_millis(self) -> int {
        self@ / 1000000
    }

    /// The Unix epoch.
    pub closed spec fn unix_epoch() -> Timestamp {
        Timestamp { seconds: 0, nanos: 0 }
    }

    /// The instant a number of nanoseconds after the epoch.
    pub closed spec fn of_nanos(nanos: int) -> Timestamp {
        Timestamp { seconds: (nanos / 1000000000) as i64, nanos: (nanos % 1000000000) as u32 }
    }

    /// How the instant is written out.
    pub closed spec fn text(self) -> Seq<char> {
        instant_text(self.seconds, self.nanos)
    }

    /// How the instant is written in RFC 3339 notation.
    pub closed spec fn rfc3339(self) -> Seq<char> {
        instant_rfc3339(self.seconds, self.nanos)
    }

    /// Calls `chrono::DateTime::to_rfc3339`.
    #[verifier::external_body]
    fn noted(self) -> (r: String)
        ensures
            r@ == instant_rfc3339(self.seconds, self.nanos),
    {
        match chrono::DateTime::from_timestamp(self.seconds, self.nanos) {
            Some(t) => t.to_rfc3339(),
            None => String::new(),
        }
    }

    /// Calls `chrono::DateTime::from_timestamp` with a whole number of seconds:
    /// the instant, or `None` outside the calendar range.
    #[verifier::external_body]
    fn at_second(seconds: i64) -> (r: Option<Timestamp>)
        ensures
            r is Some <==> in_calendar(seconds * 1000000000),
            r is Some ==> r->0@ == seconds * 1000000000,
    {
        chrono::DateTime::from_timestamp(seconds, 0).map(
            |t: chrono::DateTime<chrono::Utc>| Timestamp { seconds: t.timestamp(), nanos: t.timestamp_subsec_nanos() },
        )
    }

    /// Calls `chrono::DateTime::from_timestamp_millis`: the instant, or `None`
    /// outside the calendar range.
    #[verifier::external_body]
    fn at_millisecond(millis: i64) -> (r: Option<Timestamp>)
        ensures
            r is Some <==> in_calendar(millis * 1000000),
            r is Some ==> r->0@ == millis * 1000000,
    {
        chrono::DateTime::from_timestamp_millis(millis).map(
            |t: chrono::DateTime<chrono::Utc>| Timestamp { seconds: t.timestamp(), nanos: t.timestamp_subsec_nanos() },
        )
    }

    /// Calls `chrono::DateTime::checked_add_signed` with a whole number of
    /// milliseconds: the later (or earlier) instant, or `None` outside the
    /// calendar range.
    #[verifier::external_body]
    fn shifted(self, millis: i64) -> (r: Option<Timestamp>)
        requires
            millis > i64::MIN,
        ensures
            r is Some <==> in_calendar(self@ + millis * 1000000),
            r is Some ==> r->0@ == self@ + millis * 1000000,
    {
        let start = chrono::DateTime::from_timestamp(self.seconds, self.nanos)?;
        start.checked_add_signed(chrono::TimeDelta::milliseconds(millis)).map(
            |t: chrono::DateTime<chrono::Utc>| Timestamp { seconds: t.timestamp(), nanos: t.timestamp_subsec_nanos() },
        )
    }

    /// Calls the `Display` of `chrono::DateTime<Utc>`.
    #[verifier::external_body]
    fn displayed(self) -> (r: String)
        ensures
            r@ == instant_text(self.seconds, self.nanos),
    {
        match chrono::DateTime::from_timestamp(self.seconds, self.nanos) {
            Some(t) => t.to_string(),
            None => String::new(),
        }
    }

    /// An instant is determined by its distance from the epoch.
    fn settled(instant: Option<Timestamp>) -> (r: Option<Timestamp>)
        ensures
            r == instant,
            r is Some ==> r->0 == Timestamp::of_nanos(r->0@),
    {
        match instant {
            Some(t) => {
                proof {
                    use_type_invariant(t);
                }
                Some(t)
            },
            None => None,
        }
    }

    /// The instant a whole number of seconds after the epoch.
    pub fn from_seconds(seconds: i64) -> (r: Option<Timestamp>)
        ensures
            r is Some <==> in_calendar(seconds * 1000000000),
            r is Some ==> r->0@ == seconds * 1000000000,
            r is Some ==> r->0 == Timestamp::of_nanos(seconds * 1000000000),
    {
        Self::settled(Self::at_second(seconds))
    }

    /// The instant a whole number of milliseconds after the epoch.
    pub fn from_millis(millis: i64) -> (r: Option<Timestamp>)
        ensures
            r is Some <==> in_calendar(millis * 1000000),
            r is Some ==> r->0@ == millis * 1000000,
            r is Some ==> r->0 == Timestamp::of_nanos(millis * 1000000),
    {
        Self::settled(Self::at_millisecond(millis))
    }

    /// The instant `seconds` and `nanos` after the epoch.
    pub fn new(seconds: i64, nanos: u32) -> (r: Option<Timestamp>)
        ensures
            r is Some <==> FIRST_SECOND <= seconds <= LAST_SECOND && nanos < NANOS_PER_SECOND,
            r is Some ==> r->0@ == seconds * 1000000000 + nanos,
            r is Some ==> r->0 == Timestamp::of_nanos(seconds * 1000000000 + nanos),
    {
        if FIRST_SECOND <= seconds && seconds <= LAST_SECOND && nanos < NANOS_PER_SECOND {
            Some(Timestamp { seconds, nanos })
        } else {
            None
        }
    }

    /// The Unix epoch.
    pub fn epoch() -> (r: Timestamp)
        ensures
            r == Timestamp::unix_epoch(),
            r@ == 0,
    {
        Timestamp { seconds: 0, nanos: 0 }
    }

    /// The instant a number of milliseconds later, if it is representable.
    pub fn plus_millis(self, millis: i64) -> (r: Option<Timestamp>)
        requires
            millis > i64::MIN,
        ensures
            r is Some <==> in_calendar(self@ + millis * 1000000),
            r is Some ==> r->0@ == self@ + millis * 1000000,
            r is Some ==> r->0 == Timestamp::of_nanos(self@ + millis * 1000000),
    {
        Self::settled(self.shifted(millis))
    }

    /// The instant a number of seconds later, if it is representable.
    pub fn plus_seconds(self, seconds: i64) -> (r: Option<Timestamp>)
        requires
            -9223372036854775 <= seconds <= 9223372036854775,
        ensures
            r is Some <==> in_calendar(self@ + seconds * 1000000000),
            r is Some ==> r->0@ == self@ + seconds * 1000000000,
            r is Some ==> r->0 == Timestamp::of_nanos(self@ + seconds * 1000000000),
    {
        Self::settled(self.shifted(seconds * 1000))
    }

    /// The instant a natural number of seconds later, if it is representable.
    pub fn plus_natural_seconds(self, seconds: u64) -> (r: Option<Timestamp>)
        ensures
            r is Some <==> in_calendar(self@ + seconds * 1000000000),
            r is Some ==> r->0@ == self@ + seconds * 1000000000,
            r is Some ==> r->0 == Timestamp::of_nanos(self@ + seconds * 1000000000),
    {
        proof {
            use_type_invariant(self);
        }
        // A longer shift leaves the calendar from wherever it starts.
        if seconds > 9223372036854775 {
            return None;
        }
        Self::settled(self.shifted(seconds as i64 * 1000))
    }

    /// Writes the instant out.
    pub fn to_text(self) -> (r: String)
        ensures
            r@ == self.text(),
    {
        self.displayed()
    }

    /// Writes the instant in RFC 3339 notation.
    pub fn to_rfc3339(self) -> (r: String)
        ensures
            r@ == self.rfc3339(),
    {
        self.noted()
    }

    /// Whether the instant lies strictly before another.
    pub fn before(self, other: Timestamp) -> (r: bool)
        ensures
            r == (self@ < other@),
    {
        proof {
            use_type_invariant(self);
            use_type_invariant(other);
        }
        self.seconds < other.seconds || (self.seconds == other.seconds && self.nanos < other.nanos)
    }

    /// Whether the instant lies no later than another.
    pub fn until(self, other: Timestamp) -> (r: bool)
        ensures
            r == (self@ <= other@),
    {
        !other.before(self)
    }

    /// Nanoseconds from another instant to this one.
    pub fn since(self, other: Timestamp) -> (r: i128)
        ensures
            r == self@ - other@,
    {
        proof {
            use_type_invariant(self);
            use_type_invariant(other);
        }
        (self.seconds as i128 - other.seconds as i128) * 1000000000 + (self.nanos as i128
            - other.nanos as i128)
    }

    /// Whole seconds since the epoch, rounded down.
    pub fn whole_seconds(self) -> (r: i64)
        ensures
            r == self.spec_seconds(),
    {
        proof {
            use_type_invariant(self);
        }
        self.seconds
    }

    /// Whole milliseconds since the epoch, rounded down.
    pub fn whole_millis(self) -> (r: i64)
        ensures
            r == self.spec_millis(),
            FIRST_SECOND * 1000 <= r < (LAST_SECOND + 1) * 1000,
    {
        proof {
            use_type_invariant(self);
            assert((self.seconds * 1000000000 + self.nanos) / 1000000 == self.seconds * 1000
                + self.nanos / 1000000) by (nonlinear_arith);
        }
        self.seconds * 1000 + (self.nanos / 1000000) as i64
    }

    /// The earlier of two instants; the first of two equal ones.
    pub open spec fn spec_earlier(self, other: Timestamp) -> Timestamp {
        if other@ < self@ {
            other
        } else {
            self
        }
    }

    /// The earlier of two instants.
    pub fn earlier(self, other: Timestamp) -> (r: Timestamp)
        ensures
            r == self.spec_earlier(other),
    {
        if other.before(self) {
            other
        } else {
            self
        }
    }
}

/// An instant is determined by its distance from the epoch.
pub(crate) fn same_instant(left: Timestamp, right: Timestamp) -> (r: bool)
    ensures
        r == (left@ == right@),
        r ==> left == right,
{
    proof {
        use_type_invariant(left);
        use_type_invariant(right);
    }
    left.seconds == right.seconds && left.nanos == right.nanos
}

} // verus!
