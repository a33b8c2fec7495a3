use vstd::prelude::*;

verus! {

/// The earliest second (since the Unix epoch) that a UTC date-time can hold:
/// January 1 of the proleptic year -262143 (262144 BCE), 00:00:00.
pub const MIN_UNIX_SECONDS: i64 = -8334601228800;

/// The last second (since the Unix epoch) that a UTC date-time can hold:
/// December 31 of the year 262142 CE, 23:59:59.
pub const MAX_UNIX_SECONDS: i64 = 8210266876799;

/// Whether seconds since the epoch and nanoseconds within the second name a
/// UTC instant. Nanoseconds past one billion stand for a leap second, which
/// can only follow the 59th second of a minute.
pub open spec fn representable(secs: i64, nanos: u32) -> bool {
    &&& MIN_UNIX_SECONDS <= secs <= MAX_UNIX_SECONDS
    &&& (nanos < 1_000_000_000 || (nanos < 2_000_000_000 && secs % 60 == 59))
}

/// Instants from year 0 to year 9999, without a leap second: the range in
/// which the RFC 3339 text of an instant reads back as the same instant.
pub open spec fn in_rfc3339_range(t: (i64, u32)) -> bool {
    &&& -62167219200 <= t.0 <= 253402300799
    &&& t.1 < 1_000_000_000
}

/// A UTC instant: seconds since the Unix epoch and nanoseconds within the
/// second, marked when it was read from the system clock.
#[derive(Clone, Copy, Debug, PartialEq, Eq, Structural)]
pub struct Timestamp {
    secs: i64,
    nanos: u32,
    from_clock: bool,
}

impl View for Timestamp {
    type V = (i64, u32);

    closed spec fn view(&self) -> (i64, u32) {
        (self.secs, self.nanos)
    }
}

impl Timestamp {
    /// Whether this instant is a reading of the system clock (only
    /// `current_time` makes one).
    pub closed spec fn is_clock_reading(self) -> bool {
        self.from_clock
    }

    #[verifier::type_invariant]
    spec fn inv(self) -> bool {
        representable(self.secs, self.nanos)
    }

    /// The instant with these seconds and nanoseconds, if there is one.
    pub fn new(secs: i64, nanos: u32) -> (r: Option<Timestamp>)
        ensures
            r is Some <==> representable(secs, nanos),
            r matches Some(t) ==> t@ == (secs, nanos) && !t.is_clock_reading(),
    {
        if secs < MIN_UNIX_SECONDS || secs > MAX_UNIX_SECONDS {
            return None;
        }
        let within_minute: i64 = if secs >= 0 {
            secs % 60
        } else {
            59 - ((-1 - secs) % 60)
        };
        assert(within_minute == secs % 60) by (nonlinear_arith)
            requires
                MIN_UNIX_SECONDS <= secs <= MAX_UNIX_SECONDS,
                secs >= 0 ==> within_minute == secs % 60,
                secs < 0 ==> within_minute == 59 - ((-1 - secs) % 60),
        ;
        if nanos < 1_000_000_000 || (nanos < 2_000_000_000 && within_minute == 59) {
            Some(Timestamp { secs, nanos, from_clock: false })
        } else {
            None
        }
    }

    /// Seconds since the Unix epoch.
    pub fn secs(&self) -> (s: i64)
        ensures
            s == self@.0,
            representable(self@.0, self@.1),
    {
        proof {
            use_type_invariant(self);
        }
        self.secs
    }

    /// Nanoseconds within the second.
    pub fn nanos(&self) -> (n: u32)
        ensures
            n == self@.1,
            representable(self@.0, self@.1),
    {
        proof {
            use_type_invariant(self);
        }
        self.nanos
    }
}

/// The current time, read from the system clock through `chrono::Utc::now`.
/// Nothing is said of which instant comes back; every value that chrono's
/// `DateTime<Utc>` holds is within the range that `Timestamp` requires. The
/// instant is marked as a reading of the clock.
#[verifier::external_body]
pub fn current_time() -> (t: Timestamp)
    ensures
        t.is_clock_reading(),
{
    let now = chrono::Utc::now();
    Timestamp { secs: now.timestamp(), nanos: now.timestamp_subsec_nanos(), from_clock: true }
}

/// The text that `chrono::DateTime::to_rfc3339` gives for an instant.
pub uninterp spec fn rfc3339_text(secs: i64, nanos: u32) -> Seq<char>;

/// The instant that `chrono::DateTime::parse_from_rfc3339` reads from a
/// text, as seconds and nanoseconds in UTC, or `None` where it fails.
pub uninterp spec fn rfc3339_instant(text: Seq<char>) -> Option<(i64, u32)>;

/// Formats an instant with `chrono::DateTime::to_rfc3339`. Claimed: the
/// result is the named text; for instants of years 0 to 9999 without a leap
/// second, that text is an RFC 3339 date-time (four-digit year, offset
/// `+00:00`, all non-zero fractional digits), which `parse_from_rfc3339`
/// reads back as the same instant. Distinct instants have distinct texts
/// (years outside 0 to 9999 carry an explicit sign, and a leap second is
/// written as second 60).
#[verifier::external_body]
pub fn format_rfc3339(secs: i64, nanos: u32) -> (text: String)
    requires
        representable(secs, nanos),
    ensures
        text@ == rfc3339_text(secs, nanos),
        in_rfc3339_range((secs, nanos)) ==> rfc3339_instant(text@) == Some((secs, nanos)),
        forall|s: i64, n: u32|
            representable(s, n) && #[trigger] rfc3339_text(s, n) == text@ ==> s == secs && n == nanos,
{
    chrono::DateTime::from_timestamp(secs, nanos).unwrap().to_rfc3339()
}

/// Parses a text with `chrono::DateTime::parse_from_rfc3339` and gives the
/// instant in UTC. Claimed: the result is the named instant, and every
/// instant that chrono holds is representable.
#[verifier::external_body]
pub fn parse_rfc3339(text: &str) -> (r: Option<(i64, u32)>)
    ensures
        r == rfc3339_instant(text@),
        r matches Some(t) ==> representable(t.0, t.1),
{
    match chrono::DateTime::parse_from_rfc3339(text) {
        Ok(dt) => Some((dt.timestamp(), dt.timestamp_subsec_nanos())),
        Err(_) => None,
    }
}

} // verus!
