use vstd::prelude::*;

verus! {

/// The text that chrono prints for the UTC instant `secs` seconds and
/// `nanos` nanoseconds after the Unix epoch, or `None` where chrono has no
/// such instant.
pub uninterp spec fn utc_text(secs: i64, nanos: u32) -> Option<Seq<char>>;

/// Relies on chrono's `DateTime::from_timestamp`, which gives `None` for an
/// instant out of its range, and on the `Display` of `DateTime<Utc>`.
#[verifier::external_body]
fn utc_text_of(secs: i64, nanos: u32) -> (r: Option<String>)
    ensures
        match r {
            Some(t) => utc_text(secs, nanos) == Some(t@),
            None => utc_text(secs, nanos) is None,
        },
{
    chrono::DateTime::from_timestamp(secs, nanos).map(|t| t.to_string())
}

/// A moment at which a message was stored, in seconds and nanoseconds after
/// the Unix epoch. Only instants that chrono can print are held.
pub struct Timestamp {
    secs: i64,
    nanos: u32,
}

impl Timestamp {
    #[verifier::type_invariant]
    spec fn printable(self) -> bool {
        utc_text(self.secs, self.nanos) is Some
    }

    pub closed spec fn secs_spec(self) -> i64 {
        self.secs
    }

    pub closed spec fn nanos_spec(self) -> u32 {
        self.nanos
    }

    /// Whether `self` is no earlier than `other`: seconds first, then the
    /// nanoseconds, which exceed a second only during a leap second.
    pub open spec fn at_or_after(self, other: Timestamp) -> bool {
        self.secs_spec() > other.secs_spec() || (self.secs_spec() == other.secs_spec()
            && self.nanos_spec() >= other.nanos_spec())
    }

    /// What the timestamp reads as on the page.
    pub open spec fn text(self) -> Seq<char> {
        match utc_text(self.secs_spec(), self.nanos_spec()) {
            Some(t) => t,
            None => Seq::empty(),
        }
    }

    /// The instant `secs` seconds and `nanos` nanoseconds after the epoch;
    /// `None` exactly where chrono has no such instant.
    pub fn new(secs: i64, nanos: u32) -> (r: Option<Timestamp>)
        ensures
            r is Some <==> utc_text(secs, nanos) is Some,
            r matches Some(t) ==> t.secs_spec() == secs && t.nanos_spec() == nanos,
    {
        match utc_text_of(secs, nanos) {
            Some(_) => Some(Timestamp { secs, nanos }),
            None => None,
        }
    }

    pub fn secs(&self) -> (r: i64)
        ensures
            r == self.secs_spec(),
    {
        self.secs
    }

    pub fn nanos(&self) -> (r: u32)
        ensures
            r == self.nanos_spec(),
    {
        self.nanos
    }

    /// The timestamp as chrono prints it, such as `2015-05-15 00:00:00 UTC`.
    pub fn to_text(&self) -> (r: String)
        ensures
            r@ == self.text(),
            Some(r@) == utc_text(self.secs_spec(), self.nanos_spec()),
    {
        proof {
            use_type_invariant(self);
        }
        match utc_text_of(self.secs, self.nanos) {
            Some(t) => t,
            None => String::new(),
        }
    }

    /// Whether `self` is no earlier than `other`.
    pub fn not_before(&self, other: &Timestamp) -> (r: bool)
        ensures
            r == self.at_or_after(*other),
    {
        self.secs > other.secs || (self.secs == other.secs && self.nanos >= other.nanos)
    }
}

} // verus!
