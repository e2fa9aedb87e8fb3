//! Instants on the UTC time line at a resolution of whole seconds, and their
//! RFC 3339 text form.

use vstd::prelude::*;

verus! {

/// The timestamp of the first instant that can be represented:
/// midnight before 1 January of the year -262143.
pub const MIN_TIMESTAMP: i64 = -8334601228800;

/// The timestamp of the last whole second that can be represented:
/// the last second of the year 262142.
pub const MAX_TIMESTAMP: i64 = 8210266876799;

/// The timestamp of `0000-01-01T00:00:00Z`, the first instant that RFC 3339
/// can write.
pub const RFC3339_MIN_TIMESTAMP: i64 = -62167219200;

/// The timestamp of `9999-12-31T23:59:59Z`, the last whole second that
/// RFC 3339 can write.
pub const RFC3339_MAX_TIMESTAMP: i64 = 253402300799;

/// Whether an instant `secs` seconds after the UNIX epoch can be represented.
pub open spec fn is_representable(secs: int) -> bool {
    MIN_TIMESTAMP <= secs <= MAX_TIMESTAMP
}

/// Whether the instant `secs` seconds after the UNIX epoch lies in the years
/// 0000 to 9999, which have a four-digit RFC 3339 form.
pub open spec fn has_rfc3339_year(secs: int) -> bool {
    RFC3339_MIN_TIMESTAMP <= secs <= RFC3339_MAX_TIMESTAMP
}

/// What `chrono::DateTime::parse_from_rfc3339` makes of `text`: the whole
/// seconds from the UNIX epoch to the instant that `text` denotes, rounded
/// down, or `None` where `text` is no RFC 3339 date and time.
pub uninterp spec fn rfc3339_seconds(text: Seq<char>) -> Option<i64>;

/// The text that `chrono::DateTime::to_rfc3339_opts` writes, with whole
/// seconds and `Z` for the offset, for the instant `secs` seconds after the
/// UNIX epoch.
pub uninterp spec fn rfc3339_text(secs: i64) -> Seq<char>;

/// Reads an RFC 3339 date and time.
///
/// Trusted: calls `chrono::DateTime::parse_from_rfc3339` and takes the
/// `timestamp()` of what it returns. The contract only gives the result its
/// name; it claims nothing about which texts parse.
#[verifier::external_body]
pub(crate) fn parse_rfc3339_seconds(text: &str) -> (r: Option<i64>)
    ensures
        r == rfc3339_seconds(text@),
{
    match chrono::DateTime::parse_from_rfc3339(text) {
        Ok(t) => Some(t.timestamp()),
        Err(_) => None,
    }
}

/// Writes an instant in RFC 3339 form, `None` where the instant cannot be
/// represented.
///
/// Trusted: calls `chrono::DateTime::from_timestamp` and then
/// `to_rfc3339_opts(SecondsFormat::Secs, true)`. The contract claims that
/// * `from_timestamp` accepts every timestamp from `MIN_TIMESTAMP` to
///   `MAX_TIMESTAMP`, which are the bounds of `DateTime::<Utc>`;
/// * for the years 0000 to 9999, where the year is written with four digits,
///   `parse_from_rfc3339` reads the text back as the same instant.
#[verifier::external_body]
pub(crate) fn format_rfc3339_seconds(secs: i64) -> (r: Option<String>)
    ensures
        is_representable(secs as int) ==> r is Some,
        r matches Some(text) ==> text@ == rfc3339_text(secs),
        r matches Some(text) ==> (has_rfc3339_year(secs as int) ==> rfc3339_seconds(text@) == Some(
            secs,
        )),
{
    match chrono::DateTime::from_timestamp(secs, 0) {
        Some(t) => Some(t.to_rfc3339_opts(chrono::SecondsFormat::Secs, true)),
        None => None,
    }
}

/// An instant on the UTC time line, to the second. Its view is the number of
/// seconds from the UNIX epoch to it, which lies between `MIN_TIMESTAMP` and
/// `MAX_TIMESTAMP`.
#[derive(Clone, Copy, Debug, PartialEq, Eq, Structural)]
pub struct UtcInstant {
    pub(crate) secs: i64,
}

impl View for UtcInstant {
    type V = int;

    closed spec fn view(&self) -> int {
        self.secs as int
    }
}

impl UtcInstant {
    /// What holds of every instant: it can be represented.
    #[verifier::type_invariant]
    pub closed spec fn in_range(self) -> bool {
        is_representable(self.secs as int)
    }

    /// The instant `secs` seconds after the UNIX epoch.
    pub closed spec fn at(secs: int) -> UtcInstant {
        UtcInstant { secs: secs as i64 }
    }

    /// The view of `at(secs)` is `secs`.
    pub broadcast proof fn lemma_at_view(secs: int)
        requires
            i64::MIN <= secs <= i64::MAX,
        ensures
            #[trigger] Self::at(secs)@ == secs,
    {
    }

    /// An instant is fixed by its view.
    pub broadcast proof fn lemma_view_at(t: UtcInstant)
        ensures
            #[trigger] Self::at(t@) == t,
            i64::MIN <= t@ <= i64::MAX,
    {
    }

    /// Whether the instant has an RFC 3339 form that reads back as itself.
    pub open spec fn is_rfc3339(self) -> bool {
        has_rfc3339_year(self@)
    }

    /// The instant `secs` seconds after the UNIX epoch, if it can be
    /// represented.
    pub fn from_timestamp(secs: i64) -> (r: Option<UtcInstant>)
        ensures
            r == if is_representable(secs as int) {
                Some(Self::at(secs as int))
            } else {
                None
            },
            r matches Some(t) ==> t@ == secs,
    {
        if MIN_TIMESTAMP <= secs && secs <= MAX_TIMESTAMP {
            Some(UtcInstant { secs })
        } else {
            None
        }
    }

    /// The seconds from the UNIX epoch to this instant.
    pub fn timestamp(&self) -> (secs: i64)
        ensures
            secs == self@,
            is_representable(secs as int),
    {
        proof {
            use_type_invariant(self);
        }
        self.secs
    }

    /// The UNIX epoch, `1970-01-01T00:00:00Z`.
    pub fn epoch() -> (r: UtcInstant)
        ensures
            r@ == 0,
            r == Self::at(0),
    {
        UtcInstant { secs: 0 }
    }

    /// What an RFC 3339 text denotes: its instant, rounded down to the second,
    /// where the text is well formed and the instant can be represented.
    pub open spec fn of_text(text: Seq<char>) -> Option<UtcInstant> {
        match rfc3339_seconds(text) {
            Some(secs) => if is_representable(secs as int) {
                Some(Self::at(secs as int))
            } else {
                None
            },
            None => None,
        }
    }

    /// Reads an RFC 3339 date and time, such as `2024-05-01T12:30:00Z`.
    pub fn parse_from_rfc3339(text: &str) -> (r: Option<UtcInstant>)
        ensures
            r == Self::of_text(text@),
    {
        match parse_rfc3339_seconds(text) {
            Some(secs) => Self::from_timestamp(secs),
            None => None,
        }
    }

    /// The RFC 3339 text of an instant.
    pub open spec fn text(self) -> Seq<char> {
        rfc3339_text(self@ as i64)
    }

    /// Writes the instant as RFC 3339 text in UTC, with whole seconds. For an
    /// instant in the years 0000 to 9999 the text reads back as the instant.
    pub fn to_rfc3339(&self) -> (r: String)
        ensures
            r@ == self.text(),
            self.is_rfc3339() ==> Self::of_text(r@) == Some(*self),
    {
        let secs = self.timestamp();
        proof {
            Self::lemma_view_at(*self);
        }
        match format_rfc3339_seconds(secs) {
            Some(text) => text,
            None => {
                proof {
                    assert(false);
                }
                String::new()
            },
        }
    }
}

} // verus!
