//! Timestamps in their RFC 3339 text form.
//!
//! A timestamp travels on the wire as text. The broker never reads the
//! instant it denotes: it stamps the messages it writes with the current time
//! and otherwise passes timestamps through. So a timestamp is kept as its
//! text, and chrono decides which texts denote an instant. A `Timestamp`
//! holds only such a text: it is made by reading the clock or by parsing.

use vstd::prelude::*;

verus! {

/// Whether chrono reads `text` as a date and time with an offset from UTC
/// (RFC 3339, in the relaxed form that it accepts).
pub uninterp spec fn rfc3339_valid(text: Seq<char>) -> bool;

/// Calls `str::parse::<chrono::DateTime<chrono::FixedOffset>>` and reports
/// whether it succeeded; this is the parser that chrono runs when it reads a
/// `DateTime` from a JSON string. The contract only gives that outcome its
/// name.
#[verifier::external_body]
fn parses_as_rfc3339(text: &str) -> (ok: bool)
    ensures
        ok == rfc3339_valid(text@),
{
    text.parse::<chrono::DateTime<chrono::FixedOffset>>().is_ok()
}

/// Reads the system clock with `std::time::SystemTime::now`, turns the
/// reading into a `chrono::DateTime<Utc>` with chrono's `From<SystemTime>`,
/// and writes it as chrono writes a `DateTime<Utc>` to JSON
/// (`to_rfc3339_opts` with `SecondsFormat::AutoSi` and `Z` for UTC). The
/// conversion takes a reading on either side of 1970; its only limit is
/// chrono's range of years, some 262,000 on either side, far beyond any time
/// that a system clock gives. Which instant it is depends on the clock, and
/// nothing is claimed of that. Claimed is that chrono reads what it has
/// written: `to_rfc3339_opts` returns an RFC 3339 date and time (a year
/// beyond four digits with its sign), and the parser behind `rfc3339_valid`
/// accepts RFC 3339 in a relaxed form, signed years and `Z` included.
#[verifier::external_body]
fn utc_now_rfc3339() -> (text: String)
    ensures
        rfc3339_valid(text@),
{
    chrono::DateTime::<chrono::Utc>::from(std::time::SystemTime::now()).to_rfc3339_opts(
        chrono::SecondsFormat::AutoSi,
        true,
    )
}

/// A point in time, held as RFC 3339 text. Every timestamp denotes an
/// instant: there is no way to make one from a text that chrono does not
/// read.
#[derive(Debug, PartialEq, Eq)]
pub struct Timestamp {
    text: String,
}

impl View for Timestamp {
    type V = Seq<char>;

    closed spec fn view(&self) -> Seq<char> {
        self.text@
    }
}

impl Clone for Timestamp {
    fn clone(&self) -> (copy: Self)
        ensures
            copy@ == self@,
    {
        proof {
            use_type_invariant(self);
        }
        Timestamp { text: self.text.clone() }
    }
}

impl Timestamp {
    #[verifier::type_invariant]
    closed spec fn denotes_instant(&self) -> bool {
        rfc3339_valid(self.text@)
    }

    /// The current time in UTC.
    pub fn now() -> (t: Timestamp)
        ensures
            rfc3339_valid(t@),
    {
        Timestamp { text: utc_now_rfc3339() }
    }

    /// Accepts `text` if it denotes an instant.
    pub fn parse(text: String) -> (r: Option<Timestamp>)
        ensures
            r is Some <==> rfc3339_valid(text@),
            r matches Some(t) ==> t@ == text@,
    {
        if parses_as_rfc3339(text.as_str()) {
            Some(Timestamp { text })
        } else {
            None
        }
    }

    /// The timestamp's text, which denotes an instant.
    pub fn as_str(&self) -> (text: &str)
        ensures
            text@ == self@,
            rfc3339_valid(self@),
    {
        proof {
            use_type_invariant(self);
        }
        self.text.as_str()
    }
}

} // verus!
