//! Timestamps in the one textual form the remote service uses,
//! `YYYY-MM-DD HH:MM:SS`, read as UTC.
//!
//! The calendar arithmetic is chrono's. This module fixes the accepted shape,
//! asks chrono for the instant, and accepts the text only if chrono writes that
//! instant back as the very same text, so that parsing and formatting are
//! inverse to each other on every value of [`Timestamp`].

use crate::error::ErrorKind;
use std::cmp::Ordering;
use std::fmt::Write;
use vstd::prelude::*;
use vstd::std_specs::cmp::PartialOrdSpecImpl;
use vstd::string::StrSliceExecFns;

verus! {

/// The result of `chrono::NaiveDateTime::parse_from_str(text, pattern)`, read as UTC:
/// the seconds from the Unix epoch to the parsed date and time, or `None` where
/// chrono rejects the text or the pattern.
pub uninterp spec fn chrono_parsed(text: Seq<char>, pattern: Seq<char>) -> Option<i64>;

/// The text that chrono writes for the UTC instant `secs` seconds from the Unix
/// epoch under `pattern` (`DateTime::<Utc>::from_timestamp(secs, 0)`, then
/// `format(pattern)`), or `None` where chrono cannot represent the instant or
/// rejects the pattern.
pub uninterp spec fn chrono_formatted(secs: i64, pattern: Seq<char>) -> Option<Seq<char>>;

/// Calls `chrono::NaiveDateTime::parse_from_str` and reads the result as UTC.
/// Trusted: the result is what chrono returns for these two arguments, as whole
/// seconds since the epoch (`and_utc().timestamp()`); an error of chrono is `None`.
#[verifier::external_body]
fn parse_instant(text: &str, pattern: &str) -> (secs: Option<i64>)
    ensures
        secs == chrono_parsed(text@, pattern@),
{
    match chrono::NaiveDateTime::parse_from_str(text, pattern) {
        Ok(naive) => Some(naive.and_utc().timestamp()),
        Err(_) => None,
    }
}

/// Calls `chrono::DateTime::<Utc>::from_timestamp(secs, 0)` and writes the result
/// with `DateTime::format`. Trusted: the result is the text chrono writes for
/// these two arguments; an instant out of chrono's range, or a pattern that its
/// formatter reports as an error, is `None`.
#[verifier::external_body]
pub(crate) fn format_instant(secs: i64, pattern: &str) -> (text: Option<String>)
    ensures
        match text {
            Some(t) => chrono_formatted(secs, pattern@) == Some(t@),
            None => chrono_formatted(secs, pattern@) is None,
        },
{
    let instant = chrono::DateTime::from_timestamp(secs, 0)?;
    let mut out = String::new();
    match write!(out, "{}", instant.format(pattern)) {
        Ok(()) => Some(out),
        Err(_) => None,
    }
}

/// The pattern of a full timestamp, in chrono's notation.
pub open spec fn timestamp_pattern() -> Seq<char> {
    "%Y-%m-%d %H:%M:%S"@
}

/// The pattern of a calendar date, in chrono's notation.
pub open spec fn date_pattern() -> Seq<char> {
    "%Y-%m-%d"@
}

/// Whether `c` is allowed at position `i` of `YYYY-MM-DD HH:MM:SS`.
pub open spec fn fits_shape_at(i: int, c: char) -> bool {
    if i == 4 || i == 7 {
        c == '-'
    } else if i == 10 {
        c == ' '
    } else if i == 13 || i == 16 {
        c == ':'
    } else {
        '0' <= c && c <= '9'
    }
}

/// Whether `text` has the shape `YYYY-MM-DD HH:MM:SS`: nineteen characters,
/// decimal digits and the four separators each in its place.
pub open spec fn has_timestamp_shape(text: Seq<char>) -> bool {
    &&& text.len() == 19
    &&& forall|i: int| 0 <= i < 19 ==> fits_shape_at(i, #[trigger] text[i])
}

/// The instant that `text` denotes, as seconds from the Unix epoch, where `text`
/// is a valid timestamp: it has the fixed shape, chrono reads it as a date and
/// time, and chrono writes that instant back as `text` itself.
pub open spec fn parse_spec(text: Seq<char>) -> Option<i64> {
    if has_timestamp_shape(text) {
        match chrono_parsed(text, timestamp_pattern()) {
            Some(secs) => if chrono_formatted(secs, timestamp_pattern()) == Some(text) {
                Some(secs)
            } else {
                None
            },
            None => None,
        }
    } else {
        None
    }
}

/// Whether `secs` is the instant of some valid timestamp text.
pub open spec fn is_canonical(secs: i64) -> bool {
    match chrono_formatted(secs, timestamp_pattern()) {
        Some(text) => parse_spec(text) == Some(secs),
        None => false,
    }
}

/// The text of the instant `secs`; meaningful where `is_canonical(secs)`.
pub open spec fn canonical_text(secs: i64) -> Seq<char> {
    chrono_formatted(secs, timestamp_pattern()).unwrap()
}

/// A UTC instant with whole-second resolution that has a valid timestamp text.
#[derive(Debug, Clone, Copy, PartialEq, Eq, Structural, Ord, Hash)]
pub struct Timestamp {
    secs: i64,
}

impl PartialOrd for Timestamp {
    /// Timestamps are ordered as their instants are.
    fn partial_cmp(&self, other: &Timestamp) -> (order: Option<Ordering>) {
        if self.secs < other.secs {
            Some(Ordering::Less)
        } else if self.secs == other.secs {
            Some(Ordering::Equal)
        } else {
            Some(Ordering::Greater)
        }
    }
}

impl PartialOrdSpecImpl for Timestamp {
    open spec fn obeys_partial_cmp_spec() -> bool {
        true
    }

    open spec fn partial_cmp_spec(&self, other: &Timestamp) -> Option<Ordering> {
        if self.secs() < other.secs() {
            Some(Ordering::Less)
        } else if self.secs() == other.secs() {
            Some(Ordering::Equal)
        } else {
            Some(Ordering::Greater)
        }
    }
}

impl Timestamp {
    /// Seconds from the Unix epoch.
    pub closed spec fn secs(self) -> i64 {
        self.secs
    }

    /// Every value of the type is the instant of a valid timestamp text.
    #[verifier::type_invariant]
    pub open spec fn wf(self) -> bool {
        is_canonical(self.secs())
    }

    /// The text of this timestamp.
    pub open spec fn text(self) -> Seq<char> {
        canonical_text(self.secs())
    }

    /// Whether `text` has the shape `YYYY-MM-DD HH:MM:SS`.
    fn check_shape(text: &str) -> (ok: bool)
        ensures
            ok == has_timestamp_shape(text@),
    {
        if text.unicode_len() != 19 {
            return false;
        }
        let mut i: usize = 0;
        while i < 19
            invariant
                i <= 19,
                text@.len() == 19,
                forall|k: int| 0 <= k < i ==> fits_shape_at(k, #[trigger] text@[k]),
            decreases 19 - i,
        {
            let c = text.get_char(i);
            let fits = if i == 4 || i == 7 {
                c == '-'
            } else if i == 10 {
                c == ' '
            } else if i == 13 || i == 16 {
                c == ':'
            } else {
                '0' <= c && c <= '9'
            };
            if !fits {
                assert(!fits_shape_at(i as int, text@[i as int]));
                return false;
            }
            i += 1;
        }
        true
    }

    /// The timestamp of an instant that is known to have a valid text.
    pub(crate) fn from_canonical(secs: i64) -> (t: Timestamp)
        requires
            is_canonical(secs),
        ensures
            t.secs() == secs,
    {
        Timestamp { secs }
    }

    /// Reads a timestamp written as `YYYY-MM-DD HH:MM:SS`, in UTC.
    ///
    /// Any other text is an error that carries the text: a wrong length, a wrong
    /// separator, a character that is no digit, a date or time that does not
    /// exist, or a spelling other than the one `format` writes.
    pub fn parse(text: &str) -> (result: Result<Timestamp, ErrorKind>)
        ensures
            match result {
                Ok(t) => parse_spec(text@) == Some(t.secs()) && t.text() == text@ && t.wf(),
                Err(e) => {
                    &&& parse_spec(text@) is None
                    &&& e matches ErrorKind::ParseError(offending)
                    &&& offending@ == text@
                },
            },
    {
        if !Self::check_shape(text) {
            return Err(ErrorKind::ParseError(text.to_owned()));
        }
        let secs = match parse_instant(text, "%Y-%m-%d %H:%M:%S") {
            Some(secs) => secs,
            None => {
                return Err(ErrorKind::ParseError(text.to_owned()));
            },
        };
        let written = match format_instant(secs, "%Y-%m-%d %H:%M:%S") {
            Some(written) => written,
            None => {
                return Err(ErrorKind::ParseError(text.to_owned()));
            },
        };
        let given = text.to_owned();
        if written == given {
            Ok(Timestamp { secs })
        } else {
            Err(ErrorKind::ParseError(given))
        }
    }

    /// Writes the timestamp as `YYYY-MM-DD HH:MM:SS`.
    pub fn format(&self) -> (text: String)
        ensures
            text@ == self.text(),
            parse_spec(text@) == Some(self.secs()),
    {
        proof {
            use_type_invariant(self);
        }
        format_instant(self.secs, "%Y-%m-%d %H:%M:%S").unwrap()
    }

    /// Seconds from the Unix epoch.
    pub fn epoch_seconds(&self) -> (secs: i64)
        ensures
            secs == self.secs(),
    {
        self.secs
    }
}

/// Formatting undoes parsing: a text that parses is the text of its timestamp.
pub proof fn lemma_format_undoes_parse(text: Seq<char>)
    requires
        parse_spec(text) is Some,
    ensures
        is_canonical(parse_spec(text).unwrap()),
        canonical_text(parse_spec(text).unwrap()) == text,
{
}

/// Parsing undoes formatting: the text of a timestamp parses to that timestamp.
pub proof fn lemma_parse_undoes_format(t: Timestamp)
    requires
        t.wf(),
    ensures
        parse_spec(t.text()) == Some(t.secs()),
{
}

/// A timestamp is its instant: two timestamps of the same second are equal.
pub proof fn lemma_instant_determines_timestamp(a: Timestamp, b: Timestamp)
    requires
        a.secs() == b.secs(),
    ensures
        a == b,
{
}

} // verus!
