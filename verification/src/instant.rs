//! Instants of UTC, and their text in the RFC 3339 form that the exchange
//! reads. The calendar and the formatting are the `chrono` crate's.

use chrono::DateTime;
use chrono::Utc;
use vstd::prelude::*;

verus! {

/// The first second that `chrono` represents: midnight of 1 January of the
/// year -262143.
pub const MIN_TIMESTAMP: i64 = -8_334_601_228_800;

/// The last second that `chrono` represents: the last one of 31 December of
/// the year 262142.
pub const MAX_TIMESTAMP: i64 = 8_210_266_876_799;

/// `chrono` has an instant for `secs` seconds since the Unix epoch and `nanos`
/// nanoseconds more: the second is within its calendar, and the nanoseconds
/// stay under one second, or under two in the last second of a minute, where
/// they stand for a leap second.
pub open spec fn representable(secs: int, nanos: int) -> bool {
    &&& MIN_TIMESTAMP <= secs <= MAX_TIMESTAMP
    &&& 0 <= nanos
    &&& (nanos < 1_000_000_000 || (nanos < 2_000_000_000 && secs % 60 == 59))
}

/// The text that `DateTime::<Utc>::to_rfc3339` gives for the instant of `secs`
/// seconds since the Unix epoch and `nanos` nanoseconds more.
pub uninterp spec fn rfc3339_text(secs: int, nanos: int) -> Seq<char>;

/// Calls `DateTime::<Utc>::from_timestamp` and, on the instant it gives,
/// `to_rfc3339`. The first returns `None` outside `chrono`'s calendar and on
/// nanoseconds that no second has, which is what `representable` spells
/// out; the second never fails, and its result is only named.
#[verifier::external_body]
fn format_rfc3339(secs: i64, nanos: u32) -> (r: Option<String>)
    ensures
        r is Some <==> representable(secs as int, nanos as int),
        r matches Some(text) ==> text@ == rfc3339_text(secs as int, nanos as int),
{
    match DateTime::<Utc>::from_timestamp(secs, nanos) {
        Some(instant) => Some(instant.to_rfc3339()),
        None => None,
    }
}

/// An instant of UTC, held as a Unix timestamp together with its text.
#[derive(Debug)]
pub struct UtcInstant {
    secs: i64,
    nanos: u32,
    text: String,
}

/// The mathematical value of a `UtcInstant`.
pub struct InstantView {
    pub secs: int,
    pub nanos: int,
}

impl InstantView {
    /// The instant in RFC 3339 form.
    pub open spec fn rfc3339(self) -> Seq<char> {
        rfc3339_text(self.secs, self.nanos)
    }
}

impl View for UtcInstant {
    type V = InstantView;

    closed spec fn view(&self) -> InstantView {
        InstantView { secs: self.secs as int, nanos: self.nanos as int }
    }
}

impl UtcInstant {
    #[verifier::type_invariant]
    spec fn well_formed(self) -> bool {
        &&& representable(self.secs as int, self.nanos as int)
        &&& self.text@ == rfc3339_text(self.secs as int, self.nanos as int)
    }

    /// The instant `secs` seconds after the Unix epoch (before it, where
    /// `secs` is negative) and `nanos` nanoseconds more, where there is one.
    pub fn from_timestamp(secs: i64, nanos: u32) -> (r: Option<UtcInstant>)
        ensures
            r is Some <==> representable(secs as int, nanos as int),
            r matches Some(instant) ==> instant@ == (InstantView {
                secs: secs as int,
                nanos: nanos as int,
            }),
    {
        match format_rfc3339(secs, nanos) {
            Some(text) => Some(UtcInstant { secs, nanos, text }),
            None => None,
        }
    }

    /// Whole seconds since the Unix epoch.
    pub fn timestamp(&self) -> (secs: i64)
        ensures
            secs == self@.secs,
            representable(self@.secs, self@.nanos),
    {
        proof {
            use_type_invariant(self);
        }
        self.secs
    }

    /// Nanoseconds since the last whole second.
    pub fn timestamp_subsec_nanos(&self) -> (nanos: u32)
        ensures
            nanos == self@.nanos,
    {
        self.nanos
    }

    /// The instant in RFC 3339 form, such as `2015-05-15T00:00:00+00:00`.
    pub fn to_rfc3339(&self) -> (text: String)
        ensures
            text@ == self@.rfc3339(),
    {
        proof {
            use_type_invariant(self);
        }
        self.text.clone()
    }
}

} // verus!
