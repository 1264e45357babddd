//! The universal value type that property resolution produces, and the
//! conversions into it.
//!
//! All unsigned integer widths widen to one 64-bit value, timestamps render
//! as RFC-3339 strings, pure dates render as ISO-8601 date strings, absent
//! optional fields render as an explicit null, and closed enumerations
//! render as fixed lowercase tokens with unrecognized members rendering as
//! the literal token `unknown`.

use vstd::prelude::*;

use crate::model::{days_in_month, DateYmd, MatchStatus, MatchType, Tier, Timestamp};

verus! {

/// A property value in its universal form.
#[derive(Debug, Clone, PartialEq, Eq)]
pub enum FieldValue {
    Null,
    Int64(i64),
    Uint64(u64),
    Boolean(bool),
    String(String),
}

/// The mathematical image of a universal value.
pub enum FieldValueV {
    Null,
    Int64(i64),
    Uint64(u64),
    Boolean(bool),
    String(Seq<char>),
}

impl View for FieldValue {
    type V = FieldValueV;

    open spec fn view(&self) -> FieldValueV {
        match self {
            FieldValue::Null => FieldValueV::Null,
            FieldValue::Int64(x) => FieldValueV::Int64(*x),
            FieldValue::Uint64(x) => FieldValueV::Uint64(*x),
            FieldValue::Boolean(b) => FieldValueV::Boolean(*b),
            FieldValue::String(s) => FieldValueV::String(s@),
        }
    }
}

/// The RFC-3339 rendering of the instant with the given seconds and
/// nanoseconds since the Unix epoch, at UTC.
pub uninterp spec fn rfc3339_of(secs: int, nanos: int) -> Seq<char>;

/// The ISO-8601 rendering of the given calendar date.
pub uninterp spec fn iso_date_of(year: int, month: int, day: int) -> Seq<char>;

/// Relies on time's `OffsetDateTime::from_unix_timestamp`,
/// `replace_nanosecond`, and `format` with the RFC-3339 description: none of
/// the three fails on an instant between year 0 and year 9999 at UTC with a
/// well-formed nanosecond part, and the text they produce depends on the
/// instant alone.
#[verifier::external_body]
fn format_rfc3339(secs: i64, nanos: u32) -> (r: String)
    requires
        0 <= secs <= 253402300799,
        nanos <= 999999999,
    ensures
        r@ == rfc3339_of(secs as int, nanos as int),
{
    let dt = time::OffsetDateTime::from_unix_timestamp(secs)
        .expect("seconds are in the representable range")
        .replace_nanosecond(nanos)
        .expect("nanoseconds are below one second");
    dt.format(&time::format_description::well_known::Rfc3339)
        .expect("an in-range UTC instant renders as RFC-3339")
}

/// Relies on time's `Month::try_from`, `Date::from_calendar_date`, and
/// `format` with the ISO-8601 date description: none of the three fails on a
/// real calendar date with a four-digit year, and the text they produce
/// depends on the date alone.
#[verifier::external_body]
fn format_iso_date(year: i32, month: u8, day: u8) -> (r: String)
    requires
        0 <= year <= 9999,
        1 <= month <= 12,
        1 <= day <= days_in_month(year as int, month as int),
    ensures
        r@ == iso_date_of(year as int, month as int, day as int),
{
    let m = time::Month::try_from(month).expect("month is in range");
    let d = time::Date::from_calendar_date(year, m, day).expect("date is a real calendar date");
    d.format(&time::format_description::well_known::Iso8601::DATE)
        .expect("a four-digit-year date renders as ISO-8601")
}

/// The fixed lowercase token of a tournament tier.
pub open spec fn tier_token(t: Tier) -> Seq<char> {
    match t {
        Tier::Unranked => "unranked"@,
        Tier::D => "d"@,
        Tier::C => "c"@,
        Tier::B => "b"@,
        Tier::A => "a"@,
        Tier::S => "s"@,
    }
}

/// The fixed lowercase token of a match format; unrecognized members render
/// as `unknown`.
pub open spec fn match_type_token(t: MatchType) -> Seq<char> {
    match t {
        MatchType::AllGamesPlayed => "all_games_played"@,
        MatchType::BestOf => "best_of"@,
        MatchType::Custom => "custom"@,
        MatchType::FirstTo => "first_to"@,
        MatchType::OwBestOf => "ow_best_of"@,
        MatchType::RedBullHomeGround => "red_bull_home_ground"@,
        MatchType::Unknown => "unknown"@,
    }
}

/// The fixed lowercase token of a match status; unrecognized members render
/// as `unknown`.
pub open spec fn match_status_token(s: MatchStatus) -> Seq<char> {
    match s {
        MatchStatus::Canceled => "canceled"@,
        MatchStatus::Finished => "finished"@,
        MatchStatus::NotStarted => "not_started"@,
        MatchStatus::Postponed => "postponed"@,
        MatchStatus::Running => "running"@,
        MatchStatus::Unknown => "unknown"@,
    }
}

/// Conversion of one field into its universal value.
///
/// `fv_wf` says when the field is renderable at all (timestamps and dates
/// must be in range); `fv_spec` pins the exact value the conversion yields.
pub trait IntoFieldValue: Sized {
    spec fn fv_wf(self) -> bool;

    spec fn fv_spec(self) -> FieldValueV;

    fn into_field_value(self) -> (r: FieldValue)
        requires
            self.fv_wf(),
        ensures
            r@ == self.fv_spec(),
    ;
}

impl IntoFieldValue for u64 {
    open spec fn fv_wf(self) -> bool {
        true
    }

    open spec fn fv_spec(self) -> FieldValueV {
        FieldValueV::Uint64(self)
    }

    fn into_field_value(self) -> (r: FieldValue) {
        FieldValue::Uint64(self)
    }
}

impl IntoFieldValue for u32 {
    open spec fn fv_wf(self) -> bool {
        true
    }

    open spec fn fv_spec(self) -> FieldValueV {
        FieldValueV::Uint64(self as u64)
    }

    fn into_field_value(self) -> (r: FieldValue) {
        FieldValue::Uint64(self as u64)
    }
}

impl IntoFieldValue for u16 {
    open spec fn fv_wf(self) -> bool {
        true
    }

    open spec fn fv_spec(self) -> FieldValueV {
        FieldValueV::Uint64(self as u64)
    }

    fn into_field_value(self) -> (r: FieldValue) {
        FieldValue::Uint64(self as u64)
    }
}

impl IntoFieldValue for bool {
    open spec fn fv_wf(self) -> bool {
        true
    }

    open spec fn fv_spec(self) -> FieldValueV {
        FieldValueV::Boolean(self)
    }

    fn into_field_value(self) -> (r: FieldValue) {
        FieldValue::Boolean(self)
    }
}

impl IntoFieldValue for String {
    open spec fn fv_wf(self) -> bool {
        true
    }

    open spec fn fv_spec(self) -> FieldValueV {
        FieldValueV::String(self@)
    }

    fn into_field_value(self) -> (r: FieldValue) {
        FieldValue::String(self)
    }
}

impl IntoFieldValue for Timestamp {
    open spec fn fv_wf(self) -> bool {
        self.valid()
    }

    open spec fn fv_spec(self) -> FieldValueV {
        FieldValueV::String(rfc3339_of(self.secs as int, self.nanos as int))
    }

    fn into_field_value(self) -> (r: FieldValue) {
        FieldValue::String(format_rfc3339(self.secs, self.nanos))
    }
}

impl IntoFieldValue for DateYmd {
    open spec fn fv_wf(self) -> bool {
        self.valid()
    }

    open spec fn fv_spec(self) -> FieldValueV {
        FieldValueV::String(iso_date_of(self.year as int, self.month as int, self.day as int))
    }

    fn into_field_value(self) -> (r: FieldValue) {
        FieldValue::String(format_iso_date(self.year, self.month, self.day))
    }
}

impl IntoFieldValue for Tier {
    open spec fn fv_wf(self) -> bool {
        true
    }

    open spec fn fv_spec(self) -> FieldValueV {
        FieldValueV::String(tier_token(self))
    }

    fn into_field_value(self) -> (r: FieldValue) {
        let s = match self {
            Tier::Unranked => "unranked".to_owned(),
            Tier::D => "d".to_owned(),
            Tier::C => "c".to_owned(),
            Tier::B => "b".to_owned(),
            Tier::A => "a".to_owned(),
            Tier::S => "s".to_owned(),
        };
        FieldValue::String(s)
    }
}

impl IntoFieldValue for MatchType {
    open spec fn fv_wf(self) -> bool {
        true
    }

    open spec fn fv_spec(self) -> FieldValueV {
        FieldValueV::String(match_type_token(self))
    }

    fn into_field_value(self) -> (r: FieldValue) {
        let s = match self {
            MatchType::AllGamesPlayed => "all_games_played".to_owned(),
            MatchType::BestOf => "best_of".to_owned(),
            MatchType::Custom => "custom".to_owned(),
            MatchType::FirstTo => "first_to".to_owned(),
            MatchType::OwBestOf => "ow_best_of".to_owned(),
            MatchType::RedBullHomeGround => "red_bull_home_ground".to_owned(),
            MatchType::Unknown => "unknown".to_owned(),
        };
        FieldValue::String(s)
    }
}

impl IntoFieldValue for MatchStatus {
    open spec fn fv_wf(self) -> bool {
        true
    }

    open spec fn fv_spec(self) -> FieldValueV {
        FieldValueV::String(match_status_token(self))
    }

    fn into_field_value(self) -> (r: FieldValue) {
        let s = match self {
            MatchStatus::Canceled => "canceled".to_owned(),
            MatchStatus::Finished => "finished".to_owned(),
            MatchStatus::NotStarted => "not_started".to_owned(),
            MatchStatus::Postponed => "postponed".to_owned(),
            MatchStatus::Running => "running".to_owned(),
            MatchStatus::Unknown => "unknown".to_owned(),
        };
        FieldValue::String(s)
    }
}

impl<T: IntoFieldValue> IntoFieldValue for Option<T> {
    open spec fn fv_wf(self) -> bool {
        self matches Some(v) ==> v.fv_wf()
    }

    open spec fn fv_spec(self) -> FieldValueV {
        match self {
            Option::None => FieldValueV::Null,
            Option::Some(v) => v.fv_spec(),
        }
    }

    fn into_field_value(self) -> (r: FieldValue) {
        match self {
            Option::None => FieldValue::Null,
            Option::Some(v) => v.into_field_value(),
        }
    }
}

} // verus!
