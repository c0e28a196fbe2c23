//! Packet timestamp rendering: `YYYY-MM-DDTHH:MM:SS.nnnnnnnnn` for a
//! representable timestamp, and a literal `INVALID_TS(seconds,nanoseconds)`
//! marker for one the calendar cannot represent.

use vstd::prelude::*;
use vstd::string::StringExecFns;

use crate::textfmt::{push_dec, push_dec_padded, spec_dec, spec_dec_padded};

verus! {

/// The calendar text `%Y-%m-%dT%H:%M:%S` of a timestamp. The text is a
/// function of the two fields alone (UTC, no locale and no time zone).
pub uninterp spec fn utc_datetime_text(seconds: u32, nanoseconds: u32) -> Seq<char>;

/// When the calendar can represent the timestamp: every second value a
/// `u32` holds is in range, so only the nanosecond field decides — it must
/// stay below one second, except that a leap second (up to two seconds) is
/// representable at the end of a minute.
pub open spec fn spec_timestamp_representable(seconds: u32, nanoseconds: u32) -> bool {
    nanoseconds < 1_000_000_000 || (nanoseconds < 2_000_000_000 && seconds % 60 == 59)
}

/// Relies on chrono's `DateTime::<Utc>::from_timestamp` and on its
/// `%Y-%m-%dT%H:%M:%S` formatting: the conversion fails exactly on a
/// nanosecond count the calendar refuses (seconds from a `u32` are always
/// in range), and the formatted text depends on the two fields alone.
#[verifier::external_body]
fn utc_datetime_string(seconds: u32, nanoseconds: u32) -> (r: Option<String>)
    ensures
        r is Some <==> spec_timestamp_representable(seconds, nanoseconds),
        r matches Some(s) ==> s@ == utc_datetime_text(seconds, nanoseconds),
{
    chrono::DateTime::from_timestamp(seconds as i64, nanoseconds).map(
        |dt| dt.format("%Y-%m-%dT%H:%M:%S").to_string(),
    )
}

/// The timestamp column's full text, given the calendar text when there is
/// one: the calendar text with the nine-digit nanosecond count appended,
/// or the invalid-timestamp marker. The flag says which case was taken.
pub fn packet_time_text(calendar: Option<String>, seconds: u32, nanoseconds: u32) -> (r: (
    String,
    bool,
))
    ensures
        calendar matches Some(c) ==> {
            &&& r.0@ == c@ + "."@ + spec_dec_padded(nanoseconds as int, 9)
            &&& r.1 == true
        },
        calendar is None ==> {
            &&& r.0@ == "INVALID_TS("@ + spec_dec(seconds as int) + ","@ + spec_dec(
                nanoseconds as int,
            ) + ")"@
            &&& r.1 == false
        },
{
    match calendar {
        Some(c) => {
            let mut s = c;
            s.append(".");
            push_dec_padded(&mut s, nanoseconds as u64, 9);
            (s, true)
        },
        None => {
            let mut s = String::new();
            s.append("INVALID_TS(");
            push_dec(&mut s, seconds as u64);
            s.append(",");
            push_dec(&mut s, nanoseconds as u64);
            s.append(")");
            proof {
                assert(s@ =~= "INVALID_TS("@ + spec_dec(seconds as int) + ","@ + spec_dec(
                    nanoseconds as int,
                ) + ")"@);
            }
            (s, false)
        },
    }
}

/// The timestamp text shown for a packet, as a function of the two fields.
pub open spec fn spec_packet_time_text(seconds: u32, nanoseconds: u32) -> Seq<char> {
    if spec_timestamp_representable(seconds, nanoseconds) {
        utc_datetime_text(seconds, nanoseconds) + "."@ + spec_dec_padded(nanoseconds as int, 9)
    } else {
        "INVALID_TS("@ + spec_dec(seconds as int) + ","@ + spec_dec(nanoseconds as int) + ")"@
    }
}

/// Render a packet timestamp; the flag says whether the calendar could
/// represent it.
pub fn format_packet_time(seconds: u32, nanoseconds: u32) -> (r: (String, bool))
    ensures
        r.0@ == spec_packet_time_text(seconds, nanoseconds),
        r.1 == spec_timestamp_representable(seconds, nanoseconds),
{
    let calendar = utc_datetime_string(seconds, nanoseconds);
    packet_time_text(calendar, seconds, nanoseconds)
}

} // verus!
