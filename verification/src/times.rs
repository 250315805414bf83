use vstd::prelude::*;

use chrono::{DateTime, TimeZone, Utc};

verus! {

/// The whole seconds since the Unix epoch of the UTC time that `text` gives in
/// `format`, or `None` when it does not parse or lies before the epoch.
pub uninterp spec fn utc_seconds(text: Seq<char>, format: Seq<char>) -> Option<u64>;

/// The text of the UTC time `seconds` after the Unix epoch, in `format`.
pub uninterp spec fn utc_text(seconds: u64, format: Seq<char>) -> Seq<char>;

/// The layout of the times that the privacy settings service exchanges.
pub open spec fn ess_time_format() -> Seq<char> {
    "%Y-%m-%dT%H:%M:%SZ"@
}

/// The last second after the Unix epoch that chrono can represent: the end of
/// year 262142.
pub const MAX_CHRONO_SECONDS: u64 = 8210266876799;

/// `chrono::TimeZone::datetime_from_str` for `Utc`, then the duration since the
/// Unix epoch (`signed_duration_since`, `to_std`) in whole seconds. The result
/// is named by [`utc_seconds`].
#[verifier::external_body]
#[allow(deprecated)]
pub(crate) fn parse_utc_seconds(text: &str, format: &str) -> (r: Option<u64>)
    ensures
        r == utc_seconds(text@, format@),
{
    match Utc.datetime_from_str(text, format) {
        Ok(time) => match time.signed_duration_since(DateTime::<Utc>::UNIX_EPOCH).to_std() {
            Ok(duration) => Some(duration.as_secs()),
            Err(_) => None,
        },
        Err(_) => None,
    }
}

/// The `DateTime<Utc>` of `UNIX_EPOCH + seconds` (`From<SystemTime>`) formatted
/// with `DateTime::format` in `format`. The result is named by [`utc_text`].
#[verifier::external_body]
pub(crate) fn format_utc_seconds(seconds: u64, format: &str) -> (r: String)
    requires
        seconds <= MAX_CHRONO_SECONDS,
        format@ == ess_time_format(),
    ensures
        r@ == utc_text(seconds, format@),
{
    let time: DateTime<Utc> = (std::time::UNIX_EPOCH + std::time::Duration::from_secs(seconds)).into();
    time.format(format).to_string()
}

} // verus!
