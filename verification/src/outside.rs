//! The calls that leave this crate. Each function here hands its arguments
//! to another crate and states, without proof, what comes back.

use vstd::prelude::*;

use crate::records::Timestamp;
use crate::text::{digit_value, is_digit};

verus! {

/// The capture groups of the leftmost match of the regular expression
/// `pattern` in `text`, group 0 (the whole match) first; a group that took
/// no part in the match is `None`. `None` where `pattern` is no valid
/// expression or matches nowhere in `text`.
pub uninterp spec fn regex_captures(pattern: Seq<char>, text: Seq<char>) -> Option<
    Seq<Option<Seq<char>>>,
>;

/// The normal form that a parser of the WHATWG URL standard gives to
/// `text` read as an absolute URL, or `None` where it refuses `text`.
pub uninterp spec fn url_serialization(text: Seq<char>) -> Option<Seq<char>>;

/// The last segment of the path of the URL `url`; `None` where `url` is no
/// URL, or one whose path is not made of segments.
pub uninterp spec fn url_last_segment(url: Seq<char>) -> Option<Seq<char>>;

/// The 128 bits of the UUID that `text` writes, in any of the forms that
/// the `uuid` crate reads, or `None` where it writes none.
pub uninterp spec fn uuid_parsed(text: Seq<char>) -> Option<u128>;

/// The hyphenated lower-case form of the UUID with the bits `id`.
pub uninterp spec fn uuid_text(id: u128) -> Seq<char>;

/// The format by which a length is read: hours, minutes and seconds.
pub const CLOCK_FORMAT: &'static str = "%H:%M:%S";

/// The format of the moment that starts a label.
pub const STAMP_FORMAT: &'static str = "%Y-%m-%d_%H-%M-%S";

/// `s` is two digits, a colon, two digits, a colon and two digits.
pub open spec fn is_clock_text(s: Seq<char>) -> bool {
    &&& s.len() == 8
    &&& is_digit(s[0])
    &&& is_digit(s[1])
    &&& s[2] == ':'
    &&& is_digit(s[3])
    &&& is_digit(s[4])
    &&& s[5] == ':'
    &&& is_digit(s[6])
    &&& is_digit(s[7])
}

/// The number that the two digits at `at` write.
pub open spec fn two_digits(s: Seq<char>, at: int) -> int {
    digit_value(s[at]) * 10 + digit_value(s[at + 1])
}

/// The seconds from midnight to the time of day that `s` writes: the hour
/// up to 23, the minute up to 59, the second up to 60 (a leap second).
pub open spec fn clock_seconds(s: Seq<char>) -> Option<u64> {
    if two_digits(s, 0) <= 23 && two_digits(s, 3) <= 59 && two_digits(s, 6) <= 60 {
        Some((two_digits(s, 0) * 3600 + two_digits(s, 3) * 60 + two_digits(s, 6)) as u64)
    } else {
        None
    }
}

/// Calls `regex::Regex::new` on `pattern` and `regex::Regex::captures` on
/// `text`. Claimed: the groups that come back are a function of the two
/// texts alone, here named `regex_captures`. Nothing is claimed of what
/// matches.
#[verifier::external_body]
pub(crate) fn captures(pattern: &str, text: &str) -> (groups: Option<Vec<Option<String>>>)
    ensures
        groups.deep_view() == regex_captures(pattern@, text@),
{
    let expression = regex::Regex::new(pattern).ok()?;
    let found = expression.captures(text)?;
    Some(found.iter().map(|group| group.map(|m| m.as_str().to_owned())).collect())
}

/// Calls `reqwest::Url::parse` and hands back the serialization of the URL.
/// Claimed: it is a function of `text` alone, here named
/// `url_serialization`.
#[verifier::external_body]
pub(crate) fn parse_url(text: &str) -> (url: Option<String>)
    ensures
        url.deep_view() == url_serialization(text@),
{
    reqwest::Url::parse(text).ok().map(String::from)
}

/// Calls `reqwest::Url::parse` on `url` and `reqwest::Url::path_segments`
/// on what it gives, and hands back the last segment. Claimed: it is a
/// function of `url` alone, here named `url_last_segment`.
#[verifier::external_body]
pub(crate) fn last_path_segment(url: &str) -> (segment: Option<String>)
    ensures
        segment.deep_view() == url_last_segment(url@),
{
    let parsed = reqwest::Url::parse(url).ok()?;
    let last = parsed.path_segments()?.last()?;
    Some(last.to_owned())
}

/// Calls `uuid::Uuid::try_parse`. Claimed: the bits of the UUID are a
/// function of `text` alone, here named `uuid_parsed`.
#[verifier::external_body]
pub(crate) fn parse_uuid(text: &str) -> (id: Option<u128>)
    ensures
        id == uuid_parsed(text@),
{
    uuid::Uuid::try_parse(text).ok().map(|id| id.as_u128())
}

/// Calls `uuid::Uuid::new_v4`, which draws the bits at random: nothing is
/// claimed of them.
#[verifier::external_body]
pub(crate) fn fresh_id() -> (id: u128) {
    uuid::Uuid::new_v4().as_u128()
}

/// Calls `uuid::Uuid::from_u128` and writes the UUID as its `Display`
/// does. Claimed: the text is a function of the bits, here named
/// `uuid_text`, and `uuid::Uuid::try_parse` reads the same bits back from
/// it.
#[verifier::external_body]
pub(crate) fn format_uuid(id: u128) -> (text: String)
    ensures
        text@ == uuid_text(id),
        uuid_parsed(text@) == Some(id),
{
    uuid::Uuid::from_u128(id).to_string()
}

/// Calls `chrono::NaiveTime::parse_from_str` and measures the time of day
/// from midnight with `signed_duration_since` and `to_std`. Claimed, for a
/// text of the form `HH:MM:SS` and the format of hours, minutes and
/// seconds only: an hour above 23, a minute above 59 or a second above 60
/// is refused, and any other text gives its distance from midnight in
/// whole seconds.
#[verifier::external_body]
pub(crate) fn parse_clock(text: &str, format: &str) -> (seconds: Option<u64>)
    requires
        is_clock_text(text@),
        format@ == CLOCK_FORMAT@,
    ensures
        seconds == clock_seconds(text@),
{
    let time = chrono::NaiveTime::parse_from_str(text, format).ok()?;
    let elapsed = time.signed_duration_since(chrono::NaiveTime::MIN).to_std().ok()?;
    Some(elapsed.as_secs())
}

/// Calls `chrono::Utc::now`. The result depends on when it is called:
/// nothing is claimed of it.
#[verifier::external_body]
pub(crate) fn now() -> (moment: Timestamp) {
    let moment = chrono::Utc::now();
    Timestamp { secs: moment.timestamp(), nanos: moment.timestamp_subsec_nanos() }
}

/// Calls `chrono::Utc::now` and writes the moment in the given format. The
/// result depends on when it is called: nothing is claimed of it.
#[verifier::external_body]
pub(crate) fn stamp_now(format: &str) -> (stamp: String)
    requires
        format@ == STAMP_FORMAT@,
{
    chrono::Utc::now().format(format).to_string()
}

} // verus!
