//! The `Retry-After` header of a reply.
use chrono::{DateTime, Utc};
use reqwest::header::{HeaderMap, HeaderValue};
use std::time::SystemTime;
use vstd::prelude::*;

use crate::headers::{header_contents, header_value};
use crate::text::{
    decimal, is_blank, is_digit, is_numeral, is_white_space, law_decimal_reads_back,
    law_trim_removes_blanks, lemma_decimal_numeral, numeral_value, parse_u64, parsed_u64, trim,
    trimmed, visible_ascii, visible_text,
};
use crate::time::{clamped_span, longest_span, Duration, Timestamp, NANOS_PER_SECOND};

verus! {

/// The name of the header.
pub const RETRY_AFTER: &'static str = "retry-after";

/// The point in time that a text names as an RFC 2822 date, if it is one: the whole second, counted
/// from the Unix epoch, and the nanoseconds beyond it.
pub uninterp spec fn rfc2822_instant(s: Seq<char>) -> Option<(i64, u32)>;

/// `DateTime::parse_from_rfc2822`, then `with_timezone(&Utc)`, `timestamp` and
/// `timestamp_subsec_nanos`: the point in time that the text names. What the grammar of such a date
/// is and how it is reckoned stays with the parser; the result depends on the text alone.
#[verifier::external_body]
fn parse_rfc2822(s: &str) -> (r: Option<(i64, u32)>)
    ensures
        r == rfc2822_instant(s@),
{
    let instant = DateTime::parse_from_rfc2822(s).ok()?.with_timezone(&Utc);
    Some((instant.timestamp(), instant.timestamp_subsec_nanos()))
}

/// A reading of the clock is a distance from the Unix epoch, in seconds and nanoseconds; the
/// nanoseconds make up less than a second.
pub open spec fn is_clock_reading(reading: Result<(u64, u32), (u64, u32)>) -> bool {
    match reading {
        Ok(distance) => distance.1 < NANOS_PER_SECOND,
        Err(distance) => distance.1 < NANOS_PER_SECOND,
    }
}

/// The point in time that a reading of the clock stands for: `Ok` is after the epoch, `Err` before
/// it.
pub open spec fn clock_instant(reading: Result<(u64, u32), (u64, u32)>) -> int {
    match reading {
        Ok(distance) => distance.0 * NANOS_PER_SECOND + distance.1,
        Err(distance) => -(distance.0 * NANOS_PER_SECOND + distance.1),
    }
}

/// `SystemTime::now`, as its distance from the Unix epoch in seconds and nanoseconds: `Ok` after
/// the epoch, `Err` before it. `Duration::subsec_nanos` is always less than a second; of what time
/// the clock shows nothing is claimed.
#[verifier::external_body]
fn clock() -> (r: Result<(u64, u32), (u64, u32)>)
    ensures
        is_clock_reading(r),
{
    match SystemTime::now().duration_since(SystemTime::UNIX_EPOCH) {
        Ok(d) => Ok((d.as_secs(), d.subsec_nanos())),
        Err(e) => Err((e.duration().as_secs(), e.duration().subsec_nanos())),
    }
}

/// How long a header value that names a point in time asks to wait, seen from `now`. A point in
/// the past asks for no wait.
pub open spec fn wait_until(instant: (i64, u32), now: int) -> int {
    clamped_span(instant.0 * NANOS_PER_SECOND + instant.1 - now)
}

/// The wait that a header value asks for, in nanoseconds, if it asks for one: a number of seconds,
/// or else a date, of which `dated` says what point in time it names.
pub open spec fn wait_for(raw: Seq<char>, dated: Option<(i64, u32)>, now: int) -> Option<int> {
    match parsed_u64(trimmed(raw)) {
        Some(seconds) => Some(seconds * NANOS_PER_SECOND),
        None => match dated {
            Some(instant) => Some(wait_until(instant, now)),
            None => None,
        },
    }
}

/// The wait that a header value asks for, in nanoseconds, if it asks for one.
pub open spec fn retry_after_span(raw: Seq<char>, now: int) -> Option<int> {
    wait_for(raw, rfc2822_instant(trimmed(raw)), now)
}

/// The wait that a reply's headers ask for, in nanoseconds, if they ask for one.
pub open spec fn headers_retry_span(contents: Map<Seq<char>, Seq<u8>>, now: int) -> Option<int> {
    if contents.contains_key(RETRY_AFTER@) {
        match visible_text(contents[RETRY_AFTER@]) {
            Some(raw) => retry_after_span(raw, now),
            None => None,
        }
    } else {
        None
    }
}

/// The wait is the one that a reply's headers ask for at some reading of the clock.
pub open spec fn is_clocked_span(contents: Map<Seq<char>, Seq<u8>>, wait: Option<int>) -> bool {
    exists|reading: Result<(u64, u32), (u64, u32)>|
        is_clock_reading(reading) && wait == headers_retry_span(
            contents,
            #[trigger] clock_instant(reading),
        )
}

/// The length of a wait, if there is one.
pub open spec fn span(wait: Option<Duration>) -> Option<int> {
    match wait {
        Some(d) => Some(d@),
        None => None,
    }
}

/// The wait that a header value asks for, where `dated` is the point in time that the value names
/// as a date, if it is one. A date in the past asks to retry at once.
pub fn wait_asked_for(raw: &str, dated: Option<(i64, u32)>, now: Timestamp) -> (r: Option<Duration>)
    ensures
        span(r) == wait_for(raw@, dated, now@),
{
    if let Some(seconds) = parse_u64(trim(raw)) {
        return Some(Duration::from_secs(seconds));
    }
    match dated {
        Some((seconds, nanos)) => Some(Timestamp::from_unix(seconds, nanos).duration_since(&now)),
        None => None,
    }
}

/// Reads the value of a `Retry-After` header as a number of seconds or an HTTP-date (RFC 7231,
/// Section 7.1.3). A date in the past asks to retry at once. Anything else is `None`.
pub fn parse_retry_after_value(raw: &str, now: Timestamp) -> (r: Option<Duration>)
    ensures
        span(r) == retry_after_span(raw@, now@),
{
    wait_asked_for(raw, parse_rfc2822(trim(raw)), now)
}

/// The point in time that a reading of the clock stands for.
pub fn timestamp_of_reading(reading: Result<(u64, u32), (u64, u32)>) -> (r: Timestamp)
    ensures
        r@ == clock_instant(reading),
{
    match reading {
        Ok((seconds, nanos)) => Timestamp::after_epoch(seconds, nanos),
        Err((seconds, nanos)) => Timestamp::before_epoch(seconds, nanos),
    }
}

/// The point in time that the system clock shows, whichever it is.
fn now() -> (r: Timestamp)
    ensures
        exists|reading: Result<(u64, u32), (u64, u32)>|
            is_clock_reading(reading) && r@ == #[trigger] clock_instant(reading),
{
    let reading = clock();
    timestamp_of_reading(reading)
}

/// Reads the `Retry-After` header against a given time.
pub fn parse_retry_after_at(headers: &HeaderMap<HeaderValue>, now: Timestamp) -> (r: Option<
    Duration,
>)
    ensures
        span(r) == headers_retry_span(header_contents(*headers), now@),
{
    proof {
        reveal_strlit("retry-after");
    }
    match header_value(headers, RETRY_AFTER) {
        Some(bytes) => match visible_ascii(bytes) {
            Some(raw) => parse_retry_after_value(raw.as_str(), now),
            None => None,
        },
        None => None,
    }
}

/// Reads the `Retry-After` header as either a number of seconds or an HTTP-date, the latter against
/// the system clock. If the header is absent or unreadable the result is `None`.
pub fn parse_retry_after(headers: &HeaderMap<HeaderValue>) -> (r: Option<Duration>)
    ensures
        is_clocked_span(header_contents(*headers), span(r)),
{
    let at = now();
    parse_retry_after_at(headers, at)
}

/// A number of seconds, with white space around it or not, asks to wait that many seconds, whatever
/// the time is.
pub proof fn law_seconds_are_taken_as_they_stand(
    before: Seq<char>,
    seconds: u64,
    after: Seq<char>,
    now: int,
)
    requires
        is_blank(before),
        is_blank(after),
    ensures
        retry_after_span(before + decimal(seconds as nat) + after, now) == Some(
            seconds * NANOS_PER_SECOND,
        ),
{
    law_decimal_reads_back(seconds);
    lemma_decimal_numeral(seconds as nat);
    let digits = decimal(seconds as nat);
    assert(is_digit(digits[0]) && is_digit(digits.last()));
    law_trim_removes_blanks(before, digits, after);
}

/// A date that is not after the present asks to retry at once.
pub proof fn law_past_date_asks_for_no_wait(raw: Seq<char>, now: int)
    requires
        parsed_u64(trimmed(raw)) is None,
    ensures
        (rfc2822_instant(trimmed(raw)) matches Some(at) && at.0 * NANOS_PER_SECOND + at.1 <= now)
            ==> retry_after_span(raw, now) == Some(0int),
{
}

/// A date asks for less time the later it is read: each second that passes is one second less,
/// until nothing is left.
pub proof fn law_date_wait_runs_down(raw: Seq<char>, now: int, later: int)
    requires
        parsed_u64(trimmed(raw)) is None,
        now <= later,
    ensures
        (retry_after_span(raw, now) matches Some(wait) && wait < longest_span())
            ==> retry_after_span(raw, later) == Some(
            clamped_span(retry_after_span(raw, now)->0 - (later - now)),
        ),
{
}

/// Without the header there is no wait, nor with one that is neither a number nor a date.
pub proof fn law_no_readable_header_no_wait(contents: Map<Seq<char>, Seq<u8>>, now: int)
    ensures
        !contents.contains_key(RETRY_AFTER@) ==> headers_retry_span(contents, now) is None,
        visible_text(contents[RETRY_AFTER@]) is None ==> headers_retry_span(contents, now) is None,
        (visible_text(contents[RETRY_AFTER@]) matches Some(raw) && parsed_u64(trimmed(raw)) is None
            && rfc2822_instant(trimmed(raw)) is None) ==> headers_retry_span(contents, now) is None,
{
}

/// The wait from `now` until a point in time, both in nanoseconds: none if the point has passed,
/// and the longest span there is if it is further away than that.
pub open spec fn is_wait_from_to(wait: int, now: int, at: int) -> bool {
    &&& at <= now ==> wait == 0
    &&& now <= at <= now + 18_446_744_073_709_551_615_999_999_999 ==> now + wait == at
    &&& at > now + 18_446_744_073_709_551_615_999_999_999 ==> wait
        == 18_446_744_073_709_551_615_999_999_999
}

/// A number of seconds asks for that many seconds, whatever the date or the time is. Without one a
/// date asks to wait until then. With neither there is no wait.
pub proof fn law_wait_is_a_number_or_a_date(
    raw: &str,
    text: &str,
    number: Option<u64>,
    dated: Option<(i64, u32)>,
    now: Timestamp,
    r: Option<Duration>,
)
    requires
        call_ensures(wait_asked_for, (raw, dated, now), r),
        call_ensures(trim, (raw,), text),
        call_ensures(parse_u64, (text,), number),
    ensures
        number matches Some(seconds) ==> r is Some && r->0@ == seconds * 1_000_000_000,
        number is None && dated is Some ==> r is Some && is_wait_from_to(
            r->0@,
            now@,
            (dated->0).0 * 1_000_000_000 + (dated->0).1,
        ),
        number is None && dated is None ==> r is None,
{
}

/// The value of the header is read as a number of seconds or else as a date, without the white
/// space around it.
pub proof fn law_value_is_a_number_or_a_date(
    raw: &str,
    text: &str,
    number: Option<u64>,
    now: Timestamp,
    r: Option<Duration>,
)
    requires
        call_ensures(parse_retry_after_value, (raw, now), r),
        call_ensures(trim, (raw,), text),
        call_ensures(parse_u64, (text,), number),
    ensures
        number matches Some(seconds) ==> r is Some && r->0@ == seconds * 1_000_000_000,
        number is None ==> (r is Some <==> rfc2822_instant(text@) is Some),
        number is None && r is Some ==> is_wait_from_to(
            r->0@,
            now@,
            (rfc2822_instant(text@)->0).0 * 1_000_000_000 + (rfc2822_instant(text@)->0).1,
        ),
{
}

/// The header is read by its name, and its value as text if every byte of it is visible; without
/// such a value there is no wait.
pub proof fn law_header_is_read_as_its_text(
    headers: HeaderMap<HeaderValue>,
    raw: &str,
    now: Timestamp,
    of_text: Option<Duration>,
    r: Option<Duration>,
)
    requires
        call_ensures(parse_retry_after_at, (&headers, now), r),
        call_ensures(parse_retry_after_value, (raw, now), of_text),
    ensures
        !header_contents(headers).contains_key("retry-after"@) ==> r is None,
        header_contents(headers).contains_key("retry-after"@) ==> {
            let bytes = header_contents(headers)["retry-after"@];
            let visible = forall|i: int|
                0 <= i < bytes.len() ==> (#[trigger] bytes[i] == 9 || 32 <= bytes[i] <= 126);
            &&& !visible ==> r is None
            &&& visible && raw@ == bytes.map_values(|b: u8| b as char) ==> span(r) == span(of_text)
        },
{
    if header_contents(headers).contains_key("retry-after"@) {
        let bytes = header_contents(headers)["retry-after"@];
        lemma_visible(bytes);
    }
}

proof fn lemma_visible(bytes: Seq<u8>)
    ensures
        visible_text(bytes) is Some <==> (forall|i: int|
            0 <= i < bytes.len() ==> (#[trigger] bytes[i] == 9 || 32 <= bytes[i] <= 126)),
        visible_text(bytes) is Some ==> visible_text(bytes)->0 == bytes.map_values(
            |b: u8| b as char,
        ),
{
    if forall|i: int| 0 <= i < bytes.len() ==> crate::text::is_visible(#[trigger] bytes[i]) {
    } else {
        let i = choose|i: int| 0 <= i < bytes.len() && !crate::text::is_visible(
            #[trigger] bytes[i],
        );
        assert(!(bytes[i] == 9 || 32 <= bytes[i] <= 126));
    }
}

/// Spaces and tabs and nothing else.
pub open spec fn is_padding(bytes: Seq<u8>) -> bool {
    forall|i: int| 0 <= i < bytes.len() ==> (#[trigger] bytes[i] == 32 || bytes[i] == 9)
}

/// The header value is a number of seconds: decimal digits, with spaces and tabs around them or
/// none.
pub open spec fn spells_seconds(bytes: Seq<u8>, seconds: u64) -> bool {
    exists|before: Seq<u8>, digits: Seq<u8>, after: Seq<u8>|
        {
            &&& is_padding(before)
            &&& is_padding(after)
            &&& bytes == #[trigger] (before + digits + after)
            &&& digits.len() > 0
            &&& forall|i: int| 0 <= i < digits.len() ==> 48 <= #[trigger] digits[i] <= 57
            &&& numeral_value(digits.map_values(|b: u8| b as char)) == seconds
        }
}

/// A number of seconds in the header is the wait, whatever the time is.
pub proof fn lemma_seconds_in_the_header(
    contents: Map<Seq<char>, Seq<u8>>,
    seconds: u64,
    now: int,
)
    requires
        contents.contains_key("retry-after"@),
        spells_seconds(contents["retry-after"@], seconds),
    ensures
        headers_retry_span(contents, now) == Some(seconds * 1_000_000_000),
{
    let bytes = contents["retry-after"@];
    let (before, digits, after) = choose|before: Seq<u8>, digits: Seq<u8>, after: Seq<u8>|
        {
            &&& is_padding(before)
            &&& is_padding(after)
            &&& bytes == #[trigger] (before + digits + after)
            &&& digits.len() > 0
            &&& forall|i: int| 0 <= i < digits.len() ==> 48 <= #[trigger] digits[i] <= 57
            &&& numeral_value(digits.map_values(|b: u8| b as char)) == seconds
        };
    let as_char = |b: u8| b as char;
    let front = before.map_values(as_char);
    let number = digits.map_values(as_char);
    let back = after.map_values(as_char);
    assert forall|i: int| 0 <= i < bytes.len() implies (#[trigger] bytes[i] == 9 || 32 <= bytes[i]
        <= 126) by {
        if i < before.len() {
            assert(bytes[i] == before[i]);
        } else if i < before.len() + digits.len() {
            assert(bytes[i] == digits[i - before.len()]);
        } else {
            assert(bytes[i] == after[i - before.len() - digits.len()]);
        }
    }
    lemma_visible(bytes);
    assert(bytes.map_values(as_char) =~= front + number + back);
    assert(is_blank(front));
    assert(is_blank(back));
    assert forall|i: int| 0 <= i < number.len() implies is_digit(#[trigger] number[i]) by {
        assert(48 <= digits[i] <= 57);
    }
    assert(is_digit(number[0]) && is_digit(number.last()));
    assert(!is_white_space(number[0]) && !is_white_space(number.last()));
    law_trim_removes_blanks(front, number, back);
    assert(is_numeral(number));
    assert(parsed_u64(number) == Some(seconds));
}

/// A number of seconds in the header is the wait, whatever the clock shows. A date there is waited
/// for from the time that the clock shows. Without the header, or with one that is neither, there
/// is no wait.
pub proof fn law_retry_after_header(
    headers: HeaderMap<HeaderValue>,
    seconds: u64,
    r: Option<Duration>,
)
    requires
        call_ensures(parse_retry_after, (&headers,), r),
    ensures
        !header_contents(headers).contains_key("retry-after"@) ==> r is None,
        header_contents(headers).contains_key("retry-after"@) && spells_seconds(
            header_contents(headers)["retry-after"@],
            seconds,
        ) ==> r is Some && r->0@ == seconds * 1_000_000_000,
        header_contents(headers).contains_key("retry-after"@) && visible_text(
            header_contents(headers)["retry-after"@],
        ) is None ==> r is None,
        header_contents(headers).contains_key("retry-after"@) && (visible_text(
            header_contents(headers)["retry-after"@],
        ) matches Some(raw) && parsed_u64(trimmed(raw)) is None) ==> {
            let at = rfc2822_instant(
                trimmed(visible_text(header_contents(headers)["retry-after"@])->0),
            );
            &&& at is None ==> r is None
            &&& at is Some ==> r is Some && exists|reading: Result<(u64, u32), (u64, u32)>|
                is_clock_reading(reading) && is_wait_from_to(
                    r->0@,
                    #[trigger] clock_instant(reading),
                    (at->0).0 * 1_000_000_000 + (at->0).1,
                )
        },
{
    let contents = header_contents(headers);
    let reading = choose|reading: Result<(u64, u32), (u64, u32)>|
        is_clock_reading(reading) && span(r) == headers_retry_span(
            contents,
            #[trigger] clock_instant(reading),
        );
    let now = clock_instant(reading);
    if contents.contains_key("retry-after"@) && spells_seconds(contents["retry-after"@], seconds) {
        lemma_seconds_in_the_header(contents, seconds, now);
    }
}

/// A reading of the clock stands for the point as far from the epoch as it says: after it or before
/// it.
pub proof fn law_readings_count_from_the_epoch(
    reading: Result<(u64, u32), (u64, u32)>,
    r: Timestamp,
)
    requires
        call_ensures(timestamp_of_reading, (reading,), r),
    ensures
        reading matches Ok((seconds, nanos)) ==> r@ == seconds * 1_000_000_000 + nanos,
        reading matches Err((seconds, nanos)) ==> r@ + seconds * 1_000_000_000 + nanos == 0,
{
}

} // verus!
