//! A single adapter for the several timestamp representations the host hands
//! in, plus the two time-rendering filters over it.
use vstd::prelude::*;

verus! {

use vstd::bytes::spec_u32_from_le_bytes;
use vstd::bytes::spec_u64_from_le_bytes;
use vstd::bytes::u32_from_le_bytes;
use vstd::bytes::u64_from_le_bytes;
use vstd::slice::slice_subrange;
use crate::FilterError;

/// One absolute point in time together with its UTC offset: seconds since the
/// Unix epoch, and the offset from UTC in whole seconds.
#[derive(Clone, Copy, Debug, PartialEq, Eq, Structural)]
pub struct Timestamp {
    /// Seconds since the Unix epoch.
    pub secs: i64,
    /// Offset from UTC, in whole seconds.
    pub offset: i32,
}

/// The value an unsigned doubleword stores when read as a two's-complement
/// signed one.
pub open spec fn as_signed_64(u: u64) -> int {
    if u < 0x8000000000000000 {
        u as int
    } else {
        u as int - 0x10000000000000000
    }
}

/// The value an unsigned word stores when read as a two's-complement signed
/// one.
pub open spec fn as_signed_32(u: u32) -> int {
    if u < 0x80000000 {
        u as int
    } else {
        u as int - 0x100000000
    }
}

/// The epoch seconds a twelve-byte archival record stores: a little-endian
/// signed doubleword in its first eight bytes.
pub open spec fn archived_secs(record: Seq<u8>) -> int {
    as_signed_64(spec_u64_from_le_bytes(record.subrange(0, 8)))
}

/// The offset seconds a twelve-byte archival record stores: a little-endian
/// signed word in its last four bytes.
pub open spec fn archived_offset(record: Seq<u8>) -> int {
    as_signed_32(spec_u32_from_le_bytes(record.subrange(8, 12)))
}

/// The timestamp a plain (epoch seconds, offset seconds) pair denotes.
pub open spec fn timestamp_of_pair(value: (i64, i32)) -> Timestamp {
    Timestamp { secs: value.0, offset: value.1 }
}

/// The timestamp a twelve-byte archival record denotes.
pub open spec fn timestamp_of_archived(record: Seq<u8>) -> Timestamp {
    Timestamp { secs: archived_secs(record) as i64, offset: archived_offset(record) as i32 }
}

/// The signed reading of an unsigned doubleword.
fn to_signed_64(u: u64) -> (r: i64)
    ensures
        r as int == as_signed_64(u),
{
    if u < 0x8000000000000000 {
        u as i64
    } else {
        let distance = u64::MAX - u;
        -(distance as i64) - 1
    }
}

/// The signed reading of an unsigned word.
fn to_signed_32(u: u32) -> (r: i32)
    ensures
        r as int == as_signed_32(u),
{
    if u < 0x80000000 {
        u as i32
    } else {
        let distance = u32::MAX - u;
        -(distance as i32) - 1
    }
}

impl Timestamp {
    /// The timestamp a plain (epoch seconds, offset seconds) pair denotes.
    pub fn from_pair(value: (i64, i32)) -> (r: Timestamp)
        ensures
            r == timestamp_of_pair(value),
    {
        Timestamp { secs: value.0, offset: value.1 }
    }

    /// The timestamp a borrowed (epoch seconds, offset seconds) pair denotes.
    pub fn from_pair_ref(value: &(i64, i32)) -> (r: Timestamp)
        ensures
            r == timestamp_of_pair(*value),
    {
        Timestamp { secs: value.0, offset: value.1 }
    }

    /// The timestamp a twelve-byte archival record denotes, read in place:
    /// a little-endian signed doubleword of epoch seconds followed by a
    /// little-endian signed word of offset seconds.
    pub fn from_archived(record: &[u8; 12]) -> (r: Timestamp)
        ensures
            r == timestamp_of_archived(record@),
    {
        let bytes = record.as_slice();
        let secs = to_signed_64(u64_from_le_bytes(slice_subrange(bytes, 0, 8)));
        let offset = to_signed_32(u32_from_le_bytes(slice_subrange(bytes, 8, 12)));
        Timestamp { secs, offset }
    }

    /// The timestamp an absolute time value of the host's time library
    /// denotes: the same instant at the value's own UTC offset, unchanged.
    pub fn from_datetime(value: time::OffsetDateTime) -> (r: Timestamp)
        ensures
            r == timestamp_of_datetime(value),
            r.secs as int == odt_unix_of(value),
            r.offset as int == odt_offset_secs_of(value),
    {
        Timestamp { secs: value.unix_timestamp(), offset: value.offset().whole_seconds() }
    }
}

#[verifier::external_type_specification]
#[verifier::external_body]
pub struct ExOffsetDateTime(time::OffsetDateTime);

#[verifier::external_type_specification]
#[verifier::external_body]
pub struct ExUtcOffset(time::UtcOffset);

/// The whole seconds since the Unix epoch that a datetime value denotes.
pub uninterp spec fn odt_unix_of(value: time::OffsetDateTime) -> int;

/// The UTC offset, in whole seconds, that a datetime value carries.
pub uninterp spec fn odt_offset_secs_of(value: time::OffsetDateTime) -> int;

/// The whole seconds of an offset value.
pub uninterp spec fn utc_offset_secs_of(value: time::UtcOffset) -> int;

/// The timestamp a datetime value denotes.
pub open spec fn timestamp_of_datetime(value: time::OffsetDateTime) -> Timestamp {
    Timestamp { secs: odt_unix_of(value) as i64, offset: odt_offset_secs_of(value) as i32 }
}

/// Relies on `time::OffsetDateTime::unix_timestamp`: whole seconds since the
/// Unix epoch, a pure function of the value's own fields.
pub assume_specification[ time::OffsetDateTime::unix_timestamp ](value: time::OffsetDateTime) -> (r:
    i64)
    ensures
        r as int == odt_unix_of(value),
;

/// Relies on `time::OffsetDateTime::offset`: the value's own UTC offset,
/// carrying the value's offset seconds.
pub assume_specification[ time::OffsetDateTime::offset ](value: time::OffsetDateTime) -> (r:
    time::UtcOffset)
    ensures
        utc_offset_secs_of(r) == odt_offset_secs_of(value),
;

/// Relies on `time::UtcOffset::whole_seconds`: the offset in whole seconds,
/// a pure function of the value's own fields.
pub assume_specification[ time::UtcOffset::whole_seconds ](value: time::UtcOffset) -> (r: i32)
    ensures
        r as int == utc_offset_secs_of(value),
;

/// The RFC 3339 rendering of an instant at an offset, both in seconds, or
/// `None` where the time library represents no such instant or offset.
pub uninterp spec fn rfc3339_of(secs: int, offset: int) -> Option<Seq<char>>;

/// Relies on `time::OffsetDateTime::from_unix_timestamp`, `checked_to_offset`,
/// `time::UtcOffset::from_whole_seconds` and RFC 3339 formatting: the rendered
/// text is a pure function of the two integers, and rendering fails exactly
/// where the library rejects them.
#[verifier::external_body]
fn render_rfc3339(secs: i64, offset: i32) -> (r: Option<String>)
    ensures
        r matches Some(s) ==> rfc3339_of(secs as int, offset as int) == Some(s@),
        r is None ==> rfc3339_of(secs as int, offset as int) is None,
{
    let instant = match time::OffsetDateTime::from_unix_timestamp(secs) {
        Ok(v) => v,
        Err(_) => return None,
    };
    let at = match time::UtcOffset::from_whole_seconds(offset) {
        Ok(v) => v,
        Err(_) => return None,
    };
    let local = instant.checked_to_offset(at)?;
    local.format(&time::format_description::well_known::Rfc3339).ok()
}

/// The RFC 3339 rendering of a timestamp, or [`FilterError::OutOfRangeInstant`]
/// exactly where the time library represents no such instant or offset.
pub fn format_time(s: Timestamp) -> (r: Result<String, FilterError>)
    ensures
        r matches Ok(text) ==> rfc3339_of(s.secs as int, s.offset as int) == Some(text@),
        r is Ok <==> rfc3339_of(s.secs as int, s.offset as int) is Some,
        r matches Err(e) ==> e == FilterError::OutOfRangeInstant,
{
    match render_rfc3339(s.secs, s.offset) {
        Some(text) => Ok(text),
        None => Err(FilterError::OutOfRangeInstant),
    }
}

/// Rendering reads nothing but the stored instant and offset: timestamps that
/// carry equal seconds and equal offsets — through whichever constructor each
/// was built — are rendered identically by [`format_time`].
pub proof fn lemma_format_time_uniform(a: Timestamp, b: Timestamp)
    requires
        a.secs == b.secs,
        a.offset == b.offset,
    ensures
        rfc3339_of(a.secs as int, a.offset as int) == rfc3339_of(b.secs as int, b.offset as int),
{
}

/// A record and a pair that spell the same instant and offset denote the same
/// timestamp, through [`Timestamp::from_archived`] and
/// [`Timestamp::from_pair`] alike.
pub proof fn lemma_archived_matches_pair(record: Seq<u8>, value: (i64, i32))
    requires
        record.len() == 12,
        archived_secs(record) == value.0 as int,
        archived_offset(record) == value.1 as int,
    ensures
        timestamp_of_archived(record) == timestamp_of_pair(value),
{
}

/// A datetime value and a pair that carry the same instant and offset denote
/// the same timestamp, through [`Timestamp::from_datetime`] and
/// [`Timestamp::from_pair`] alike.
pub proof fn lemma_datetime_matches_pair(value: time::OffsetDateTime, pair: (i64, i32))
    requires
        odt_unix_of(value) == pair.0 as int,
        odt_offset_secs_of(value) == pair.1 as int,
    ensures
        timestamp_of_datetime(value) == timestamp_of_pair(pair),
{
}

/// The relative-time phrase for a number of elapsed seconds.
pub uninterp spec fn timeago_of(secs: int) -> Seq<char>;

/// Relies on `timeago::Formatter::convert` with its default English language:
/// the rendered phrase is a pure function of the duration's whole seconds,
/// and never empty (the formatter falls back to a "now" phrase).
#[verifier::external_body]
fn render_timeago(secs: u64) -> (r: String)
    ensures
        r@ == timeago_of(secs as int),
        r@.len() > 0,
{
    timeago::Formatter::new().convert(std::time::Duration::from_secs(secs))
}

/// Relies on `time::OffsetDateTime::now_utc` and `unix_timestamp`: the clock's
/// reading when called; nothing further is assumed of it.
#[verifier::external_body]
fn current_unix_time() -> i64 {
    time::OffsetDateTime::now_utc().unix_timestamp()
}

/// The relative-time phrase for how long before `now_secs` the timestamp
/// lies. Succeeds exactly where the timestamp does not lie in the future;
/// a future instant has no elapsed duration to phrase, and is reported as
/// [`FilterError::UnrepresentableDuration`].
pub fn timeago_at(now_secs: i64, s: Timestamp) -> (r: Result<String, FilterError>)
    ensures
        r is Ok <==> s.secs <= now_secs,
        r matches Ok(text) ==> text@ == timeago_of(now_secs - s.secs),
        r matches Err(e) ==> e == FilterError::UnrepresentableDuration,
{
    if s.secs > now_secs {
        return Err(FilterError::UnrepresentableDuration);
    }
    let elapsed: i128 = now_secs as i128 - s.secs as i128;
    Ok(render_timeago(elapsed as u64))
}

/// The relative-time phrase for how long ago the timestamp lies, measured
/// against the current clock: some phrase for a non-negative number of
/// elapsed seconds, or [`FilterError::UnrepresentableDuration`] for a
/// timestamp the clock has not reached.
pub fn timeago(s: Timestamp) -> (r: Result<String, FilterError>)
    ensures
        r matches Ok(text) ==> exists|elapsed: int| #[trigger]
            timeago_of(elapsed) == text@ && 0 <= elapsed,
        r matches Err(e) ==> e == FilterError::UnrepresentableDuration,
{
    let now_secs = current_unix_time();
    timeago_at(now_secs, s)
}

} // verus!
