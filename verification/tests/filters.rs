use template_filters::{
    branch_query, file_perms, format_time, gravatar, hex, timeago, timeago_at, FilterError,
    LookupCache, Timestamp,
};

#[test]
fn branch_query_none_is_empty() {
    assert_eq!(branch_query(None), "");
}

#[test]
fn branch_query_some_prefixes_name() {
    assert_eq!(branch_query(Some("main")), "?h=main");
}

#[test]
fn branch_query_empty_name_keeps_prefix() {
    assert_eq!(branch_query(Some("")), "?h=");
}

#[test]
fn hex_renders_twenty_bytes_as_forty_lowercase_digits() {
    let bytes: [u8; 20] = [
        0x00, 0x01, 0x0a, 0x0f, 0x10, 0x7f, 0x80, 0xab, 0xcd, 0xef, 0xff, 0x12, 0x34, 0x56, 0x78,
        0x9a, 0xbc, 0xde, 0xf0, 0x42,
    ];
    let rendered = hex(&bytes).unwrap();
    let text = rendered.as_str();
    assert_eq!(text, "00010a0f107f80abcdefff123456789abcdef042");
    assert_eq!(text.len(), 40);
    assert!(text.chars().all(|c| c.is_ascii_hexdigit() && !c.is_ascii_uppercase()));
}

#[test]
fn hex_round_trips_through_decode() {
    let bytes: [u8; 20] = [
        0xde, 0xad, 0xbe, 0xef, 0x00, 0xff, 0x01, 0x02, 0x03, 0x04, 0x05, 0x06, 0x07, 0x08, 0x09,
        0x0a, 0x0b, 0x0c, 0x0d, 0x0e,
    ];
    let rendered = hex(&bytes).unwrap();
    let decoded = template_filters::hexfmt::hex_decode(rendered.as_str()).unwrap();
    assert_eq!(decoded, bytes.to_vec());
}

#[test]
fn hex_decode_rejects_odd_length_and_foreign_characters() {
    assert_eq!(template_filters::hexfmt::hex_decode("abc"), None);
    assert_eq!(template_filters::hexfmt::hex_decode("zz"), None);
    assert_eq!(template_filters::hexfmt::hex_decode("AB"), None);
    assert_eq!(template_filters::hexfmt::hex_decode(""), Some(Vec::new()));
}

#[test]
fn file_perms_renders_regular_file_modes() {
    assert_eq!(file_perms(0o100755).unwrap(), "-rwxr-xr-x");
    assert_eq!(file_perms(0o100644).unwrap(), "-rw-r--r--");
}

#[test]
fn file_perms_renders_bare_modes_as_regular_files() {
    assert_eq!(file_perms(0o755).unwrap(), "-rwxr-xr-x");
    assert_eq!(file_perms(0o644).unwrap(), "-rw-r--r--");
    assert_eq!(file_perms(0o4755).unwrap(), "-rwsr-xr-x");
}

#[test]
fn file_perms_keeps_explicit_file_types() {
    assert_eq!(file_perms(0o040755).unwrap(), "drwxr-xr-x");
    assert_eq!(file_perms(0o120777).unwrap(), "lrwxrwxrwx");
}

#[test]
fn format_time_renders_the_epoch() {
    let t = Timestamp::from_pair((0, 0));
    assert_eq!(format_time(t).unwrap(), "1970-01-01T00:00:00Z");
}

#[test]
fn format_time_renders_offsets() {
    let t = Timestamp::from_pair((1_700_000_000, 3600));
    assert_eq!(format_time(t).unwrap(), "2023-11-14T23:13:20+01:00");
}

#[test]
fn format_time_rejects_out_of_range_instants() {
    assert_eq!(
        format_time(Timestamp::from_pair((i64::MAX, 0))),
        Err(FilterError::OutOfRangeInstant)
    );
    assert_eq!(
        format_time(Timestamp::from_pair((0, 1_000_000))),
        Err(FilterError::OutOfRangeInstant)
    );
}

#[test]
fn format_time_handles_the_edge_of_the_date_range() {
    let last = Timestamp::from_pair((253_402_300_799, 0));
    assert_eq!(format_time(last).unwrap(), "9999-12-31T23:59:59Z");
    let pushed_past = Timestamp::from_pair((253_402_300_799, 3600));
    assert_eq!(format_time(pushed_past), Err(FilterError::OutOfRangeInstant));
}

#[test]
fn all_constructors_render_identically() {
    let secs: i64 = 1_700_000_000;
    let offset: i32 = 3600;

    let from_pair = Timestamp::from_pair((secs, offset));
    let from_pair_ref = Timestamp::from_pair_ref(&(secs, offset));

    let mut record = [0u8; 12];
    record[..8].copy_from_slice(&secs.to_le_bytes());
    record[8..].copy_from_slice(&offset.to_le_bytes());
    let from_archived = Timestamp::from_archived(&record);

    let native = time::OffsetDateTime::from_unix_timestamp(secs)
        .unwrap()
        .to_offset(time::UtcOffset::from_whole_seconds(offset).unwrap());
    let from_datetime = Timestamp::from_datetime(native);

    let expected = format_time(from_pair).unwrap();
    assert_eq!(format_time(from_pair_ref).unwrap(), expected);
    assert_eq!(format_time(from_archived).unwrap(), expected);
    assert_eq!(format_time(from_datetime).unwrap(), expected);
}

#[test]
fn from_archived_reads_negative_values() {
    let secs: i64 = -5;
    let offset: i32 = -3600;
    let mut record = [0u8; 12];
    record[..8].copy_from_slice(&secs.to_le_bytes());
    record[8..].copy_from_slice(&offset.to_le_bytes());
    let t = Timestamp::from_archived(&record);
    assert_eq!(t, Timestamp::from_pair((secs, offset)));
}

#[test]
fn resolve_memoizes_and_returns_identical_values() {
    let mut cache = LookupCache::new();
    assert_eq!(cache.misses(), 0);
    let first = cache.resolve("a@example.com");
    assert_eq!(cache.misses(), 1);
    let second = cache.resolve("a@example.com");
    assert_eq!(cache.misses(), 1);
    assert_eq!(first, second);
    let other = cache.resolve("b@example.com");
    assert_eq!(cache.misses(), 2);
    assert_ne!(first, other);
}

#[test]
fn gravatar_derives_the_md5_lookup_url() {
    let mut cache = LookupCache::new();
    let url = gravatar(&mut cache, "").unwrap();
    assert_eq!(url, "https://www.gravatar.com/avatar/d41d8cd98f00b204e9800998ecf8427e");
}

#[test]
fn timeago_at_phrases_one_hour() {
    let t = Timestamp::from_pair((3600, 0));
    assert_eq!(timeago_at(7200, t).unwrap(), "1 hour ago");
}

#[test]
fn timeago_at_rejects_future_timestamps() {
    let t = Timestamp::from_pair((7200, 0));
    assert_eq!(timeago_at(3600, t), Err(FilterError::UnrepresentableDuration));
}

#[test]
fn timeago_of_an_hour_ago_mentions_the_hour() {
    let now = time::OffsetDateTime::now_utc().unix_timestamp();
    let t = Timestamp::from_pair((now - 3600, 0));
    let text = timeago(t).unwrap();
    assert!(text.contains("hour"), "unexpected phrase: {text}");
}
