use sematext2psql::parse::{parse_line, ParseError};
use sematext2psql::timestamp::Timestamp;

#[test]
fn accepts_a_full_line() {
    let line = "prefix.json:{\"@timestamp\":\"2022-10-21T12:00:00Z\",\"kubernetes\":{\"pod\":{\"name\":\"sidekiq-1\"}},\"message\":\"hello\"}";
    let rec = parse_line(line).unwrap();
    assert_eq!(rec.pod_name, "sidekiq-1");
    assert_eq!(rec.message, "hello");
    assert_eq!(rec.created_at, Timestamp { secs: 1666353600, nanos: 0 });
}

#[test]
fn rejects_a_line_without_marker() {
    let line = "{\"@timestamp\":\"2022-10-21T12:00:00Z\",\"message\":\"hello\"}";
    assert_eq!(parse_line(line), Err(ParseError::MissingMarker));
}

#[test]
fn rejects_an_invalid_payload() {
    let line = "prefix.json:{not json at all";
    assert_eq!(parse_line(line), Err(ParseError::InvalidJson));
}

#[test]
fn rejects_a_missing_timestamp() {
    let line = "prefix.json:{\"message\":\"hello\"}";
    assert_eq!(parse_line(line), Err(ParseError::MissingTimestamp));
}

#[test]
fn rejects_a_non_string_timestamp() {
    let line = "prefix.json:{\"@timestamp\":12345}";
    assert_eq!(parse_line(line), Err(ParseError::MissingTimestamp));
}

#[test]
fn rejects_a_malformed_timestamp() {
    let line = "prefix.json:{\"@timestamp\":\"yesterday at noon\"}";
    assert_eq!(parse_line(line), Err(ParseError::InvalidTimestamp));
}

#[test]
fn pod_name_is_empty_where_the_path_is_absent() {
    let line = "p.json:{\"@timestamp\":\"2022-10-21T12:00:00Z\",\"message\":\"m\"}";
    let rec = parse_line(line).unwrap();
    assert_eq!(rec.pod_name, "");
    assert_eq!(rec.message, "m");
}

#[test]
fn pod_name_is_empty_where_an_intermediate_key_is_absent() {
    let line = "p.json:{\"@timestamp\":\"2022-10-21T12:00:00Z\",\"kubernetes\":{\"node\":{}},\"message\":\"m\"}";
    let rec = parse_line(line).unwrap();
    assert_eq!(rec.pod_name, "");
}

#[test]
fn message_is_empty_where_absent() {
    let line = "p.json:{\"@timestamp\":\"2022-10-21T12:00:00Z\"}";
    let rec = parse_line(line).unwrap();
    assert_eq!(rec.message, "");
}

#[test]
fn structured_message_is_stored_as_json_text() {
    let line = "p.json:{\"@timestamp\":\"2022-10-21T12:00:00Z\",\"message\":{\"a\":1}}";
    let rec = parse_line(line).unwrap();
    assert_eq!(rec.message, "{\"a\":1}");
}

#[test]
fn numeric_message_is_stored_as_its_literal() {
    let line = "p.json:{\"@timestamp\":\"2022-10-21T12:00:00Z\",\"message\":7}";
    let rec = parse_line(line).unwrap();
    assert_eq!(rec.message, "7");
}

#[test]
fn null_message_is_stored_as_null_text() {
    let line = "p.json:{\"@timestamp\":\"2022-10-21T12:00:00Z\",\"message\":null}";
    let rec = parse_line(line).unwrap();
    assert_eq!(rec.message, "null");
}

#[test]
fn offset_timestamps_normalize_to_utc() {
    let line = "p.json:{\"@timestamp\":\"2022-10-21T14:00:00+02:00\",\"message\":\"m\"}";
    let rec = parse_line(line).unwrap();
    assert_eq!(rec.created_at, Timestamp { secs: 1666353600, nanos: 0 });
}

#[test]
fn fractional_seconds_are_kept() {
    let line = "p.json:{\"@timestamp\":\"2022-10-21T12:00:00.250Z\",\"message\":\"m\"}";
    let rec = parse_line(line).unwrap();
    assert_eq!(rec.created_at, Timestamp { secs: 1666353600, nanos: 250_000_000 });
}

#[test]
fn the_split_is_at_the_first_marker_occurrence() {
    // The payload starts right after the first marker, so here it is not
    // valid JSON, even though a later marker would leave one.
    let line = "a.json:b.json:{\"@timestamp\":\"2022-10-21T12:00:00Z\"}";
    assert_eq!(parse_line(line), Err(ParseError::InvalidJson));
}

#[test]
fn a_marker_inside_the_payload_is_payload_text() {
    let line = "p.json:{\"@timestamp\":\"2022-10-21T12:00:00Z\",\"message\":\"see x.json:y\"}";
    let rec = parse_line(line).unwrap();
    assert_eq!(rec.message, "see x.json:y");
}
