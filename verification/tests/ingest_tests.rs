use sematext2psql::buffer::{Buffer, BUFFER_SIZE};
use sematext2psql::ingest::{finish, ingest_line};
use sematext2psql::parse::ParseError;
use sematext2psql::statement::SqlParam;
use sematext2psql::timestamp::Timestamp;

const LINE_A: &str = "prefix.json:{\"@timestamp\":\"2022-10-21T12:00:00Z\",\"kubernetes\":{\"pod\":{\"name\":\"sidekiq-1\"}},\"message\":\"hello\"}";

#[test]
fn a_full_line_at_capacity_one_flushes_immediately() {
    let mut buf = Buffer::new(1);
    let stmt = ingest_line(&mut buf, LINE_A).unwrap().unwrap();
    assert_eq!(
        stmt.sql,
        "insert into sematext_logs(pod_name, message, created_at) values ($1,$2,$3)"
    );
    assert_eq!(
        stmt.params,
        vec![
            SqlParam::Text("sidekiq-1".to_string()),
            SqlParam::Text("hello".to_string()),
            SqlParam::Time(Timestamp { secs: 1666353600, nanos: 0 }),
        ]
    );
    assert_eq!(finish(&mut buf), None);
}

#[test]
fn a_line_without_marker_aborts_before_any_statement() {
    let mut buf = Buffer::new(BUFFER_SIZE);
    let line = "no marker here {\"@timestamp\":\"2022-10-21T12:00:00Z\"}";
    assert_eq!(ingest_line(&mut buf, line), Err(ParseError::MissingMarker));
    // Nothing was buffered, so the run ends with zero rows rendered.
    assert_eq!(finish(&mut buf), None);
}

#[test]
fn two_lines_under_the_default_capacity_flush_once_in_order() {
    let line_b = "other.json:{\"@timestamp\":\"2022-10-21T12:00:01Z\",\"kubernetes\":{\"pod\":{\"name\":\"sidekiq-2\"}},\"message\":\"bye\"}";
    let mut buf = Buffer::new(BUFFER_SIZE);
    assert_eq!(ingest_line(&mut buf, LINE_A), Ok(None));
    assert_eq!(ingest_line(&mut buf, line_b), Ok(None));
    let stmt = finish(&mut buf).unwrap();
    assert_eq!(
        stmt.sql,
        "insert into sematext_logs(pod_name, message, created_at) values ($1,$2,$3),($4,$5,$6)"
    );
    assert_eq!(
        stmt.params,
        vec![
            SqlParam::Text("sidekiq-1".to_string()),
            SqlParam::Text("hello".to_string()),
            SqlParam::Time(Timestamp { secs: 1666353600, nanos: 0 }),
            SqlParam::Text("sidekiq-2".to_string()),
            SqlParam::Text("bye".to_string()),
            SqlParam::Time(Timestamp { secs: 1666353601, nanos: 0 }),
        ]
    );
    assert_eq!(finish(&mut buf), None);
}

#[test]
fn a_failed_line_leaves_the_buffer_as_it_was() {
    let mut buf = Buffer::new(BUFFER_SIZE);
    assert_eq!(ingest_line(&mut buf, LINE_A), Ok(None));
    let bad = "prefix.json:{broken";
    assert_eq!(ingest_line(&mut buf, bad), Err(ParseError::InvalidJson));
    let stmt = finish(&mut buf).unwrap();
    assert_eq!(stmt.params.len(), 3);
}

#[test]
fn finishing_an_untouched_buffer_yields_nothing() {
    let mut buf = Buffer::new(BUFFER_SIZE);
    assert_eq!(finish(&mut buf), None);
}
