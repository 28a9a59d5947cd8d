use vstd::prelude::*;
use vstd::string::StrSliceExecFns;

use crate::jsontree::{json_doc, lookup, text_of, JsonModel};
use crate::jsontree::parse_json;
use crate::record::{LogRecord, RecordModel};
use crate::timestamp::{parse_rfc3339, rfc3339_utc};

verus! {

/// Why a line was rejected. Any of these is fatal to the whole run: the
/// stream is trusted to be pre-filtered, and a deviation stops the import
/// rather than silently dropping lines.
#[derive(Clone, Copy, Debug, PartialEq, Eq, Structural)]
pub enum ParseError {
    /// The line holds no marker separating a prefix from a JSON payload.
    MissingMarker,
    /// The payload after the marker is not valid JSON.
    InvalidJson,
    /// The payload's document has no string `@timestamp` field.
    MissingTimestamp,
    /// The `@timestamp` field is not a valid RFC 3339 string.
    InvalidTimestamp,
}

/// The fixed token separating a line's prefix from its JSON payload.
pub open spec fn marker() -> Seq<char> {
    ".json:"@
}

/// The marker occurs at position `i` of `s`.
pub open spec fn marker_at(s: Seq<char>, i: int) -> bool {
    &&& 0 <= i
    &&& i + 6 <= s.len()
    &&& s.subrange(i, i + 6) == marker()
}

/// The first position at or after `from` where the marker occurs in `s`.
pub open spec fn first_marker_from(s: Seq<char>, from: int) -> Option<int>
    decreases s.len() - from,
{
    if from < 0 || from + 6 > s.len() {
        None
    } else if marker_at(s, from) {
        Some(from)
    } else {
        first_marker_from(s, from + 1)
    }
}

/// The first marker occurrence in `s`, if any.
pub open spec fn first_marker(s: Seq<char>) -> Option<int> {
    first_marker_from(s, 0)
}

/// `s` holds the marker somewhere.
pub open spec fn has_marker(s: Seq<char>) -> bool {
    first_marker(s) is Some
}

/// The JSON payload of a line: everything after the first marker
/// occurrence.
pub open spec fn payload_of(s: Seq<char>) -> Seq<char>
    recommends
        has_marker(s),
{
    s.subrange(first_marker(s)->0 + 6, s.len() as int)
}

/// The marker's six characters.
pub proof fn lemma_marker_chars()
    ensures
        marker().len() == 6,
        marker()[0] == '.',
        marker()[1] == 'j',
        marker()[2] == 's',
        marker()[3] == 'o',
        marker()[4] == 'n',
        marker()[5] == ':',
{
    reveal_strlit(".json:");
}

/// Where the search answers `Some(i)`, the marker stands at `i`, at or
/// after the search's start.
pub proof fn lemma_first_marker_some(s: Seq<char>, from: int, i: int)
    requires
        first_marker_from(s, from) == Some(i),
    ensures
        from <= i,
        marker_at(s, i),
    decreases s.len() - from,
{
    if !(from < 0 || from + 6 > s.len()) && !marker_at(s, from) {
        lemma_first_marker_some(s, from + 1, i);
    }
}

/// The search finds the first occurrence: nothing before it is one, and
/// a `None` answer means there is none at all (at or after the start).
pub proof fn lemma_first_marker_from_first(s: Seq<char>, from: int)
    requires
        from >= 0,
    ensures
        first_marker_from(s, from) matches Some(i) ==> forall|j: int|
            from <= j < i ==> !marker_at(s, j),
        first_marker_from(s, from) is None ==> forall|j: int| j >= from ==> !marker_at(s, j),
    decreases s.len() - from,
{
    if from + 6 > s.len() {
    } else if marker_at(s, from) {
    } else {
        lemma_first_marker_from_first(s, from + 1);
    }
}

/// A line is split at the first marker occurrence; a line without any
/// occurrence is rejected.
pub proof fn lemma_first_marker_first(s: Seq<char>)
    ensures
        first_marker(s) matches Some(i) ==> marker_at(s, i) && (forall|j: int|
            0 <= j < i ==> !marker_at(s, j)),
        first_marker(s) is None ==> forall|j: int| !marker_at(s, j),
{
    lemma_first_marker_from_first(s, 0);
    if first_marker(s) is Some {
        lemma_first_marker_some(s, 0, first_marker(s)->0);
    }
    if first_marker(s) is None {
        assert forall|j: int| !marker_at(s, j) by {
            if j >= 0 {
                assert(!marker_at(s, j));
            }
        }
    }
}

/// A line has a first marker occurrence exactly when it contains the
/// marker anywhere.
pub proof fn lemma_has_marker_iff(s: Seq<char>)
    ensures
        has_marker(s) <==> exists|i: int| marker_at(s, i),
{
    lemma_first_marker_first(s);
    if has_marker(s) {
        assert(marker_at(s, first_marker(s)->0));
    }
}

/// The string content of the document's `@timestamp` field, where the
/// document is an object holding one and it is a string.
pub open spec fn timestamp_text(doc: JsonModel) -> Option<Seq<char>> {
    match lookup(doc, "@timestamp"@) {
        Some(JsonModel::Str(t)) => Some(t),
        _ => None,
    }
}

/// The pod name: the value under the `kubernetes.pod.name` path, as
/// stored text; empty where any step of the path is absent. Structural
/// fields are best-effort, so absence is a value, not an error.
pub open spec fn pod_name_text(doc: JsonModel) -> Seq<char> {
    match lookup(doc, "kubernetes"@) {
        Some(k) => match lookup(k, "pod"@) {
            Some(p) => match lookup(p, "name"@) {
                Some(n) => text_of(n),
                None => Seq::empty(),
            },
            None => Seq::empty(),
        },
        None => Seq::empty(),
    }
}

/// The message: the `message` field as stored text; empty where absent.
pub open spec fn message_text(doc: JsonModel) -> Seq<char> {
    match lookup(doc, "message"@) {
        Some(m) => text_of(m),
        None => Seq::empty(),
    }
}

/// What parsing a line yields: a record model, or the first error the
/// four validation steps hit (marker, JSON syntax, timestamp presence,
/// timestamp form).
pub open spec fn parse_result(line: Seq<char>) -> Result<RecordModel, ParseError> {
    if !has_marker(line) {
        Err(ParseError::MissingMarker)
    } else {
        match json_doc(payload_of(line)) {
            None => Err(ParseError::InvalidJson),
            Some(doc) => match timestamp_text(doc) {
                None => Err(ParseError::MissingTimestamp),
                Some(t) => match rfc3339_utc(t) {
                    None => Err(ParseError::InvalidTimestamp),
                    Some(at) => Ok(
                        RecordModel {
                            pod_name: pod_name_text(doc),
                            message: message_text(doc),
                            created_at: at,
                        },
                    ),
                },
            },
        }
    }
}

/// A line parses successfully exactly when it holds the marker, the
/// payload after the first occurrence is valid JSON, and the document has
/// a string `@timestamp` field in RFC 3339 form.
pub open spec fn line_ok(line: Seq<char>) -> bool {
    &&& has_marker(line)
    &&& json_doc(payload_of(line)) is Some
    &&& timestamp_text(json_doc(payload_of(line))->0) is Some
    &&& rfc3339_utc(timestamp_text(json_doc(payload_of(line))->0)->0) is Some
}

/// Parsing succeeds exactly on the lines `line_ok` accepts.
pub proof fn lemma_parse_succeeds_iff(line: Seq<char>)
    ensures
        parse_result(line) is Ok <==> line_ok(line),
{
}

/// The marker stands at position `i` of `line`.
fn marker_matches_at(line: &str, i: usize) -> (b: bool)
    requires
        i + 6 <= line@.len(),
        line@.len() <= usize::MAX,
    ensures
        b == marker_at(line@, i as int),
{
    proof {
        lemma_marker_chars();
    }
    let b = line.get_char(i) == '.' && line.get_char(i + 1) == 'j' && line.get_char(i + 2) == 's'
        && line.get_char(i + 3) == 'o' && line.get_char(i + 4) == 'n' && line.get_char(i + 5)
        == ':';
    proof {
        let s = line@;
        let ii = i as int;
        if b {
            assert(s.subrange(ii, ii + 6) =~= marker());
        } else if marker_at(s, ii) {
            assert(s.subrange(ii, ii + 6)[0] == s[ii]);
            assert(s.subrange(ii, ii + 6)[1] == s[ii + 1]);
            assert(s.subrange(ii, ii + 6)[2] == s[ii + 2]);
            assert(s.subrange(ii, ii + 6)[3] == s[ii + 3]);
            assert(s.subrange(ii, ii + 6)[4] == s[ii + 4]);
            assert(s.subrange(ii, ii + 6)[5] == s[ii + 5]);
        }
    }
    b
}

/// The first marker occurrence in `line`, by a left-to-right scan.
fn find_marker(line: &str) -> (r: Option<usize>)
    ensures
        match r {
            Some(i) => first_marker(line@) == Some(i as int),
            None => first_marker(line@) is None,
        },
{
    proof {
        lemma_marker_chars();
    }
    let n = line.unicode_len();
    if n < 6 {
        return None;
    }
    let mut i: usize = 0;
    while i <= n - 6
        invariant
            n == line@.len(),
            6 <= n,
            i <= n - 5,
            marker().len() == 6,
            first_marker(line@) == first_marker_from(line@, i as int),
        decreases n - i,
    {
        if marker_matches_at(line, i) {
            return Some(i);
        }
        i = i + 1;
    }
    None
}

/// Turn one raw input line into a typed record, or reject it. The result
/// is exactly `parse_result` of the line: the record's fields are the
/// document's `kubernetes.pod.name` path and `message` field as stored
/// text (empty where absent), and the `@timestamp` field's instant.
pub fn parse_line(line: &str) -> (r: Result<LogRecord, ParseError>)
    ensures
        (match r {
            Ok(rec) => Ok::<RecordModel, ParseError>(rec@),
            Err(e) => Err(e),
        }) == parse_result(line@),
{
    proof {
        lemma_marker_chars();
    }
    let n = line.unicode_len();
    let start = match find_marker(line) {
        Some(i) => i,
        None => {
            return Err(ParseError::MissingMarker);
        },
    };
    proof {
        lemma_first_marker_some(line@, 0, start as int);
    }
    let payload = line.substring_char(start + 6, n);
    assert(payload@ == payload_of(line@));
    let doc = match parse_json(payload) {
        Some(d) => d,
        None => {
            return Err(ParseError::InvalidJson);
        },
    };
    let ts = match doc.get_key("@timestamp") {
        Some(v) => match v.as_text() {
            Some(s) => s,
            None => {
                return Err(ParseError::MissingTimestamp);
            },
        },
        None => {
            return Err(ParseError::MissingTimestamp);
        },
    };
    let created_at = match parse_rfc3339(ts.as_str()) {
        Some(t) => t,
        None => {
            return Err(ParseError::InvalidTimestamp);
        },
    };
    let pod_name = match doc.get_key("kubernetes") {
        Some(k) => match k.get_key("pod") {
            Some(p) => match p.get_key("name") {
                Some(v) => v.stringify(),
                None => String::new(),
            },
            None => String::new(),
        },
        None => String::new(),
    };
    let message = match doc.get_key("message") {
        Some(m) => m.stringify(),
        None => String::new(),
    };
    Ok(LogRecord { pod_name, message, created_at })
}

} // verus!
