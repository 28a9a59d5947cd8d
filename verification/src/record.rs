use vstd::prelude::*;

use crate::timestamp::Timestamp;

verus! {

/// One typed log record: the pod that wrote the line, the message text,
/// and the instant the line carries. Pod name and message are best-effort
/// display fields and may be empty; the instant is the one field whose
/// absence or malformation rejects the line.
#[derive(Clone, Debug, PartialEq, Eq)]
pub struct LogRecord {
    pub pod_name: String,
    pub message: String,
    pub created_at: Timestamp,
}

/// The mathematical content of a record: the two texts as character
/// sequences and the instant as (seconds, nanoseconds).
pub struct RecordModel {
    pub pod_name: Seq<char>,
    pub message: Seq<char>,
    pub created_at: (i64, u32),
}

impl View for LogRecord {
    type V = RecordModel;

    open spec fn view(&self) -> RecordModel {
        RecordModel {
            pod_name: self.pod_name@,
            message: self.message@,
            created_at: self.created_at@,
        }
    }
}

/// The records of a sequence, as models, in the same order.
pub open spec fn models(rs: Seq<LogRecord>) -> Seq<RecordModel> {
    rs.map_values(|r: LogRecord| r@)
}

} // verus!
