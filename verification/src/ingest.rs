use vstd::prelude::*;

use crate::buffer::{step_flushes, Buffer};
use crate::parse::{parse_line, parse_result, ParseError};
use crate::record::RecordModel;
use crate::statement::{build_statement, renders, InsertStatement};

verus! {

/// Feed one raw line through the parser into the buffer. A parse failure
/// comes back as the error, with the buffer untouched — it aborts the
/// run before any store interaction. An accepted record is appended; the
/// append that fills the buffer to capacity yields the rendered batch
/// statement, any other append yields nothing.
pub fn ingest_line(buf: &mut Buffer, line: &str) -> (r: Result<
    Option<InsertStatement>,
    ParseError,
>)
    requires
        old(buf).wf(),
    ensures
        final(buf).wf(),
        final(buf).cap() == old(buf).cap(),
        parse_result(line@) matches Err(e) ==> r == Err::<Option<InsertStatement>, ParseError>(e)
            && final(buf).model() == old(buf).model(),
        parse_result(line@) matches Ok(m) ==> (if step_flushes(
            old(buf).model().len(),
            old(buf).cap(),
        ) {
            &&& r matches Ok(s) && s matches Some(stmt) && renders(
                stmt,
                old(buf).model().push(m),
            )
            &&& final(buf).model() == Seq::<RecordModel>::empty()
        } else {
            &&& r matches Ok(s) && s is None
            &&& final(buf).model() == old(buf).model().push(m)
        }),
{
    let rec = match parse_line(line) {
        Ok(rec) => rec,
        Err(e) => {
            return Err(e);
        },
    };
    match buf.write(rec) {
        Some(batch) => {
            proof {
                assert(batch@.len() == crate::record::models(batch@).len());
                assert(batch@.len() == old(buf).model().len() + 1);
            }
            Ok(Some(build_statement(&batch)))
        },
        None => Ok(None),
    }
}

/// The final, unconditional flush at end of stream: render what the
/// buffer still holds and leave it empty. An empty buffer yields no
/// statement at all — flushing nothing is a no-op, never an error and
/// never a store interaction.
pub fn finish(buf: &mut Buffer) -> (r: Option<InsertStatement>)
    requires
        old(buf).wf(),
    ensures
        final(buf).wf(),
        final(buf).cap() == old(buf).cap(),
        final(buf).model() == Seq::<RecordModel>::empty(),
        r is None <==> old(buf).model().len() == 0,
        r matches Some(stmt) ==> renders(stmt, old(buf).model()),
{
    let batch = buf.drain();
    if batch.len() == 0 {
        proof {
            assert(crate::record::models(batch@).len() == 0);
        }
        None
    } else {
        Some(build_statement(&batch))
    }
}

} // verus!
