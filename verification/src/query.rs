//! The query executor's data path: converting streamed result rows one at a
//! time, fail-fast. Submitting the statement and pulling rows off the wire
//! is the caller's business; every decision on what came back is made — and
//! verified — here.

use vstd::prelude::*;
use crate::json::{JsonValue, jspec};
use crate::value::{StructuredValue, conv_spec, convert};

verus! {

/// One element of the streamed result sequence, as the transport hands it
/// over: a row that parsed as a JSON value, a row that did not, or the end
/// of the stream.
#[derive(Debug, PartialEq)]
pub enum RowEvent {
    Row(JsonValue),
    Malformed,
    End,
}

/// How the streamed sequence finished.
#[derive(Debug, PartialEq, Eq, Structural)]
pub enum QueryOutcome {
    /// Every row streamed and converted.
    Completed,
    /// A malformed row aborted the stream, after the records already
    /// emitted and with an error signalled — never a silent truncation.
    Aborted,
}

/// The records a query yielded and how the stream ended.
#[derive(Debug, PartialEq)]
pub struct QueryResult {
    pub records: Vec<StructuredValue>,
    pub outcome: QueryOutcome,
}

/// The decision for one streamed element: emit a converted record, finish
/// cleanly, or abort with an error.
#[derive(Debug, PartialEq)]
pub enum RowStep {
    Emit(StructuredValue),
    Finish,
    Abort,
}

/// Decide one step of the streamed sequence. Rows are pulled one at a time,
/// so a consumer that stops early stops network reads as well.
pub fn step_row(ev: &RowEvent) -> (r: RowStep)
    ensures
        *ev matches RowEvent::Row(j) ==> r matches RowStep::Emit(s) && s@ == conv_spec(jspec(j)),
        *ev is Malformed ==> r is Abort,
        *ev is End ==> r is Finish,
{
    match ev {
        RowEvent::Row(j) => RowStep::Emit(convert(j)),
        RowEvent::Malformed => RowStep::Abort,
        RowEvent::End => RowStep::Finish,
    }
}

/// Run a whole streamed sequence to its end: convert each row in order and
/// stop at the first malformed row or at the end of the stream. The output
/// holds exactly the rows streamed before the stop, converted, in row
/// order; a malformed row is an abort, never a skip.
pub fn collect_rows(events: &Vec<RowEvent>) -> (r: QueryResult)
    ensures
        r.records@.len() <= events@.len(),
        forall|k: int|
            0 <= k < r.records@.len() ==> (#[trigger] events@[k]) is Row && r.records@[k]@
                == conv_spec(jspec(events@[k]->Row_0)),
        r.records@.len() < events@.len() ==> !(events@[r.records@.len() as int] is Row),
        r.records@.len() == events@.len() ==> r.outcome == QueryOutcome::Completed,
        r.records@.len() < events@.len() ==> (r.outcome == QueryOutcome::Aborted <==> events@[r.records@.len() as int] is Malformed),
{
    let mut records: Vec<StructuredValue> = Vec::new();
    let mut i: usize = 0;
    while i < events.len()
        invariant
            i <= events@.len(),
            records@.len() == i,
            forall|k: int|
                0 <= k < i ==> (#[trigger] events@[k]) is Row && records@[k]@ == conv_spec(
                    jspec(events@[k]->Row_0),
                ),
        decreases events@.len() - i,
    {
        match &events[i] {
            RowEvent::Row(j) => {
                let s = convert(j);
                records.push(s);
            },
            RowEvent::Malformed => {
                return QueryResult { records, outcome: QueryOutcome::Aborted };
            },
            RowEvent::End => {
                return QueryResult { records, outcome: QueryOutcome::Completed };
            },
        }
        i += 1;
    }
    QueryResult { records, outcome: QueryOutcome::Completed }
}

} // verus!
