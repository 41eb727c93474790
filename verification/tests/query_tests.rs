use cbshell::json::JsonValue;
use cbshell::query::{QueryOutcome, RowEvent, RowStep, collect_rows, step_row};
use cbshell::value::StructuredValue;

fn row_a1() -> RowEvent {
    RowEvent::Row(JsonValue::Obj(vec![(
        "a".to_string(),
        JsonValue::Int(1),
    )]))
}

fn rec_a1() -> StructuredValue {
    StructuredValue::Record(vec![("a".to_string(), StructuredValue::Int(1))])
}

#[test]
fn single_row_then_end_yields_one_record() {
    let r = collect_rows(&vec![row_a1(), RowEvent::End]);
    assert_eq!(r.records, vec![rec_a1()]);
    assert_eq!(r.outcome, QueryOutcome::Completed);
}

#[test]
fn empty_stream_completes_with_no_records() {
    let r = collect_rows(&vec![]);
    assert!(r.records.is_empty());
    assert_eq!(r.outcome, QueryOutcome::Completed);

    let r = collect_rows(&vec![RowEvent::End]);
    assert!(r.records.is_empty());
    assert_eq!(r.outcome, QueryOutcome::Completed);
}

#[test]
fn malformed_row_aborts_after_the_valid_prefix() {
    let events = vec![
        row_a1(),
        RowEvent::Row(JsonValue::Int(2)),
        RowEvent::Malformed,
        row_a1(),
    ];
    let r = collect_rows(&events);
    assert_eq!(r.records.len(), 2);
    assert_eq!(r.records[0], rec_a1());
    assert_eq!(r.records[1], StructuredValue::Int(2));
    assert_eq!(r.outcome, QueryOutcome::Aborted);
}

#[test]
fn immediately_malformed_stream_aborts_empty() {
    let r = collect_rows(&vec![RowEvent::Malformed]);
    assert!(r.records.is_empty());
    assert_eq!(r.outcome, QueryOutcome::Aborted);
}

#[test]
fn stream_without_end_marker_completes() {
    let r = collect_rows(&vec![row_a1(), row_a1()]);
    assert_eq!(r.records.len(), 2);
    assert_eq!(r.outcome, QueryOutcome::Completed);
}

#[test]
fn step_decisions_match_the_event() {
    assert_eq!(step_row(&row_a1()), RowStep::Emit(rec_a1()));
    assert_eq!(step_row(&RowEvent::Malformed), RowStep::Abort);
    assert_eq!(step_row(&RowEvent::End), RowStep::Finish);
}
