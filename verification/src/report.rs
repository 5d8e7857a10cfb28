//! What is shown of the records: a block of lines per record for the console,
//! and the CSV document with one row per record under a header row.
//!
//! Nothing is written here. The lines and bytes are handed to the caller. The
//! bytes of each CSV record are those that the `csv` crate writes for it. The
//! function that calls it is marked `external_body`; its contract is
//! believed, not proved.

use crate::calendar::{
    compact_date, is_four_digit_date, is_on_day, render_utc, rendered_utc, COMPACT_DATE_PATTERN,
};
use crate::event::{
    record_of, AffectedEntityView, EventDetailsView, EventSummaryView, HealthEvent,
    HealthEventView,
};
use crate::fetch::records_of;
use crate::text::{followed_by, join, joined};
use vstd::prelude::*;

verus! {

/// What separates the affected entities within their CSV cell.
pub open spec fn entity_separator() -> Seq<char> {
    ", "@
}

/// The header row of the CSV document.
pub open spec fn header_fields() -> Seq<Seq<char>> {
    seq!["Timestamp"@, "ARN"@, "Detail"@, "Affected Entities"@]
}

/// The CSV row of a record: its four cells.
pub open spec fn row_fields(event: HealthEventView) -> Seq<Seq<char>> {
    seq![
        event.timestamp,
        event.arn,
        event.detail,
        joined(event.affected_entities, entity_separator()),
    ]
}

/// The records of the CSV document: the header, then one row per event in
/// the order of the events.
pub open spec fn document_records(events: Seq<HealthEventView>) -> Seq<Seq<Seq<char>>> {
    Seq::new(
        events.len() + 1,
        |i: int|
            if i == 0 {
                header_fields()
            } else {
                row_fields(events[i - 1])
            },
    )
}

/// The console line of an affected entity.
pub open spec fn entity_line(entity: Seq<char>) -> Seq<char> {
    "- "@ + entity
}

/// The console block of a record: a separator line, the labelled fields, one
/// line per affected entity and an empty line.
pub open spec fn block_lines(event: HealthEventView) -> Seq<Seq<char>> {
    seq![
        "====="@,
        "Timestamp: "@ + event.timestamp,
        "ARN: "@ + event.arn,
        "Detail: "@ + event.detail,
        "Affected Entities:"@,
    ] + Seq::new(event.affected_entities.len(), |i: int| entity_line(event.affected_entities[i]))
        + seq![Seq::<char>::empty()]
}

/// The name of the CSV file for a run on the day written as `date_text`.
pub open spec fn file_name_text(date_text: Seq<char>) -> Seq<char> {
    date_text + "_health.csv"@
}

/// The bytes that the `csv` crate writes for one record of the given fields;
/// `None` where it reports an error.
pub uninterp spec fn csv_record_bytes(fields: Seq<Seq<char>>) -> Option<Seq<u8>>;

/// The encoded records one after the other; `None` if one of them is missing.
pub open spec fn assembled(parts: Seq<Option<Seq<u8>>>) -> Option<Seq<u8>>
    decreases parts.len(),
{
    if parts.len() == 0 {
        Some(Seq::empty())
    } else {
        match (assembled(parts.drop_last()), parts.last()) {
            (Some(earlier), Some(bytes)) => Some(earlier + bytes),
            _ => None,
        }
    }
}

/// The CSV document of the events: the bytes of its records in order.
pub open spec fn document_bytes(events: Seq<HealthEventView>) -> Option<Seq<u8>> {
    assembled(document_records(events).map_values(|fields| csv_record_bytes(fields)))
}

/// The CSV document holds the header and then one row per listed event, in
/// the listing's order, each row made of that event's record.
pub proof fn lemma_one_row_per_listed_event(
    events: Seq<EventSummaryView>,
    details: Seq<Seq<EventDetailsView>>,
    entities: Seq<Seq<AffectedEntityView>>,
)
    requires
        details.len() == events.len(),
        entities.len() == events.len(),
    ensures
        document_records(records_of(events, details, entities)).len() == events.len() + 1,
        document_records(records_of(events, details, entities))[0] == header_fields(),
        forall|i: int|
            0 <= i < events.len() ==> #[trigger] document_records(
                records_of(events, details, entities),
            )[i + 1] == row_fields(record_of(events[i], details[i], entities[i])),
{
}

/// Without events the CSV document is the header row alone.
pub proof fn lemma_document_of_no_events()
    ensures
        document_records(Seq::empty()) == seq![header_fields()],
        document_bytes(Seq::empty()) == csv_record_bytes(header_fields()),
{
    let parts = document_records(Seq::empty()).map_values(|fields| csv_record_bytes(fields));
    assert(assembled(parts.drop_last()) == Some(Seq::<u8>::empty()));
}

/// One more event adds its row at the end of the CSV document and leaves the
/// rest as it was.
pub proof fn lemma_document_appends_rows(events: Seq<HealthEventView>, event: HealthEventView)
    ensures
        document_records(events.push(event)) == document_records(events).push(row_fields(event)),
        document_bytes(events.push(event)) == match (
            document_bytes(events),
            csv_record_bytes(row_fields(event)),
        ) {
            (Some(document), Some(row)) => Some(document + row),
            _ => None,
        },
{
    let before = document_records(events);
    let after = document_records(events.push(event));
    let parts = after.map_values(|fields| csv_record_bytes(fields));
    assert(parts.drop_last() =~= before.map_values(|fields| csv_record_bytes(fields)));
}

/// The last cell of a row holds the affected entities joined by `", "`; it is
/// empty for a record without affected entities.
pub proof fn lemma_entities_cell(event: HealthEventView)
    ensures
        row_fields(event).len() == 4,
        row_fields(event)[3] == joined(event.affected_entities, ", "@),
        event.affected_entities.len() == 0 ==> row_fields(event)[3] == Seq::<char>::empty(),
{
}

/// Writes one record with a `csv::Writer` over a buffer in memory
/// (`Writer::from_writer`, `write_record`, `into_inner`) and hands out the
/// buffer. Believed: the outcome depends on the fields alone. `None` stands
/// for an error of the writer.
#[verifier::external_body]
fn encode_record(fields: &Vec<String>) -> (bytes: Option<Vec<u8>>)
    ensures
        bytes.deep_view() == csv_record_bytes(fields.deep_view()),
{
    let mut writer = csv::Writer::from_writer(Vec::new());
    match writer.write_record(fields) {
        Ok(()) => {},
        Err(_) => return None,
    }
    match writer.into_inner() {
        Ok(bytes) => Some(bytes),
        Err(_) => None,
    }
}

/// The four column names of the CSV document.
pub fn csv_header() -> (fields: Vec<String>)
    ensures
        fields.deep_view() == header_fields(),
{
    let mut fields: Vec<String> = Vec::new();
    fields.push("Timestamp".to_owned());
    fields.push("ARN".to_owned());
    fields.push("Detail".to_owned());
    fields.push("Affected Entities".to_owned());
    fields
}

/// The four cells of the CSV row of `event`. The last cell holds the affected
/// entities joined by `", "`, and is empty if there are none.
pub fn csv_row(event: &HealthEvent) -> (fields: Vec<String>)
    ensures
        fields.deep_view() == row_fields(event.deep_view()),
        fields.len() == 4,
        fields[3]@ == joined(event.affected_entities.deep_view(), ", "@),
        event.affected_entities.len() == 0 ==> fields[3]@ == Seq::<char>::empty(),
{
    let mut fields: Vec<String> = Vec::new();
    fields.push(event.timestamp.clone());
    fields.push(event.arn.clone());
    fields.push(event.detail.clone());
    fields.push(join(&event.affected_entities, ", "));
    fields
}

/// The records of the CSV document: the header, then the rows of the events
/// in their order.
pub fn csv_records(events: &Vec<HealthEvent>) -> (records: Vec<Vec<String>>)
    ensures
        records.deep_view() == document_records(events.deep_view()),
        records.len() == events.len() + 1,
{
    let mut records: Vec<Vec<String>> = Vec::new();
    records.push(csv_header());
    let mut i: usize = 0;
    while i < events.len()
        invariant
            i <= events.len(),
            records.len() == i + 1,
            records.deep_view() =~= document_records(events.deep_view().take(i as int)),
        decreases events.len() - i,
    {
        let ghost before = records.deep_view();
        let row = csv_row(&events[i]);
        records.push(row);
        proof {
            let earlier = events.deep_view().take(i as int);
            let now = events.deep_view().take(i + 1);
            assert forall|k: int| 0 <= k < now.len() + 1 implies #[trigger] records.deep_view()[k]
                == document_records(now)[k] by {
                if k <= i {
                    assert(before[k] == document_records(earlier)[k]);
                }
            }
        }
        i = i + 1;
    }
    records
}

/// Puts encoded records together, in their order. `None` if one of them is
/// missing.
pub fn assemble(parts: Vec<Option<Vec<u8>>>) -> (document: Option<Vec<u8>>)
    ensures
        document.deep_view() == assembled(parts.deep_view()),
{
    let mut document: Vec<u8> = Vec::new();
    let mut i: usize = 0;
    while i < parts.len()
        invariant
            i <= parts.len(),
            assembled(parts.deep_view().take(i as int)) == Some(document.deep_view()),
        decreases parts.len() - i,
    {
        proof {
            let now = parts.deep_view().take(i + 1);
            assert(now.drop_last() =~= parts.deep_view().take(i as int));
        }
        match &parts[i] {
            Some(bytes) => {
                document.extend_from_slice(bytes.as_slice());
            },
            None => {
                proof {
                    lemma_missing_part(parts.deep_view(), i as int);
                }
                return None;
            },
        }
        i = i + 1;
    }
    proof {
        assert(parts.deep_view().take(i as int) =~= parts.deep_view());
    }
    Some(document)
}

/// A missing record leaves no document, whatever follows it.
pub proof fn lemma_missing_part(parts: Seq<Option<Seq<u8>>>, at: int)
    requires
        0 <= at < parts.len(),
        parts[at] is None,
    ensures
        assembled(parts) is None,
    decreases parts.len(),
{
    if at < parts.len() - 1 {
        lemma_missing_part(parts.drop_last(), at);
    }
}

/// The CSV document of `events` as the `csv` crate encodes it: the header
/// row, then one row per event in the order of the events. `None` if the
/// encoder reports an error for one of the records.
pub fn csv_document(events: &Vec<HealthEvent>) -> (document: Option<Vec<u8>>)
    ensures
        document.deep_view() == document_bytes(events.deep_view()),
{
    let records = csv_records(events);
    let mut parts: Vec<Option<Vec<u8>>> = Vec::new();
    let mut i: usize = 0;
    while i < records.len()
        invariant
            i <= records.len(),
            parts.len() == i,
            forall|k: int|
                0 <= k < i ==> #[trigger] parts.deep_view()[k] == csv_record_bytes(
                    records.deep_view()[k],
                ),
        decreases records.len() - i,
    {
        let ghost before = parts.deep_view();
        let part = encode_record(&records[i]);
        parts.push(part);
        assert(parts.deep_view() =~= before.push(part.deep_view()));
        i = i + 1;
    }
    assert(parts.deep_view() =~= records.deep_view().map_values(
        |fields| csv_record_bytes(fields),
    ));
    assemble(parts)
}

/// The console block of `event`, line by line.
pub fn console_block(event: &HealthEvent) -> (lines: Vec<String>)
    ensures
        lines.deep_view() == block_lines(event.deep_view()),
        lines.len() == event.affected_entities.len() + 6,
{
    let mut lines: Vec<String> = Vec::new();
    lines.push("=====".to_owned());
    lines.push(followed_by("Timestamp: ", event.timestamp.as_str()));
    lines.push(followed_by("ARN: ", event.arn.as_str()));
    lines.push(followed_by("Detail: ", event.detail.as_str()));
    lines.push("Affected Entities:".to_owned());
    let ghost entities = event.affected_entities.deep_view();
    let ghost head = lines.deep_view();
    let mut i: usize = 0;
    while i < event.affected_entities.len()
        invariant
            i <= event.affected_entities.len(),
            entities == event.affected_entities.deep_view(),
            lines.len() == i + 5,
            lines.deep_view() =~= head + Seq::new(i as nat, |k: int| entity_line(entities[k])),
        decreases event.affected_entities.len() - i,
    {
        let ghost before = lines.deep_view();
        let line = followed_by("- ", event.affected_entities[i].as_str());
        lines.push(line);
        assert(lines.deep_view() =~= before.push(line@));
        i = i + 1;
    }
    let ghost before = lines.deep_view();
    lines.push(String::new());
    assert(lines.deep_view() =~= before.push(Seq::<char>::empty()));
    lines
}

/// The name of the CSV file for a run on the day written as `date_text`.
pub fn file_name_for(date_text: &str) -> (name: String)
    ensures
        name@ == file_name_text(date_text@),
{
    followed_by(date_text, "_health.csv")
}

/// The name of the CSV file for a run at `now`, in milliseconds from
/// 1970-01-01T00:00:00Z: the UTC date of `now` as `chrono` writes it under
/// [`COMPACT_DATE_PATTERN`], then `_health.csv`. Within a four-digit year that
/// is the date as `YYYYMMDD`. `None` where `chrono` cannot write the date.
pub fn csv_file_name(now: i64) -> (name: Option<String>)
    ensures
        name.deep_view() == match rendered_utc(now as int, COMPACT_DATE_PATTERN@) {
            Some(date_text) => Some(file_name_text(date_text)),
            None => None,
        },
        forall|year: int, month: int, day: int|
            is_four_digit_date(year, month, day) && is_on_day(now as int, year, month, day)
                ==> name.deep_view() == Some(
                file_name_text(#[trigger] compact_date(year, month, day)),
            ),
{
    match render_utc(now, COMPACT_DATE_PATTERN) {
        Some(date_text) => Some(file_name_for(date_text.as_str())),
        None => None,
    }
}

/// The line that tells where the events were written.
pub fn completion_line(file_name: &str) -> (line: String)
    ensures
        line@ == "Events written to "@ + file_name@,
{
    followed_by("Events written to ", file_name)
}

} // verus!
