//! The answers of the health service as plain values, and the flat record
//! that is made of them for each event.
//!
//! A field that the service left out never stops the run: it is replaced by a
//! fixed placeholder, or, for an affected entity without a value, skipped.
//!
//! A start time is written by `aws_smithy_types`. The function that calls it
//! is marked `external_body`; its contract is believed, not proved.

use vstd::prelude::*;

verus! {

/// A point in time as the service reports it: seconds from
/// 1970-01-01T00:00:00Z and the nanoseconds past that second.
#[derive(Clone, Copy, Debug, PartialEq, Eq)]
pub struct Timestamp {
    pub seconds: i64,
    pub subsecond_nanos: u32,
}

/// One event of the listing, with the two fields that are read from it.
#[derive(Clone, Debug, PartialEq, Eq)]
pub struct EventSummary {
    pub arn: Option<String>,
    pub start_time: Option<Timestamp>,
}

/// The description part of an event's details.
#[derive(Clone, Debug, PartialEq, Eq)]
pub struct EventDescription {
    pub latest_description: Option<String>,
}

/// One entry of the set of details that the service could supply.
#[derive(Clone, Debug, PartialEq, Eq)]
pub struct EventDetails {
    pub event_description: Option<EventDescription>,
}

/// One resource that an event affects.
#[derive(Clone, Debug, PartialEq, Eq)]
pub struct AffectedEntity {
    pub entity_value: Option<String>,
}

/// The flat record of one event.
#[derive(Clone, Debug, PartialEq, Eq)]
pub struct HealthEvent {
    pub timestamp: String,
    pub arn: String,
    pub detail: String,
    pub affected_entities: Vec<String>,
}

/// An [`EventSummary`] with its texts as sequences of characters.
pub struct EventSummaryView {
    pub arn: Option<Seq<char>>,
    pub start_time: Option<Timestamp>,
}

/// An [`EventDescription`] with its text as a sequence of characters.
pub struct EventDescriptionView {
    pub latest_description: Option<Seq<char>>,
}

/// An [`EventDetails`] with its text as a sequence of characters.
pub struct EventDetailsView {
    pub event_description: Option<EventDescriptionView>,
}

/// An [`AffectedEntity`] with its text as a sequence of characters.
pub struct AffectedEntityView {
    pub entity_value: Option<Seq<char>>,
}

/// A [`HealthEvent`] with its texts as sequences of characters.
pub struct HealthEventView {
    pub timestamp: Seq<char>,
    pub arn: Seq<char>,
    pub detail: Seq<char>,
    pub affected_entities: Seq<Seq<char>>,
}

impl DeepView for EventSummary {
    type V = EventSummaryView;

    open spec fn deep_view(&self) -> EventSummaryView {
        EventSummaryView { arn: self.arn.deep_view(), start_time: self.start_time }
    }
}

impl DeepView for EventDescription {
    type V = EventDescriptionView;

    open spec fn deep_view(&self) -> EventDescriptionView {
        EventDescriptionView { latest_description: self.latest_description.deep_view() }
    }
}

impl DeepView for EventDetails {
    type V = EventDetailsView;

    open spec fn deep_view(&self) -> EventDetailsView {
        EventDetailsView { event_description: self.event_description.deep_view() }
    }
}

impl DeepView for AffectedEntity {
    type V = AffectedEntityView;

    open spec fn deep_view(&self) -> AffectedEntityView {
        AffectedEntityView { entity_value: self.entity_value.deep_view() }
    }
}

impl DeepView for HealthEvent {
    type V = HealthEventView;

    open spec fn deep_view(&self) -> HealthEventView {
        HealthEventView {
            timestamp: self.timestamp@,
            arn: self.arn@,
            detail: self.detail@,
            affected_entities: self.affected_entities.deep_view(),
        }
    }
}

/// Stands for the identifier of an event that has none.
pub open spec fn missing_arn() -> Seq<char> {
    "N/A"@
}

/// Stands for the description of an event for which none was supplied.
pub open spec fn missing_detail() -> Seq<char> {
    "No description available"@
}

/// Stands for the start time of an event for which none can be written.
pub open spec fn missing_time() -> Seq<char> {
    "Unknown time"@
}

/// The text that `aws_smithy_types` writes for a point in time in its
/// date-time format; `None` where it writes none.
pub uninterp spec fn date_time_text(seconds: int, subsecond_nanos: int) -> Option<Seq<char>>;

/// The identifier under which an event is recorded and looked up.
pub open spec fn arn_text(arn: Option<Seq<char>>) -> Seq<char> {
    match arn {
        Some(text) => text,
        None => missing_arn(),
    }
}

/// The description recorded for an event: the latest description of the
/// first supplied entry, if there is an entry and it has one.
pub open spec fn detail_text(successful_set: Seq<EventDetailsView>) -> Seq<char> {
    if successful_set.len() == 0 {
        missing_detail()
    } else {
        match successful_set[0].event_description {
            Some(EventDescriptionView { latest_description: Some(text) }) => text,
            _ => missing_detail(),
        }
    }
}

/// The values of the entities that have one, in the order of the entities.
pub open spec fn present_values(entities: Seq<AffectedEntityView>) -> Seq<Seq<char>>
    decreases entities.len(),
{
    if entities.len() == 0 {
        Seq::empty()
    } else {
        let earlier = present_values(entities.drop_last());
        match entities.last().entity_value {
            Some(value) => earlier.push(value),
            None => earlier,
        }
    }
}

/// The start time recorded for an event, given what the formatter wrote.
pub open spec fn written_time(written: Option<Seq<char>>) -> Seq<char> {
    match written {
        Some(text) => text,
        None => missing_time(),
    }
}

/// The start time recorded for an event.
pub open spec fn timestamp_text(start_time: Option<Timestamp>) -> Seq<char> {
    match start_time {
        Some(t) => written_time(date_time_text(t.seconds as int, t.subsecond_nanos as int)),
        None => missing_time(),
    }
}

/// The record of an event, given what the service said of it.
pub open spec fn record_of(
    event: EventSummaryView,
    successful_set: Seq<EventDetailsView>,
    entities: Seq<AffectedEntityView>,
) -> HealthEventView {
    HealthEventView {
        timestamp: timestamp_text(event.start_time),
        arn: arn_text(event.arn),
        detail: detail_text(successful_set),
        affected_entities: present_values(entities),
    }
}

/// An event without an identifier is recorded under `"N/A"`.
pub proof fn lemma_missing_identifier(
    event: EventSummaryView,
    successful_set: Seq<EventDetailsView>,
    entities: Seq<AffectedEntityView>,
)
    requires
        event.arn is None,
    ensures
        record_of(event, successful_set, entities).arn == "N/A"@,
{
}

/// An event for which the detail lookup supplied no entry, or a first entry
/// without a description, is recorded with `"No description available"`.
pub proof fn lemma_missing_description(
    event: EventSummaryView,
    successful_set: Seq<EventDetailsView>,
    entities: Seq<AffectedEntityView>,
)
    requires
        successful_set.len() == 0 || successful_set[0].event_description is None
            || successful_set[0].event_description->0.latest_description is None,
    ensures
        record_of(event, successful_set, entities).detail == "No description available"@,
{
}

/// An event without a start time, or with one that the formatter does not
/// write, is recorded with `"Unknown time"`.
pub proof fn lemma_missing_start_time(
    event: EventSummaryView,
    successful_set: Seq<EventDetailsView>,
    entities: Seq<AffectedEntityView>,
)
    requires
        event.start_time matches Some(t) ==> date_time_text(
            t.seconds as int,
            t.subsecond_nanos as int,
        ) is None,
    ensures
        record_of(event, successful_set, entities).timestamp == "Unknown time"@,
{
}

/// The recorded entities are the values that are present, in the order of
/// the entities: a present value is appended, an absent one changes nothing.
pub proof fn lemma_present_values_step(
    entities: Seq<AffectedEntityView>,
    entity: AffectedEntityView,
)
    ensures
        present_values(Seq::empty()) == Seq::<Seq<char>>::empty(),
        present_values(entities.push(entity)) == match entity.entity_value {
            Some(value) => present_values(entities).push(value),
            None => present_values(entities),
        },
{
    assert(entities.push(entity).drop_last() =~= entities);
}

/// Builds the `aws_smithy_types::DateTime` of the given seconds and
/// nanoseconds (`DateTime::from_secs`, `DateTime::set_subsec_nanos`) and calls
/// `DateTime::fmt` on it with `Format::DateTime`. Believed: the outcome
/// depends on the two numbers alone. `None` stands for the formatter's error.
#[verifier::external_body]
fn format_date_time(seconds: i64, subsecond_nanos: u32) -> (text: Option<String>)
    ensures
        text.deep_view() == date_time_text(seconds as int, subsecond_nanos as int),
{
    let mut instant = aws_smithy_types::DateTime::from_secs(seconds);
    instant.set_subsec_nanos(subsecond_nanos);
    match instant.fmt(aws_smithy_types::date_time::Format::DateTime) {
        Ok(text) => Some(text),
        Err(_) => None,
    }
}

/// The identifier of `event`, or `"N/A"` if it has none.
pub fn event_arn(event: &EventSummary) -> (arn: String)
    ensures
        arn@ == arn_text(event.deep_view().arn),
        event.arn is None ==> arn@ == "N/A"@,
{
    match &event.arn {
        Some(text) => text.clone(),
        None => "N/A".to_owned(),
    }
}

/// The description to record, read from the entries that the service could
/// supply: the latest description of the first entry, or
/// `"No description available"` if there is no entry or the first has none.
pub fn event_detail(successful_set: &Vec<EventDetails>) -> (detail: String)
    ensures
        detail@ == detail_text(successful_set.deep_view()),
        successful_set.len() == 0 ==> detail@ == "No description available"@,
{
    if successful_set.len() == 0 {
        return "No description available".to_owned();
    }
    match &successful_set[0].event_description {
        Some(description) => match &description.latest_description {
            Some(text) => text.clone(),
            None => "No description available".to_owned(),
        },
        None => "No description available".to_owned(),
    }
}

/// The values of the affected entities, in their order; an entity without a
/// value is left out.
pub fn entity_values(entities: &Vec<AffectedEntity>) -> (values: Vec<String>)
    ensures
        values.deep_view() == present_values(entities.deep_view()),
{
    let mut values: Vec<String> = Vec::new();
    let mut i: usize = 0;
    while i < entities.len()
        invariant
            i <= entities.len(),
            values.deep_view() == present_values(entities.deep_view().take(i as int)),
        decreases entities.len() - i,
    {
        proof {
            let next = entities.deep_view().take(i + 1);
            assert(next.drop_last() =~= entities.deep_view().take(i as int));
        }
        match &entities[i].entity_value {
            Some(value) => {
                values.push(value.clone());
            },
            None => {},
        }
        i = i + 1;
    }
    proof {
        assert(entities.deep_view().take(i as int) =~= entities.deep_view());
    }
    values
}

/// The start time to record, given what the formatter wrote for it:
/// `"Unknown time"` if it wrote nothing.
pub fn time_or_placeholder(written: Option<String>) -> (timestamp: String)
    ensures
        timestamp@ == written_time(written.deep_view()),
        written is None ==> timestamp@ == "Unknown time"@,
{
    match written {
        Some(text) => text,
        None => "Unknown time".to_owned(),
    }
}

/// The start time to record for an event, in the date-time format of
/// `aws_smithy_types`: `"Unknown time"` if the event has no start time, or
/// one that the format cannot express.
pub fn event_timestamp(start_time: &Option<Timestamp>) -> (timestamp: String)
    ensures
        timestamp@ == timestamp_text(*start_time),
        start_time is None ==> timestamp@ == "Unknown time"@,
{
    match start_time {
        Some(t) => time_or_placeholder(format_date_time(t.seconds, t.subsecond_nanos)),
        None => "Unknown time".to_owned(),
    }
}

/// The record of `event`, made of the listing's entry, the entries that the
/// detail lookup supplied and the entities that the event affects.
pub fn shape_event(
    event: &EventSummary,
    successful_set: &Vec<EventDetails>,
    entities: &Vec<AffectedEntity>,
) -> (record: HealthEvent)
    ensures
        record.deep_view() == record_of(
            event.deep_view(),
            successful_set.deep_view(),
            entities.deep_view(),
        ),
{
    HealthEvent {
        timestamp: event_timestamp(&event.start_time),
        arn: event_arn(event),
        detail: event_detail(successful_set),
        affected_entities: entity_values(entities),
    }
}

} // verus!
