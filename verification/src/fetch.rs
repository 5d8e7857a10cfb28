//! The fetch of all events of a window, as a machine that the caller drives.
//!
//! The machine asks for one remote call at a time. The caller performs the
//! call and hands the reply to [`Fetch::advance`], which answers with the next
//! call, with the finished list of records, or with the failure that ended the
//! fetch. The calls go out in a fixed order: the listing first, then for each
//! listed event, in the listing's order, its details and its affected
//! entities. The records come out in the order of the listing.

use crate::event::{
    arn_text, event_arn, record_of, shape_event, AffectedEntity, AffectedEntityView,
    EventDetails, EventDetailsView, EventSummary, EventSummaryView, HealthEvent,
    HealthEventView,
};
use crate::resolver::TimeWindow;
use vstd::prelude::*;

verus! {

/// A remote call for the caller to perform.
#[derive(Clone, Debug, PartialEq, Eq)]
pub enum Request {
    /// List the events of `region` whose start time lies in the window.
    ListEvents { region: String, start_millis: i64, end_millis: i64 },
    /// Look up the details of the one event `event_arn`.
    DescribeEventDetails { event_arn: String },
    /// List the entities that the event `event_arn` affects.
    DescribeAffectedEntities { event_arn: String },
}

/// What a remote call came back with.
#[derive(Clone, Debug, PartialEq, Eq)]
pub enum Reply {
    /// The complete listing, in the service's order.
    Events(Vec<EventSummary>),
    /// The entries that the detail lookup could supply.
    EventDetails(Vec<EventDetails>),
    /// The affected entities, in the service's order.
    AffectedEntities(Vec<AffectedEntity>),
    /// The call failed.
    Failure,
}

/// Why a fetch ended without records.
#[derive(Clone, Copy, Debug, PartialEq, Eq)]
pub enum FetchError {
    /// A remote call failed.
    CallFailed,
    /// The reply is not one to the call that was asked for.
    UnexpectedReply,
    /// The fetch had ended before this reply came.
    AlreadyEnded,
}

/// What the caller is to do next.
#[derive(Clone, Debug, PartialEq, Eq)]
pub enum Step {
    /// Perform this call and hand its reply to [`Fetch::advance`].
    Call(Request),
    /// The fetch is complete: one record per listed event, in the listing's
    /// order.
    Done(Vec<HealthEvent>),
    /// The fetch is over and there are no records.
    Failed(FetchError),
}

/// A [`Request`] with its texts as sequences of characters.
pub enum RequestView {
    ListEvents { region: Seq<char>, start_millis: int, end_millis: int },
    DescribeEventDetails { event_arn: Seq<char> },
    DescribeAffectedEntities { event_arn: Seq<char> },
}

/// A [`Reply`] with its contents as sequences.
pub enum ReplyView {
    Events(Seq<EventSummaryView>),
    EventDetails(Seq<EventDetailsView>),
    AffectedEntities(Seq<AffectedEntityView>),
    Failure,
}

/// A [`Step`] with its contents as sequences.
pub enum StepView {
    Call(RequestView),
    Done(Seq<HealthEventView>),
    Failed(FetchError),
}

/// Where a fetch stands.
pub enum FetchView {
    /// The listing was asked for.
    Listing,
    /// The details of the event after the last recorded one were asked for.
    Details { events: Seq<EventSummaryView>, records: Seq<HealthEventView> },
    /// The affected entities of that event were asked for; `details` is what
    /// the lookup of its details supplied.
    Entities {
        events: Seq<EventSummaryView>,
        records: Seq<HealthEventView>,
        details: Seq<EventDetailsView>,
    },
    /// The fetch has ended.
    Ended,
}

impl DeepView for Request {
    type V = RequestView;

    open spec fn deep_view(&self) -> RequestView {
        match self {
            Request::ListEvents { region, start_millis, end_millis } => RequestView::ListEvents {
                region: region@,
                start_millis: *start_millis as int,
                end_millis: *end_millis as int,
            },
            Request::DescribeEventDetails { event_arn } => RequestView::DescribeEventDetails {
                event_arn: event_arn@,
            },
            Request::DescribeAffectedEntities {
                event_arn,
            } => RequestView::DescribeAffectedEntities { event_arn: event_arn@ },
        }
    }
}

impl DeepView for Reply {
    type V = ReplyView;

    open spec fn deep_view(&self) -> ReplyView {
        match self {
            Reply::Events(events) => ReplyView::Events(events.deep_view()),
            Reply::EventDetails(set) => ReplyView::EventDetails(set.deep_view()),
            Reply::AffectedEntities(entities) => ReplyView::AffectedEntities(
                entities.deep_view(),
            ),
            Reply::Failure => ReplyView::Failure,
        }
    }
}

impl DeepView for Step {
    type V = StepView;

    open spec fn deep_view(&self) -> StepView {
        match self {
            Step::Call(request) => StepView::Call(request.deep_view()),
            Step::Done(records) => StepView::Done(records.deep_view()),
            Step::Failed(error) => StepView::Failed(*error),
        }
    }
}

/// The call for the details of the event at `index`. An event without an
/// identifier is looked up under the placeholder that is recorded for it.
pub open spec fn details_call(events: Seq<EventSummaryView>, index: int) -> StepView {
    StepView::Call(RequestView::DescribeEventDetails { event_arn: arn_text(events[index].arn) })
}

/// The call for the affected entities of the event at `index`.
pub open spec fn entities_call(events: Seq<EventSummaryView>, index: int) -> StepView {
    StepView::Call(
        RequestView::DescribeAffectedEntities { event_arn: arn_text(events[index].arn) },
    )
}

/// The fetch after `records`, which cover a prefix of `events`: ended if they
/// cover all of them, else asking for the details of the next event.
pub open spec fn after_records(
    events: Seq<EventSummaryView>,
    records: Seq<HealthEventView>,
) -> (FetchView, StepView) {
    if records.len() >= events.len() {
        (FetchView::Ended, StepView::Done(records))
    } else {
        (FetchView::Details { events, records }, details_call(events, records.len() as int))
    }
}

/// The end that a reply other than the awaited one brings about.
pub open spec fn refusal(reply: ReplyView) -> (FetchView, StepView) {
    match reply {
        ReplyView::Failure => (FetchView::Ended, StepView::Failed(FetchError::CallFailed)),
        _ => (FetchView::Ended, StepView::Failed(FetchError::UnexpectedReply)),
    }
}

/// One move of the machine: where the fetch stands after `reply`, and what
/// the caller is to do next.
pub open spec fn next(fetch: FetchView, reply: ReplyView) -> (FetchView, StepView) {
    match fetch {
        FetchView::Listing => match reply {
            ReplyView::Events(events) => after_records(events, Seq::empty()),
            _ => refusal(reply),
        },
        FetchView::Details { events, records } => match reply {
            ReplyView::EventDetails(details) => (
                FetchView::Entities { events, records, details },
                entities_call(events, records.len() as int),
            ),
            _ => refusal(reply),
        },
        FetchView::Entities { events, records, details } => match reply {
            ReplyView::AffectedEntities(entities) => after_records(
                events,
                records.push(record_of(events[records.len() as int], details, entities)),
            ),
            _ => refusal(reply),
        },
        FetchView::Ended => (FetchView::Ended, StepView::Failed(FetchError::AlreadyEnded)),
    }
}

/// What the machine answers to `replies`, handed in one after the other from
/// where `fetch` stands.
pub open spec fn answers(fetch: FetchView, replies: Seq<ReplyView>) -> Seq<StepView>
    decreases replies.len(),
{
    if replies.len() == 0 {
        Seq::empty()
    } else {
        let moved = next(fetch, replies[0]);
        seq![moved.1] + answers(moved.0, replies.drop_first())
    }
}

/// The replies of a service that answers every lookup, for the events from
/// `from` on: for each event its details, then its affected entities.
pub open spec fn lookup_replies(
    details: Seq<Seq<EventDetailsView>>,
    entities: Seq<Seq<AffectedEntityView>>,
    from: int,
) -> Seq<ReplyView>
    decreases details.len() - from,
{
    if from < 0 || from >= details.len() {
        Seq::empty()
    } else {
        seq![ReplyView::EventDetails(details[from]), ReplyView::AffectedEntities(entities[from])]
            + lookup_replies(details, entities, from + 1)
    }
}

/// All replies of a service that answers every call: the listing, then the
/// lookups for each listed event.
pub open spec fn service_replies(
    events: Seq<EventSummaryView>,
    details: Seq<Seq<EventDetailsView>>,
    entities: Seq<Seq<AffectedEntityView>>,
) -> Seq<ReplyView> {
    seq![ReplyView::Events(events)] + lookup_replies(details, entities, 0)
}

/// One record per listed event, in the listing's order, each made of the
/// event and of what the service said of it.
pub open spec fn records_of(
    events: Seq<EventSummaryView>,
    details: Seq<Seq<EventDetailsView>>,
    entities: Seq<Seq<AffectedEntityView>>,
) -> Seq<HealthEventView> {
    Seq::new(events.len(), |i: int| record_of(events[i], details[i], entities[i]))
}

/// The course of a fetch against a service that answers every call: for each
/// listed event, in the listing's order, the call for its details and then
/// the call for its affected entities; at the end, the records.
pub open spec fn course(
    events: Seq<EventSummaryView>,
    details: Seq<Seq<EventDetailsView>>,
    entities: Seq<Seq<AffectedEntityView>>,
) -> Seq<StepView> {
    Seq::new(
        2 * events.len() + 1,
        |k: int|
            if k == 2 * events.len() {
                StepView::Done(records_of(events, details, entities))
            } else if k % 2 == 0 {
                details_call(events, k / 2)
            } else {
                entities_call(events, k / 2)
            },
    )
}

proof fn lemma_course_from(
    events: Seq<EventSummaryView>,
    details: Seq<Seq<EventDetailsView>>,
    entities: Seq<Seq<AffectedEntityView>>,
    done: int,
)
    requires
        details.len() == events.len(),
        entities.len() == events.len(),
        0 <= done < events.len(),
    ensures
        answers(
            FetchView::Details {
                events,
                records: records_of(events, details, entities).take(done),
            },
            lookup_replies(details, entities, done),
        ) == course(events, details, entities).skip(2 * done + 1),
    decreases events.len() - done,
{
    let all = records_of(events, details, entities);
    let records = all.take(done);
    let replies = lookup_replies(details, entities, done);
    let later = lookup_replies(details, entities, done + 1);
    let asked = FetchView::Details { events, records };
    // The first two replies are the lookups of the event at `done`. The
    // second of them adds its record to those before it.
    let first = next(asked, replies[0]);
    let second = next(first.0, replies[1]);
    let rest = replies.drop_first();
    assert(rest.drop_first() =~= later);
    assert(records.push(all[done]) =~= all.take(done + 1));
    // What follows is the course from the next event on, if there is one.
    let tail = answers(second.0, later);
    assert(answers(first.0, rest) =~= seq![second.1] + tail);
    if done + 1 < events.len() {
        lemma_course_from(events, details, entities, done + 1);
    } else {
        assert(all.take(done + 1) =~= all);
    }
}

/// Against a service that answers every call, the fetch takes its whole
/// course: it asks for the details and then for the affected entities of
/// each listed event, in the listing's order, and ends with one record per
/// listed event, in the listing's order, each made of that event, its details
/// and its affected entities.
pub proof fn lemma_fetch_takes_its_course(
    events: Seq<EventSummaryView>,
    details: Seq<Seq<EventDetailsView>>,
    entities: Seq<Seq<AffectedEntityView>>,
)
    requires
        details.len() == events.len(),
        entities.len() == events.len(),
    ensures
        answers(FetchView::Listing, service_replies(events, details, entities)) == course(
            events,
            details,
            entities,
        ),
        course(events, details, entities).last() == StepView::Done(
            records_of(events, details, entities),
        ),
        records_of(events, details, entities).len() == events.len(),
{
    let all = records_of(events, details, entities);
    let replies = service_replies(events, details, entities);
    let later = lookup_replies(details, entities, 0);
    // The listing comes first and leaves no record yet.
    let first = next(FetchView::Listing, replies[0]);
    assert(replies.drop_first() =~= later);
    assert(Seq::<HealthEventView>::empty() =~= all.take(0));
    let tail = answers(first.0, later);
    if events.len() > 0 {
        lemma_course_from(events, details, entities, 0);
    } else {
        assert(all.take(0) =~= all);
    }
}

/// A failed call ends the fetch at once, wherever it stands, and leaves no
/// records; whatever comes after the end is refused.
pub proof fn lemma_failure_ends_fetch(fetch: FetchView, later: ReplyView)
    ensures
        next(fetch, ReplyView::Failure).0 == FetchView::Ended,
        next(fetch, ReplyView::Failure).1 is Failed,
        !(fetch is Ended) ==> next(fetch, ReplyView::Failure).1 == StepView::Failed(
            FetchError::CallFailed,
        ),
        next(FetchView::Ended, later) == (
            FetchView::Ended,
            StepView::Failed(FetchError::AlreadyEnded),
        ),
{
}

/// Which reply a fetch awaits.
enum Stage {
    Listing,
    Details,
    Entities,
    Ended,
}

/// A fetch in progress: the listing once it has come, the records made so
/// far, and what is known of the event that is being looked up.
pub struct Fetch {
    stage: Stage,
    events: Vec<EventSummary>,
    records: Vec<HealthEvent>,
    details: Vec<EventDetails>,
}

impl DeepView for Fetch {
    type V = FetchView;

    closed spec fn deep_view(&self) -> FetchView {
        match self.stage {
            Stage::Listing => FetchView::Listing,
            Stage::Details => FetchView::Details {
                events: self.events.deep_view(),
                records: self.records.deep_view(),
            },
            Stage::Entities => FetchView::Entities {
                events: self.events.deep_view(),
                records: self.records.deep_view(),
                details: self.details.deep_view(),
            },
            Stage::Ended => FetchView::Ended,
        }
    }
}

impl Fetch {
    /// While an event is being looked up, it is one of the listed events.
    #[verifier::type_invariant]
    spec fn current_event_is_listed(self) -> bool {
        (self.stage is Details || self.stage is Entities) ==> self.records.len()
            < self.events.len()
    }

    fn ended() -> (fetch: Fetch)
        ensures
            fetch.deep_view() == FetchView::Ended,
    {
        Fetch {
            stage: Stage::Ended,
            events: Vec::new(),
            records: Vec::new(),
            details: Vec::new(),
        }
    }

    fn refuse(reply: Reply) -> (moved: (Fetch, Step))
        ensures
            (moved.0.deep_view(), moved.1.deep_view()) == refusal(reply.deep_view()),
    {
        match reply {
            Reply::Failure => (Fetch::ended(), Step::Failed(FetchError::CallFailed)),
            _ => (Fetch::ended(), Step::Failed(FetchError::UnexpectedReply)),
        }
    }

    fn resume(events: Vec<EventSummary>, records: Vec<HealthEvent>) -> (moved: (Fetch, Step))
        ensures
            (moved.0.deep_view(), moved.1.deep_view()) == after_records(
                events.deep_view(),
                records.deep_view(),
            ),
    {
        if records.len() >= events.len() {
            (Fetch::ended(), Step::Done(records))
        } else {
            let event_arn = event_arn(&events[records.len()]);
            (
                Fetch { stage: Stage::Details, events, records, details: Vec::new() },
                Step::Call(Request::DescribeEventDetails { event_arn }),
            )
        }
    }

    /// Begins the fetch of the events of `region` that started within
    /// `window`: the first call is the listing.
    pub fn start(window: &TimeWindow, region: String) -> (begun: (Fetch, Request))
        ensures
            begun.0.deep_view() == FetchView::Listing,
            begun.1.deep_view() == (RequestView::ListEvents {
                region: region@,
                start_millis: window.start as int,
                end_millis: window.end as int,
            }),
    {
        (
            Fetch {
                stage: Stage::Listing,
                events: Vec::new(),
                records: Vec::new(),
                details: Vec::new(),
            },
            Request::ListEvents { region, start_millis: window.start, end_millis: window.end },
        )
    }

    /// Takes the reply to the call that was asked for last and says what to
    /// do next. A failed call, or a reply to another call, ends the fetch at
    /// once, without records.
    pub fn advance(self, reply: Reply) -> (moved: (Fetch, Step))
        ensures
            (moved.0.deep_view(), moved.1.deep_view()) == next(
                self.deep_view(),
                reply.deep_view(),
            ),
    {
        proof {
            use_type_invariant(&self);
        }
        let Fetch { stage, events, records, details } = self;
        match stage {
            Stage::Listing => match reply {
                Reply::Events(listed) => {
                    let none: Vec<HealthEvent> = Vec::new();
                    assert(none.deep_view() =~= Seq::<HealthEventView>::empty());
                    Fetch::resume(listed, none)
                },
                other => Fetch::refuse(other),
            },
            Stage::Details => match reply {
                Reply::EventDetails(supplied) => {
                    let event_arn = event_arn(&events[records.len()]);
                    (
                        Fetch { stage: Stage::Entities, events, records, details: supplied },
                        Step::Call(Request::DescribeAffectedEntities { event_arn }),
                    )
                },
                other => Fetch::refuse(other),
            },
            Stage::Entities => match reply {
                Reply::AffectedEntities(entities) => {
                    let record = shape_event(&events[records.len()], &details, &entities);
                    let ghost before = records.deep_view();
                    let mut records = records;
                    records.push(record);
                    assert(records.deep_view() =~= before.push(record.deep_view()));
                    Fetch::resume(events, records)
                },
                other => Fetch::refuse(other),
            },
            Stage::Ended => (Fetch::ended(), Step::Failed(FetchError::AlreadyEnded)),
        }
    }
}

} // verus!
