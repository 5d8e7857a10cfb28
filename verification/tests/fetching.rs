use health_events::event::{
    AffectedEntity, EventDescription, EventDetails, EventSummary, HealthEvent, Timestamp,
};
use health_events::fetch::{Fetch, FetchError, Reply, Request, Step};
use health_events::resolver::TimeWindow;

const WINDOW: TimeWindow = TimeWindow { start: 1_703_980_800_000, end: 1_704_153_600_000 };

struct Known {
    event: EventSummary,
    details: Vec<EventDetails>,
    entities: Vec<AffectedEntity>,
}

fn known(
    arn: Option<&str>,
    seconds: Option<i64>,
    detail: Option<&str>,
    entities: &[&str],
) -> Known {
    Known {
        event: EventSummary {
            arn: arn.map(|a| a.to_string()),
            start_time: seconds.map(|s| Timestamp { seconds: s, subsecond_nanos: 0 }),
        },
        details: match detail {
            Some(text) => vec![EventDetails {
                event_description: Some(EventDescription {
                    latest_description: Some(text.to_string()),
                }),
            }],
            None => vec![],
        },
        entities: entities
            .iter()
            .map(|e| AffectedEntity { entity_value: Some(e.to_string()) })
            .collect(),
    }
}

/// Plays a service that holds `service`, in that order, and fails the call
/// numbered `fail_at` (from 0), if any. Gives back the requests it saw and the
/// step that ended the fetch.
fn drive(service: &[Known], region: &str, fail_at: Option<usize>) -> (Vec<Request>, Step) {
    let (mut fetch, first) = Fetch::start(&WINDOW, region.to_string());
    let mut request = first;
    let mut seen = Vec::new();
    loop {
        seen.push(request.clone());
        let reply = if fail_at == Some(seen.len() - 1) {
            Reply::Failure
        } else {
            match &request {
                Request::ListEvents { .. } => {
                    Reply::Events(service.iter().map(|k| k.event.clone()).collect())
                }
                Request::DescribeEventDetails { event_arn } => {
                    let found = service
                        .iter()
                        .find(|k| k.event.arn.as_deref().unwrap_or("N/A") == event_arn.as_str())
                        .unwrap();
                    Reply::EventDetails(found.details.clone())
                }
                Request::DescribeAffectedEntities { event_arn } => {
                    let found = service
                        .iter()
                        .find(|k| k.event.arn.as_deref().unwrap_or("N/A") == event_arn.as_str())
                        .unwrap();
                    Reply::AffectedEntities(found.entities.clone())
                }
            }
        };
        let (next, step) = fetch.advance(reply);
        fetch = next;
        match step {
            Step::Call(call) => request = call,
            last => return (seen, last),
        }
    }
}

#[test]
fn fetch_begins_with_the_listing() {
    let (_, request) = Fetch::start(&WINDOW, "us-west-2".to_string());
    assert_eq!(
        request,
        Request::ListEvents {
            region: "us-west-2".to_string(),
            start_millis: 1_703_980_800_000,
            end_millis: 1_704_153_600_000,
        }
    );
}

#[test]
fn one_event_end_to_end() {
    let service = [known(Some("arn:1"), Some(1_704_067_200), Some("Outage"), &["res-1", "res-2"])];
    let (seen, last) = drive(&service, "us-west-2", None);
    assert_eq!(
        seen,
        vec![
            Request::ListEvents {
                region: "us-west-2".to_string(),
                start_millis: WINDOW.start,
                end_millis: WINDOW.end,
            },
            Request::DescribeEventDetails { event_arn: "arn:1".to_string() },
            Request::DescribeAffectedEntities { event_arn: "arn:1".to_string() },
        ]
    );
    assert_eq!(
        last,
        Step::Done(vec![HealthEvent {
            timestamp: "2024-01-01T00:00:00Z".to_string(),
            arn: "arn:1".to_string(),
            detail: "Outage".to_string(),
            affected_entities: vec!["res-1".to_string(), "res-2".to_string()],
        }])
    );
}

#[test]
fn zero_events_end_the_fetch_at_once() {
    let (seen, last) = drive(&[], "us-west-2", None);
    assert_eq!(seen.len(), 1);
    assert_eq!(last, Step::Done(vec![]));
}

#[test]
fn records_follow_the_listing_order() {
    let service = [
        known(Some("arn:c"), Some(3), Some("third letter"), &["z"]),
        known(Some("arn:a"), Some(1), None, &[]),
        known(Some("arn:b"), None, Some("second letter"), &["y", "x"]),
    ];
    let (seen, last) = drive(&service, "eu-central-1", None);
    assert_eq!(seen.len(), 7);
    assert_eq!(seen[1], Request::DescribeEventDetails { event_arn: "arn:c".to_string() });
    assert_eq!(seen[2], Request::DescribeAffectedEntities { event_arn: "arn:c".to_string() });
    assert_eq!(seen[3], Request::DescribeEventDetails { event_arn: "arn:a".to_string() });
    assert_eq!(seen[4], Request::DescribeAffectedEntities { event_arn: "arn:a".to_string() });
    assert_eq!(seen[5], Request::DescribeEventDetails { event_arn: "arn:b".to_string() });
    assert_eq!(seen[6], Request::DescribeAffectedEntities { event_arn: "arn:b".to_string() });
    match last {
        Step::Done(records) => {
            assert_eq!(records.len(), 3);
            let arns: Vec<&str> = records.iter().map(|r| r.arn.as_str()).collect();
            assert_eq!(arns, vec!["arn:c", "arn:a", "arn:b"]);
            assert_eq!(records[0].timestamp, "1970-01-01T00:00:03Z");
            assert_eq!(records[1].detail, "No description available");
            assert_eq!(records[1].affected_entities, Vec::<String>::new());
            assert_eq!(records[2].timestamp, "Unknown time");
            assert_eq!(records[2].affected_entities, vec!["y".to_string(), "x".to_string()]);
        }
        other => panic!("{:?}", other),
    }
}

#[test]
fn event_without_identifier_is_looked_up_by_placeholder() {
    let service = [known(None, Some(0), Some("text"), &["e"])];
    let (seen, last) = drive(&service, "r", None);
    assert_eq!(seen[1], Request::DescribeEventDetails { event_arn: "N/A".to_string() });
    assert_eq!(seen[2], Request::DescribeAffectedEntities { event_arn: "N/A".to_string() });
    match last {
        Step::Done(records) => assert_eq!(records[0].arn, "N/A"),
        other => panic!("{:?}", other),
    }
}

#[test]
fn same_identifier_twice_gives_two_records() {
    let service = [
        known(Some("arn:1"), Some(1), Some("d"), &["e"]),
        known(Some("arn:1"), Some(1), Some("d"), &["e"]),
    ];
    let (seen, last) = drive(&service, "r", None);
    assert_eq!(seen.len(), 5);
    match last {
        Step::Done(records) => {
            assert_eq!(records.len(), 2);
            assert_eq!(records[0], records[1]);
        }
        other => panic!("{:?}", other),
    }
}

#[test]
fn failed_listing_aborts() {
    let service = [known(Some("arn:1"), Some(1), Some("d"), &["e"])];
    let (seen, last) = drive(&service, "r", Some(0));
    assert_eq!(seen.len(), 1);
    assert_eq!(last, Step::Failed(FetchError::CallFailed));
}

#[test]
fn failed_detail_lookup_aborts() {
    let service = [
        known(Some("arn:1"), Some(1), Some("d"), &["e"]),
        known(Some("arn:2"), Some(2), Some("d"), &["e"]),
    ];
    let (seen, last) = drive(&service, "r", Some(3));
    assert_eq!(seen.len(), 4);
    assert_eq!(last, Step::Failed(FetchError::CallFailed));
}

#[test]
fn failed_entity_lookup_aborts() {
    let service = [known(Some("arn:1"), Some(1), Some("d"), &["e"])];
    let (seen, last) = drive(&service, "r", Some(2));
    assert_eq!(seen.len(), 3);
    assert_eq!(last, Step::Failed(FetchError::CallFailed));
}

#[test]
fn reply_to_another_call_aborts() {
    let (fetch, _) = Fetch::start(&WINDOW, "r".to_string());
    let (fetch, step) = fetch.advance(Reply::EventDetails(vec![]));
    assert_eq!(step, Step::Failed(FetchError::UnexpectedReply));
    let (_, step) = fetch.advance(Reply::Events(vec![]));
    assert_eq!(step, Step::Failed(FetchError::AlreadyEnded));

    let listed = vec![EventSummary { arn: Some("a".to_string()), start_time: None }];
    let (fetch, _) = Fetch::start(&WINDOW, "r".to_string());
    let (fetch, step) = fetch.advance(Reply::Events(listed.clone()));
    assert_eq!(step, Step::Call(Request::DescribeEventDetails { event_arn: "a".to_string() }));
    let (_, step) = fetch.advance(Reply::AffectedEntities(vec![]));
    assert_eq!(step, Step::Failed(FetchError::UnexpectedReply));

    let (fetch, _) = Fetch::start(&WINDOW, "r".to_string());
    let (fetch, _) = fetch.advance(Reply::Events(listed));
    let (fetch, step) = fetch.advance(Reply::EventDetails(vec![]));
    assert_eq!(step, Step::Call(Request::DescribeAffectedEntities { event_arn: "a".to_string() }));
    let (_, step) = fetch.advance(Reply::Events(vec![]));
    assert_eq!(step, Step::Failed(FetchError::UnexpectedReply));
}

#[test]
fn nothing_follows_the_end() {
    let (fetch, _) = Fetch::start(&WINDOW, "r".to_string());
    let (fetch, step) = fetch.advance(Reply::Events(vec![]));
    assert_eq!(step, Step::Done(vec![]));
    let (fetch, step) = fetch.advance(Reply::Events(vec![]));
    assert_eq!(step, Step::Failed(FetchError::AlreadyEnded));
    let (_, step) = fetch.advance(Reply::Failure);
    assert_eq!(step, Step::Failed(FetchError::AlreadyEnded));
}
