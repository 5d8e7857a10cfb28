use health_events::event::{
    AffectedEntity, EventDescription, EventDetails, EventSummary, HealthEvent, Timestamp,
};
use health_events::fetch::{Fetch, Reply, Request, Step};
use health_events::report::{console_block, csv_document, csv_file_name};
use health_events::resolver::{announcement, resolve_region, resolve_window};

const NOW: i64 = 1_704_196_800_000; // 2024-01-02T12:00:00Z

/// A service that knows one event, or none.
struct Service {
    event: Option<(EventSummary, Vec<EventDetails>, Vec<AffectedEntity>)>,
}

impl Service {
    fn answer(&self, request: &Request) -> Reply {
        match request {
            Request::ListEvents { region, start_millis, end_millis } => {
                assert_eq!(region, "us-west-2");
                let listed: Vec<EventSummary> = self
                    .event
                    .iter()
                    .map(|(summary, _, _)| summary.clone())
                    .filter(|summary| {
                        let at = summary.start_time.unwrap().seconds * 1000;
                        *start_millis <= at && at <= *end_millis
                    })
                    .collect();
                Reply::Events(listed)
            }
            Request::DescribeEventDetails { event_arn } => {
                let (summary, details, _) = self.event.as_ref().unwrap();
                assert_eq!(summary.arn.as_deref(), Some(event_arn.as_str()));
                Reply::EventDetails(details.clone())
            }
            Request::DescribeAffectedEntities { event_arn } => {
                let (summary, _, entities) = self.event.as_ref().unwrap();
                assert_eq!(summary.arn.as_deref(), Some(event_arn.as_str()));
                Reply::AffectedEntities(entities.clone())
            }
        }
    }
}

fn run(
    service: &Service,
    from_utc: Option<&str>,
    to_utc: Option<&str>,
) -> (Vec<String>, Vec<HealthEvent>) {
    let resolution = resolve_window(
        &from_utc.map(|t| t.to_string()),
        &to_utc.map(|t| t.to_string()),
        NOW,
    );
    let region = resolve_region(Some("us-west-2".to_string()), None).unwrap();
    assert!(announcement(&resolution.window, &region).is_some());
    let (mut fetch, mut request) = Fetch::start(&resolution.window, region);
    loop {
        let (next, step) = fetch.advance(service.answer(&request));
        fetch = next;
        match step {
            Step::Call(call) => request = call,
            Step::Done(events) => return (resolution.warnings, events),
            Step::Failed(error) => panic!("{:?}", error),
        }
    }
}

fn outage() -> Service {
    Service {
        event: Some((
            EventSummary {
                arn: Some("arn:1".to_string()),
                start_time: Some(Timestamp { seconds: 1_704_067_200, subsecond_nanos: 0 }),
            },
            vec![EventDetails {
                event_description: Some(EventDescription {
                    latest_description: Some("Outage".to_string()),
                }),
            }],
            vec![
                AffectedEntity { entity_value: Some("res-1".to_string()) },
                AffectedEntity { entity_value: Some("res-2".to_string()) },
            ],
        )),
    }
}

#[test]
fn one_event_gives_header_and_one_row() {
    let (warnings, events) = run(&outage(), Some("2023-12-31"), Some("2024-01-02"));
    assert!(warnings.is_empty());
    let document = String::from_utf8(csv_document(&events).unwrap()).unwrap();
    let lines: Vec<&str> = document.lines().collect();
    assert_eq!(lines.len(), 2);
    assert_eq!(lines[0], "Timestamp,ARN,Detail,Affected Entities");
    assert_eq!(lines[1], "2024-01-01T00:00:00Z,arn:1,Outage,\"res-1, res-2\"");
    let mut reader = csv::Reader::from_reader(document.as_bytes());
    let rows: Vec<csv::StringRecord> = reader.records().map(|r| r.unwrap()).collect();
    assert_eq!(rows.len(), 1);
    assert_eq!(
        rows[0].iter().collect::<Vec<&str>>(),
        vec!["2024-01-01T00:00:00Z", "arn:1", "Outage", "res-1, res-2"]
    );
    assert_eq!(
        console_block(&events[0]),
        vec![
            "=====",
            "Timestamp: 2024-01-01T00:00:00Z",
            "ARN: arn:1",
            "Detail: Outage",
            "Affected Entities:",
            "- res-1",
            "- res-2",
            "",
        ]
    );
}

#[test]
fn default_window_covers_the_last_ten_days() {
    let (warnings, events) = run(&outage(), None, None);
    assert!(warnings.is_empty());
    assert_eq!(events.len(), 1);
}

#[test]
fn window_that_misses_the_event_gives_header_only() {
    let (_, events) = run(&outage(), Some("2024-01-02"), None);
    assert!(events.is_empty());
    assert_eq!(
        csv_document(&events).unwrap(),
        b"Timestamp,ARN,Detail,Affected Entities\n".to_vec()
    );
}

#[test]
fn malformed_from_utc_warns_and_goes_on() {
    let (warnings, events) = run(&outage(), Some("not-a-date"), None);
    assert_eq!(warnings, vec!["Warning: Could not parse date 'not-a-date'. Using default."]);
    assert_eq!(events.len(), 1);
    let resolution = resolve_window(&Some("not-a-date".to_string()), &None, NOW);
    assert_eq!(resolution.window.start, NOW - 10 * 86_400_000);
    assert_eq!(resolution.window.end, NOW);
}

#[test]
fn zero_events_give_header_only() {
    let (warnings, events) = run(&Service { event: None }, None, None);
    assert!(warnings.is_empty());
    assert!(events.is_empty());
    let document = String::from_utf8(csv_document(&events).unwrap()).unwrap();
    assert_eq!(document, "Timestamp,ARN,Detail,Affected Entities\n");
    assert_eq!(document.lines().count(), 1);
}

#[test]
fn file_name_comes_from_the_clock_not_the_events() {
    let (_, events) = run(&outage(), None, None);
    assert_eq!(events[0].timestamp, "2024-01-01T00:00:00Z");
    assert_eq!(csv_file_name(NOW), Some("20240102_health.csv".to_string()));
}
