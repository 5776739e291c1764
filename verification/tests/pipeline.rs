use carrot::aggregate::{Aggregator, Summary, DEFAULT_CHANNEL_CAPACITY};
use carrot::errors::{CarrotError, DescribeVpcsError, HttpFailure, LookupEventsError};
use carrot::paged::Page;
use carrot::region::Region;
use carrot::report::Report;
use carrot::resolver::{Resolver, ResolverAction};
use carrot::vpc_info::{Event, VpcInfo};
use carrot::vpc_stream::Vpc;
use carrot::worker::{Message, PartitionWorker, WorkerAction};
use std::collections::HashMap;
use std::collections::VecDeque;

fn creation(user: &str, time: i64) -> Event {
    Event {
        event_name: Some("CreateVpc".to_string()),
        username: Some(user.to_string()),
        event_time: Some(time),
        cloud_trail_event: None,
    }
}

fn other(name: &str) -> Event {
    Event {
        event_name: Some(name.to_string()),
        username: Some("nobody".to_string()),
        event_time: Some(1),
        cloud_trail_event: None,
    }
}

fn created(vpc_id: &str, region: Region, user: Option<&str>) -> VpcInfo {
    let events = match user {
        Some(u) => vec![creation(u, 42)],
        None => vec![],
    };
    VpcInfo::from_events(vpc_id.to_string(), region, events)
}

fn ids(records: &[VpcInfo]) -> Vec<String> {
    records.iter().map(|r| r.vpc_id().clone()).collect()
}

type Listing = VecDeque<Result<Page<Vpc>, DescribeVpcsError>>;
type Lookups = HashMap<String, VecDeque<Result<Page<Event>, LookupEventsError>>>;

fn networks(names: &[&str], next: Option<&str>) -> Result<Page<Vpc>, DescribeVpcsError> {
    Ok(Page {
        items: names.iter().map(|n| Vpc { vpc_id: n.to_string() }).collect(),
        next_token: next.map(|t| t.to_string()),
    })
}

fn events(items: Vec<Event>, next: Option<&str>) -> Result<Page<Event>, LookupEventsError> {
    Ok(Page { items, next_token: next.map(|t| t.to_string()) })
}

fn limit() -> HttpFailure {
    HttpFailure { status: 400, body: b"{\"__type\":\"ThrottlingException\"}".to_vec() }
}

fn resolve(vpc_id: &str, region: Region, lookups: &mut Lookups) -> Result<VpcInfo, LookupEventsError> {
    let mut resolver = Resolver::new(vpc_id.to_string(), region);
    let answers = lookups.get_mut(vpc_id).expect("the lookups of the network are scripted");
    loop {
        match resolver.poll() {
            ResolverAction::Request(_) => {
                let answer = answers.pop_front().expect("an answer is scripted");
                if let Some(failure) = resolver.on_response(answer) {
                    return Err(failure);
                }
            }
            ResolverAction::Wait { .. } => resolver.on_delay_elapsed(),
            ResolverAction::Pending => panic!("no request is outstanding"),
            ResolverAction::Resolved(info) => return Ok(info),
        }
    }
}

fn work(region: Region, mut listing: Listing, lookups: &mut Lookups, out: &mut Vec<Message>) {
    let mut worker = PartitionWorker::new(region);
    let mut started: Vec<String> = Vec::new();
    loop {
        match worker.poll() {
            WorkerAction::List(_) => {
                let answer = listing.pop_front().expect("an answer is scripted");
                if let Some(notice) = worker.on_listing(answer) {
                    out.push(notice);
                }
            }
            WorkerAction::Wait { .. } => worker.on_delay_elapsed(),
            WorkerAction::Spawn { vpc_id } => started.push(vpc_id),
            WorkerAction::Pending => {
                let vpc_id = started.pop().expect("a task is awaited");
                let outcome = resolve(&vpc_id, region, lookups);
                let message = worker.on_resolved(vpc_id, outcome).expect("the task was awaited");
                out.push(message);
            }
            WorkerAction::Done => {
                assert!(worker.is_done());
                assert_eq!(worker.outstanding(), 0);
                return;
            }
        }
    }
}

fn sum_up(partitions: Vec<Region>, messages: Vec<Message>) -> Summary {
    let mut aggregator = Aggregator::new(partitions.clone());
    for message in messages {
        aggregator.on_message(message);
    }
    for region in partitions {
        assert!(!aggregator.is_complete());
        assert!(aggregator.on_partition_done(region));
    }
    assert!(aggregator.is_complete());
    match aggregator.finish() {
        Ok(summary) => summary,
        Err(_) => panic!("every worker has finished"),
    }
}

#[test]
fn two_regions_three_networks() {
    let mut lookups: Lookups = HashMap::new();
    lookups.insert("r1".to_string(), VecDeque::from(vec![events(vec![creation("U1", 100)], None)]));
    lookups.insert(
        "r2".to_string(),
        VecDeque::from(vec![
            events(vec![other("DescribeVpcs")], Some("next")),
            events(vec![creation("U2", 200)], None),
        ]),
    );
    lookups.insert("r3".to_string(), VecDeque::from(vec![events(vec![other("DeleteVpc")], None)]));

    let mut messages = Vec::new();
    let a = VecDeque::from(vec![networks(&["r1", "r2"], None)]);
    let b = VecDeque::from(vec![networks(&["r3"], None)]);
    work(Region::UsEast1, a, &mut lookups, &mut messages);
    work(Region::EuWest1, b, &mut lookups, &mut messages);
    assert_eq!(messages.len(), 3);

    let summary = sum_up(vec![Region::UsEast1, Region::EuWest1], messages);
    assert!(summary.resource_failures.is_empty());
    assert!(summary.partition_failures.is_empty());
    let report = summary.report;
    assert_eq!(report.knowns().len(), 2);
    let mut by_creator: Vec<(String, Vec<String>)> = report
        .knowns()
        .iter()
        .map(|g| (g.creator().clone(), ids(g.records())))
        .collect();
    by_creator.sort();
    assert_eq!(
        by_creator,
        vec![
            ("U1".to_string(), vec!["r1".to_string()]),
            ("U2".to_string(), vec!["r2".to_string()]),
        ]
    );
    assert_eq!(ids(report.unknowns()), vec!["r3".to_string()]);
    for group in report.knowns() {
        for record in group.records() {
            assert_eq!(record.region(), Region::UsEast1);
        }
    }
    assert_eq!(report.unknowns()[0].region(), Region::EuWest1);
    let r1 = &report.knowns().iter().find(|g| g.creator() == "U1").unwrap().records()[0];
    assert_eq!(r1.creation_time(), Some(100));
    let r2 = &report.knowns().iter().find(|g| g.creator() == "U2").unwrap().records()[0];
    assert_eq!(r2.creation_time(), Some(200));
}

#[test]
fn every_network_of_every_region_gives_one_record() {
    let regions = vec![Region::ApSouth1, Region::CaCentral1, Region::SaEast1];
    let per_region = 4;
    let mut lookups: Lookups = HashMap::new();
    let mut messages = Vec::new();
    for (p, region) in regions.iter().enumerate() {
        let names: Vec<String> = (0..per_region).map(|i| format!("vpc-{}-{}", p, i)).collect();
        for name in &names {
            lookups.insert(name.clone(), VecDeque::from(vec![events(vec![creation("u", 1)], None)]));
        }
        let first: Vec<&str> = names[..2].iter().map(|n| n.as_str()).collect();
        let second: Vec<&str> = names[2..].iter().map(|n| n.as_str()).collect();
        let listing = VecDeque::from(vec![
            networks(&first, Some("more")),
            Err(DescribeVpcsError::Unknown(limit())),
            networks(&second, None),
        ]);
        work(*region, listing, &mut lookups, &mut messages);
    }
    assert_eq!(messages.len(), regions.len() * per_region);
    assert!(messages.iter().all(|m| matches!(m, Message::Record(_))));
    let mut seen: Vec<String> = messages
        .iter()
        .map(|m| match m {
            Message::Record(info) => info.vpc_id().clone(),
            _ => unreachable!(),
        })
        .collect();
    seen.sort();
    seen.dedup();
    assert_eq!(seen.len(), regions.len() * per_region);

    let mut aggregator = Aggregator::new(regions.clone());
    for message in messages {
        aggregator.on_message(message);
    }
    assert_eq!(aggregator.record_count(), 12);
    assert_eq!(aggregator.failure_count(), (0, 0));
}

#[test]
fn a_network_that_cannot_be_resolved_gives_one_failure_and_no_record() {
    let mut lookups: Lookups = HashMap::new();
    lookups.insert("ok".to_string(), VecDeque::from(vec![events(vec![creation("amy", 7)], None)]));
    lookups.insert(
        "bad".to_string(),
        VecDeque::from(vec![
            events(vec![creation("ben", 8)], Some("2")),
            Err(LookupEventsError::Unknown(limit())),
            Err(LookupEventsError::Other("connection reset".to_string())),
        ]),
    );
    let mut messages = Vec::new();
    let listing = VecDeque::from(vec![networks(&["ok", "bad"], None)]);
    work(Region::UsWest1, listing, &mut lookups, &mut messages);
    assert_eq!(messages.len(), 2);

    let summary = sum_up(vec![Region::UsWest1], messages);
    assert_eq!(summary.resource_failures.len(), 1);
    assert_eq!(summary.resource_failures[0].vpc_id, "bad");
    assert_eq!(summary.resource_failures[0].region, Region::UsWest1);
    match &summary.resource_failures[0].error {
        CarrotError::LookUpEventsFailed(text) => assert_eq!(text, "connection reset"),
        _ => panic!("a failed lookup"),
    }
    assert!(summary.partition_failures.is_empty());
    assert_eq!(summary.report.knowns().len(), 1);
    assert_eq!(summary.report.knowns()[0].creator(), "amy");
    assert_eq!(ids(summary.report.knowns()[0].records()), vec!["ok".to_string()]);
    assert!(summary.report.unknowns().is_empty());
}

#[test]
fn a_listing_that_fails_ends_the_region_but_not_its_tasks() {
    let mut lookups: Lookups = HashMap::new();
    lookups.insert("a".to_string(), VecDeque::from(vec![events(vec![], None)]));
    lookups.insert("b".to_string(), VecDeque::from(vec![events(vec![creation("cy", 3)], None)]));
    let mut messages = Vec::new();
    let listing = VecDeque::from(vec![
        networks(&["a", "b"], Some("more")),
        Err(DescribeVpcsError::Unknown(HttpFailure { status: 403, body: b"denied".to_vec() })),
        networks(&["never"], None),
    ]);
    work(Region::EuWest3, listing, &mut lookups, &mut messages);

    let summary = sum_up(vec![Region::EuWest3], messages);
    assert_eq!(summary.partition_failures.len(), 1);
    assert_eq!(summary.partition_failures[0].region, Region::EuWest3);
    match &summary.partition_failures[0].error {
        CarrotError::DescribeVpcsFailed(text) => assert_eq!(text, "denied"),
        _ => panic!("a failed listing"),
    }
    assert!(summary.resource_failures.is_empty());
    assert_eq!(ids(summary.report.unknowns()), vec!["a".to_string()]);
    assert_eq!(summary.report.knowns().len(), 1);
    assert_eq!(ids(summary.report.knowns()[0].records()), vec!["b".to_string()]);
}

#[test]
fn a_task_reports_once() {
    let mut worker = PartitionWorker::new(Region::UsEast2);
    assert_eq!(worker.region(), Region::UsEast2);
    assert!(!worker.is_done());
    assert!(matches!(worker.poll(), WorkerAction::List(_)));
    assert!(worker.is_listing_in_flight());
    assert!(matches!(worker.poll(), WorkerAction::Pending));
    assert!(worker.on_listing(networks(&["x", "y", "x"], None)).is_none());
    for expected in ["x", "y", "x"] {
        match worker.poll() {
            WorkerAction::Spawn { vpc_id } => assert_eq!(vpc_id, expected),
            _ => panic!("each network gets a task"),
        }
    }
    assert_eq!(worker.outstanding(), 3);
    assert!(matches!(worker.poll(), WorkerAction::Pending));
    assert!(!worker.is_done());

    let stray = worker.on_resolved("z".to_string(), Ok(created("z", Region::UsEast2, None)));
    assert!(stray.is_none());
    assert_eq!(worker.outstanding(), 3);

    let first = worker.on_resolved("y".to_string(), Ok(created("y", Region::UsEast2, Some("u"))));
    assert!(matches!(first, Some(Message::Record(_))));
    assert_eq!(worker.outstanding(), 2);
    let again = worker.on_resolved("y".to_string(), Ok(created("y", Region::UsEast2, Some("u"))));
    assert!(again.is_none());
    assert_eq!(worker.outstanding(), 2);

    let failed = worker.on_resolved("x".to_string(), Err(LookupEventsError::Other("boom".to_string())));
    match failed {
        Some(Message::ResourceFailed { vpc_id, region, error }) => {
            assert_eq!(vpc_id, "x");
            assert_eq!(region, Region::UsEast2);
            assert_eq!(error.message().as_str(), "boom");
        }
        _ => panic!("the failure is passed on"),
    }
    assert!(matches!(worker.poll(), WorkerAction::Pending));
    assert!(worker.on_resolved("x".to_string(), Ok(created("x", Region::UsEast2, None))).is_some());
    assert!(worker.on_resolved("x".to_string(), Ok(created("x", Region::UsEast2, None))).is_none());
    assert!(worker.is_done());
    assert!(matches!(worker.poll(), WorkerAction::Done));
}

#[test]
fn a_throttled_listing_waits_and_is_repeated() {
    let mut worker = PartitionWorker::new(Region::ApNortheast2);
    assert!(matches!(worker.poll(), WorkerAction::List(_)));
    assert!(worker.on_listing(Err(DescribeVpcsError::Unknown(limit()))).is_none());
    assert!(worker.is_listing_throttled());
    assert!(matches!(worker.poll(), WorkerAction::Wait { millis: 100 }));
    worker.on_delay_elapsed();
    match worker.poll() {
        WorkerAction::List(request) => {
            assert_eq!(request.dry_run, Some(false));
            assert_eq!(request.next_token, None);
        }
        _ => panic!("the listing is repeated"),
    }
    assert!(worker.on_listing(networks(&[], None)).is_none());
    assert!(matches!(worker.poll(), WorkerAction::Done));
}

#[test]
fn the_aggregator_waits_for_every_region() {
    let mut aggregator = Aggregator::new(vec![Region::UsEast1, Region::UsEast1, Region::EuWest1]);
    assert!(!aggregator.is_complete());
    assert!(!aggregator.on_partition_done(Region::SaEast1));
    assert!(aggregator.on_partition_done(Region::UsEast1));
    aggregator.on_message(Message::Record(created("v", Region::UsEast1, None)));
    let mut aggregator = match aggregator.finish() {
        Ok(_) => panic!("two workers are still awaited"),
        Err(aggregator) => aggregator,
    };
    assert_eq!(aggregator.record_count(), 1);
    assert!(aggregator.on_partition_done(Region::EuWest1));
    assert!(aggregator.on_partition_done(Region::UsEast1));
    assert!(!aggregator.on_partition_done(Region::UsEast1));
    assert!(aggregator.is_complete());
    let summary = match aggregator.finish() {
        Ok(summary) => summary,
        Err(_) => panic!("every worker has finished"),
    };
    assert_eq!(ids(summary.report.unknowns()), vec!["v".to_string()]);
}

#[test]
fn a_run_over_no_region_is_complete_at_once() {
    let aggregator = Aggregator::new(Vec::new());
    assert!(aggregator.is_complete());
    let summary = match aggregator.finish() {
        Ok(summary) => summary,
        Err(_) => panic!("no worker is awaited"),
    };
    assert!(summary.report.knowns().is_empty());
    assert!(summary.report.unknowns().is_empty());
}

#[test]
fn the_channel_holds_a_hundred_messages() {
    assert_eq!(DEFAULT_CHANNEL_CAPACITY, 100);
}

#[test]
fn records_are_grouped_by_creator_in_the_order_of_arrival() {
    let r = Region::EuCentral1;
    let report = Report::from_records(vec![
        created("v1", r, Some("bob")),
        created("v2", r, None),
        created("v3", r, Some("amy")),
        created("v4", r, Some("bob")),
        created("v5", r, None),
        created("v6", r, Some("amy")),
        created("v7", r, Some("bob")),
    ]);
    assert_eq!(report.knowns().len(), 2);
    assert_eq!(report.knowns()[0].creator(), "bob");
    assert_eq!(
        ids(report.knowns()[0].records()),
        vec!["v1".to_string(), "v4".to_string(), "v7".to_string()]
    );
    assert_eq!(report.knowns()[1].creator(), "amy");
    assert_eq!(ids(report.knowns()[1].records()), vec!["v3".to_string(), "v6".to_string()]);
    assert_eq!(ids(report.unknowns()), vec!["v2".to_string(), "v5".to_string()]);
}

#[test]
fn a_report_of_nothing_is_empty() {
    let report = Report::from_records(Vec::new());
    assert!(report.knowns().is_empty());
    assert!(report.unknowns().is_empty());
}
