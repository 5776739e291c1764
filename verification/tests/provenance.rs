use carrot::errors::{HttpFailure, LookupEventsError};
use carrot::paged::Page;
use carrot::region::Region;
use carrot::resolver::{Resolver, ResolverAction};
use carrot::vpc_info::{is_creation_event, Event, VpcInfo};

fn log_entry(name: Option<&str>, user: Option<&str>, time: Option<i64>) -> Event {
    Event {
        event_name: name.map(|n| n.to_string()),
        username: user.map(|u| u.to_string()),
        event_time: time,
        cloud_trail_event: None,
    }
}

fn unrelated(name: &str) -> Event {
    log_entry(Some(name), Some("someone"), Some(5))
}

#[test]
fn a_creation_is_told_by_its_exact_name() {
    assert!(is_creation_event(&log_entry(Some("CreateVpc"), None, None)));
    assert!(!is_creation_event(&log_entry(Some("CreateVpcEndpoint"), None, None)));
    assert!(!is_creation_event(&log_entry(Some("createvpc"), None, None)));
    assert!(!is_creation_event(&log_entry(Some("DeleteVpc"), None, None)));
    assert!(!is_creation_event(&log_entry(None, Some("alice"), Some(1))));
}

#[test]
fn a_log_without_a_creation_gives_an_unknown_record() {
    let events = vec![unrelated("DescribeVpcs"), unrelated("DeleteSubnet"), log_entry(None, None, None)];
    let info = VpcInfo::from_events("vpc-1".to_string(), Region::EuWest1, events);
    assert_eq!(info.vpc_id().as_str(), "vpc-1");
    assert_eq!(info.region(), Region::EuWest1);
    assert_eq!(info.creation_time(), None);
    assert_eq!(info.created_by(), None);
}

#[test]
fn an_empty_log_gives_an_unknown_record() {
    let info = VpcInfo::from_events("vpc-1".to_string(), Region::EuWest1, Vec::new());
    assert_eq!(info.creation_time(), None);
    assert_eq!(info.created_by(), None);
}

#[test]
fn the_single_creation_decides_wherever_it_stands() {
    for at in 0..4 {
        let mut events = vec![unrelated("A"), unrelated("B"), unrelated("C")];
        events.insert(at, log_entry(Some("CreateVpc"), Some("alice"), Some(1_500_000_000)));
        let info = VpcInfo::from_events("vpc-7".to_string(), Region::UsWest2, events);
        assert_eq!(info.created_by().map(|s| s.as_str()), Some("alice"));
        assert_eq!(info.creation_time(), Some(1_500_000_000));
    }
}

#[test]
fn the_first_of_several_creations_decides() {
    let events = vec![
        unrelated("A"),
        log_entry(Some("CreateVpc"), Some("first"), Some(10)),
        log_entry(Some("CreateVpc"), Some("second"), Some(20)),
    ];
    let info = VpcInfo::from_events("vpc-7".to_string(), Region::UsWest2, events);
    assert_eq!(info.created_by().map(|s| s.as_str()), Some("first"));
    assert_eq!(info.creation_time(), Some(10));
}

#[test]
fn a_creation_without_actor_is_not_overridden_by_a_later_one() {
    let events = vec![
        log_entry(Some("CreateVpc"), None, None),
        log_entry(Some("CreateVpc"), Some("late"), Some(20)),
    ];
    let info = VpcInfo::from_events("vpc-7".to_string(), Region::UsWest2, events);
    assert_eq!(info.created_by(), None);
    assert_eq!(info.creation_time(), None);
}

#[test]
fn a_new_record_knows_nothing() {
    let info = VpcInfo::new("vpc-0".to_string(), Region::SaEast1);
    assert_eq!(info.vpc_id().as_str(), "vpc-0");
    assert_eq!(info.region(), Region::SaEast1);
    assert_eq!(info.creation_time(), None);
    assert_eq!(info.created_by(), None);
}

#[test]
fn a_record_is_shown_with_its_time_as_date() {
    let events = vec![log_entry(Some("CreateVpc"), Some("alice"), Some(100))];
    let info = VpcInfo::from_events("vpc-1".to_string(), Region::UsEast1, events);
    assert_eq!(
        info.describe(),
        Some("vpc: vpc-1 (UsEast1), created by alice on 1970-01-01 00:01:40".to_string())
    );
    let events = vec![log_entry(Some("CreateVpc"), Some("bob"), Some(1_431_648_000))];
    let info = VpcInfo::from_events("vpc-2".to_string(), Region::ApSouth1, events);
    assert_eq!(
        info.describe(),
        Some("vpc: vpc-2 (ApSouth1), created by bob on 2015-05-15 00:00:00".to_string())
    );
}

#[test]
fn an_unknown_record_is_shown_as_unknown() {
    let info = VpcInfo::new("vpc-3".to_string(), Region::EuCentral1);
    assert_eq!(
        info.describe(),
        Some("vpc: vpc-3 (EuCentral1), created by Unknown on Unknown".to_string())
    );
}

#[test]
fn a_time_before_1970_is_shown() {
    let events = vec![log_entry(Some("CreateVpc"), None, Some(-1))];
    let info = VpcInfo::from_events("vpc-4".to_string(), Region::EuWest3, events);
    assert_eq!(
        info.describe(),
        Some("vpc: vpc-4 (EuWest3), created by Unknown on 1969-12-31 23:59:59".to_string())
    );
}

#[test]
fn a_time_out_of_the_calendar_cannot_be_shown() {
    for secs in [i64::MAX, i64::MIN] {
        let events = vec![log_entry(Some("CreateVpc"), Some("alice"), Some(secs))];
        let info = VpcInfo::from_events("vpc-5".to_string(), Region::UsEast2, events);
        assert_eq!(info.creation_time(), Some(secs));
        assert_eq!(info.describe(), None);
    }
}

#[test]
fn render_puts_the_given_time_at_the_end() {
    let events = vec![log_entry(Some("CreateVpc"), Some("carol"), Some(0))];
    let info = VpcInfo::from_events("vpc-6".to_string(), Region::CaCentral1, events);
    assert_eq!(info.render("noon"), "vpc: vpc-6 (CaCentral1), created by carol on noon");
}

fn page(events: Vec<Event>, next: Option<&str>) -> Page<Event> {
    Page { items: events, next_token: next.map(|t| t.to_string()) }
}

#[test]
fn the_resolver_reads_every_page_before_it_makes_the_record() {
    let mut resolver = Resolver::new("vpc-r".to_string(), Region::EuWest2);
    assert_eq!(resolver.vpc_id().as_str(), "vpc-r");
    assert_eq!(resolver.region(), Region::EuWest2);
    match resolver.poll() {
        ResolverAction::Request(request) => assert_eq!(request.next_token, None),
        _ => panic!("the first page is asked for"),
    }
    assert!(resolver.is_in_flight());
    assert!(matches!(resolver.poll(), ResolverAction::Pending));
    let first = page(
        vec![unrelated("A"), log_entry(Some("CreateVpc"), Some("dora"), Some(200))],
        Some("more"),
    );
    assert!(resolver.on_response(Ok(first)).is_none());
    match resolver.poll() {
        ResolverAction::Request(request) => {
            assert_eq!(request.next_token, Some("more".to_string()))
        }
        _ => panic!("the second page is asked for although the creation was seen"),
    }
    let second = page(vec![log_entry(Some("CreateVpc"), Some("late"), Some(300))], None);
    assert!(resolver.on_response(Ok(second)).is_none());
    match resolver.poll() {
        ResolverAction::Resolved(info) => {
            assert_eq!(info.vpc_id().as_str(), "vpc-r");
            assert_eq!(info.region(), Region::EuWest2);
            assert_eq!(info.created_by().map(|s| s.as_str()), Some("dora"));
            assert_eq!(info.creation_time(), Some(200));
        }
        _ => panic!("the record is made after the last page"),
    }
    assert!(resolver.is_over());
}

#[test]
fn the_resolver_finds_a_creation_on_a_later_page() {
    let mut resolver = Resolver::new("vpc-r".to_string(), Region::EuWest2);
    assert!(matches!(resolver.poll(), ResolverAction::Request(_)));
    assert!(resolver.on_response(Ok(page(vec![unrelated("A")], Some("2")))).is_none());
    assert!(matches!(resolver.poll(), ResolverAction::Request(_)));
    assert!(resolver.on_response(Ok(page(vec![], Some("3")))).is_none());
    assert!(matches!(resolver.poll(), ResolverAction::Request(_)));
    let last = page(vec![unrelated("B"), log_entry(Some("CreateVpc"), Some("eve"), Some(9))], None);
    assert!(resolver.on_response(Ok(last)).is_none());
    match resolver.poll() {
        ResolverAction::Resolved(info) => {
            assert_eq!(info.created_by().map(|s| s.as_str()), Some("eve"));
            assert_eq!(info.creation_time(), Some(9));
        }
        _ => panic!("the record is made after the last page"),
    }
}

#[test]
fn the_resolver_repeats_a_throttled_request_and_loses_no_event() {
    let mut resolver = Resolver::new("vpc-r".to_string(), Region::EuWest2);
    assert!(matches!(resolver.poll(), ResolverAction::Request(_)));
    let first = page(vec![log_entry(Some("CreateVpc"), Some("fay"), Some(1))], Some("t"));
    assert!(resolver.on_response(Ok(first)).is_none());
    assert!(matches!(resolver.poll(), ResolverAction::Request(_)));
    let limit = LookupEventsError::Unknown(HttpFailure {
        status: 400,
        body: b"{\"__type\":\"ThrottlingException\"}".to_vec(),
    });
    assert!(resolver.on_response(Err(limit)).is_none());
    assert!(resolver.is_throttled());
    assert!(matches!(resolver.poll(), ResolverAction::Wait { millis: 100 }));
    resolver.on_delay_elapsed();
    match resolver.poll() {
        ResolverAction::Request(request) => assert_eq!(request.next_token, Some("t".to_string())),
        _ => panic!("the request is repeated with its token"),
    }
    assert!(resolver.on_response(Ok(page(vec![], None))).is_none());
    match resolver.poll() {
        ResolverAction::Resolved(info) => {
            assert_eq!(info.created_by().map(|s| s.as_str()), Some("fay"))
        }
        _ => panic!("the record is made after the last page"),
    }
}

#[test]
fn the_resolver_gives_up_on_a_failure_that_is_no_rate_limit() {
    let mut resolver = Resolver::new("vpc-r".to_string(), Region::EuWest2);
    assert!(matches!(resolver.poll(), ResolverAction::Request(_)));
    let denied = LookupEventsError::Unknown(HttpFailure {
        status: 400,
        body: b"{\"__type\":\"AccessDeniedException\"}".to_vec(),
    });
    let failure = resolver.on_response(Err(denied));
    assert!(matches!(failure, Some(LookupEventsError::Unknown(_))));
    assert!(resolver.is_over());
}
