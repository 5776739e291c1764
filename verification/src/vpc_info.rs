//! What is known of one network: where it is, who created it, and when.
//!
//! The record is read off the events that the audit log holds for the
//! network. The first event that records a creation decides. Without such an
//! event the creator and the time stay unknown.

use crate::region::Region;
use crate::text::opt_text;
use vstd::prelude::*;
use vstd::string::StringExecFns;

verus! {

/// One entry of the audit log.
pub struct Event {
    /// What happened.
    pub event_name: Option<String>,
    /// Who did it.
    pub username: Option<String>,
    /// When, in seconds since the start of 1970.
    pub event_time: Option<i64>,
    /// The entry as the log holds it.
    pub cloud_trail_event: Option<String>,
}

/// An [`Event`] as the contracts see it.
pub struct EventView {
    pub event_name: Option<Seq<char>>,
    pub username: Option<Seq<char>>,
    pub event_time: Option<i64>,
    pub cloud_trail_event: Option<Seq<char>>,
}

impl View for Event {
    type V = EventView;

    open spec fn view(&self) -> EventView {
        EventView {
            event_name: opt_text(self.event_name),
            username: opt_text(self.username),
            event_time: self.event_time,
            cloud_trail_event: opt_text(self.cloud_trail_event),
        }
    }
}

/// `events` as the contracts see them.
pub open spec fn events_view(events: Seq<Event>) -> Seq<EventView> {
    Seq::new(events.len(), |i: int| events[i]@)
}

/// Whether `event` records the creation of a network.
pub open spec fn spec_is_creation(event: EventView) -> bool {
    event.event_name == Some("CreateVpc"@)
}

/// Whether `event` records the creation of a network.
pub fn is_creation_event(event: &Event) -> (r: bool)
    ensures
        r == spec_is_creation(event@),
{
    match &event.event_name {
        Some(name) => {
            let creation = "CreateVpc".to_owned();
            *name == creation
        },
        None => false,
    }
}

/// The first of `events` that records a creation.
pub open spec fn first_creation(events: Seq<EventView>) -> Option<EventView>
    decreases events.len(),
{
    if events.len() == 0 {
        None
    } else {
        match first_creation(events.drop_last()) {
            Some(event) => Some(event),
            None => if spec_is_creation(events.last()) {
                Some(events.last())
            } else {
                None
            },
        }
    }
}

/// A [`VpcInfo`] as the contracts see it.
pub struct VpcInfoView {
    pub vpc_id: Seq<char>,
    pub region: Region,
    pub creation_time: Option<i64>,
    pub created_by: Option<Seq<char>>,
}

/// The record of the network `vpc_id` in `region` whose audit log holds
/// `events`.
pub open spec fn resolved(vpc_id: Seq<char>, region: Region, events: Seq<EventView>)
    -> VpcInfoView {
    match first_creation(events) {
        Some(event) => VpcInfoView {
            vpc_id,
            region,
            creation_time: event.event_time,
            created_by: event.username,
        },
        None => VpcInfoView { vpc_id, region, creation_time: None, created_by: None },
    }
}

/// What is known of one network.
pub struct VpcInfo {
    vpc_id: String,
    region: Region,
    creation_time: Option<i64>,
    created_by: Option<String>,
}

impl View for VpcInfo {
    type V = VpcInfoView;

    closed spec fn view(&self) -> VpcInfoView {
        VpcInfoView {
            vpc_id: self.vpc_id@,
            region: self.region,
            creation_time: self.creation_time,
            created_by: opt_text(self.created_by),
        }
    }
}

#[verifier::external_type_specification]
#[verifier::external_body]
pub struct ExNaiveDateTime(chrono::NaiveDateTime);

/// The date and time, in UTC, that lies `secs` seconds after the start of
/// 1970, if the calendar reaches that far.
pub uninterp spec fn datetime_of_timestamp(secs: i64) -> Option<chrono::NaiveDateTime>;

/// The date and time `t` as text.
pub uninterp spec fn datetime_text(t: chrono::NaiveDateTime) -> Seq<char>;

/// The date and time `secs` seconds after the start of 1970.
///
/// Trusted: calls `chrono::NaiveDateTime::from_timestamp_opt` with no
/// nanoseconds, whose result depends on `secs` alone and which gives `None`
/// for a time that is out of range.
#[verifier::external_body]
#[allow(deprecated)]
fn datetime_from_timestamp(secs: i64) -> (r: Option<chrono::NaiveDateTime>)
    ensures
        r == datetime_of_timestamp(secs),
{
    chrono::NaiveDateTime::from_timestamp_opt(secs, 0)
}

/// A date and time as text.
///
/// Trusted: formats through `Display` of `chrono::NaiveDateTime`, whose
/// result depends on the value alone.
#[verifier::external_body]
fn datetime_to_text(t: &chrono::NaiveDateTime) -> (r: String)
    ensures
        r@ == datetime_text(*t),
{
    t.to_string()
}

/// How the time of creation is shown: as date and time, or as unknown. A
/// time that the calendar does not reach cannot be shown.
pub open spec fn spec_creation_time_text(creation_time: Option<i64>) -> Option<Seq<char>> {
    match creation_time {
        Some(secs) => match datetime_of_timestamp(secs) {
            Some(t) => Some(datetime_text(t)),
            None => None,
        },
        None => Some("Unknown"@),
    }
}

/// How the creator is shown.
pub open spec fn spec_created_by_text(created_by: Option<Seq<char>>) -> Seq<char> {
    match created_by {
        Some(name) => name,
        None => "Unknown"@,
    }
}

/// The line that shows `info`, with `creation_time` for the time of creation.
pub open spec fn spec_render(info: VpcInfoView, creation_time: Seq<char>) -> Seq<char> {
    "vpc: "@ + info.vpc_id + " ("@ + info.region.spec_name() + "), created by "@
        + spec_created_by_text(info.created_by) + " on "@ + creation_time
}

impl VpcInfo {
    /// A record of which neither the creator nor the time is known.
    pub fn new(vpc_id: String, region: Region) -> (info: VpcInfo)
        ensures
            info@ == (VpcInfoView { vpc_id: vpc_id@, region, creation_time: None, created_by: None }),
    {
        VpcInfo { vpc_id, region, creation_time: None, created_by: None }
    }

    /// The record of the network `vpc_id` in `region`, read off the events
    /// of its audit log: creator and time are those of the first event that
    /// records a creation, and unknown if there is none.
    pub fn from_events(vpc_id: String, region: Region, events: Vec<Event>) -> (info: VpcInfo)
        ensures
            info@ == resolved(vpc_id@, region, events_view(events@)),
    {
        let mut info = VpcInfo::new(vpc_id, region);
        let mut found = false;
        let ghost all = events_view(events@);
        let mut i: usize = 0;
        while i < events.len()
            invariant
                i <= events.len(),
                all == events_view(events@),
                found == (first_creation(all.take(i as int)) is Some),
                info@ == resolved(vpc_id@, region, all.take(i as int)),
            decreases events.len() - i,
        {
            let event = &events[i];
            assert(all.take(i + 1).drop_last() =~= all.take(i as int));
            assert(all.take(i + 1).last() == event@);
            if !found && is_creation_event(event) {
                info.created_by = match &event.username {
                    Some(name) => Some(name.clone()),
                    None => None,
                };
                info.creation_time = event.event_time;
                found = true;
            }
            i = i + 1;
        }
        assert(all.take(i as int) =~= all);
        info
    }

    pub fn vpc_id(&self) -> (r: &String)
        ensures
            r@ == self@.vpc_id,
    {
        &self.vpc_id
    }

    pub fn region(&self) -> (r: Region)
        ensures
            r == self@.region,
    {
        self.region
    }

    /// When the network was created, in seconds since the start of 1970.
    pub fn creation_time(&self) -> (r: Option<i64>)
        ensures
            r == self@.creation_time,
    {
        self.creation_time
    }

    /// Who created the network.
    pub fn created_by(&self) -> (r: Option<&String>)
        ensures
            match r {
                Some(name) => self@.created_by == Some(name@),
                None => self@.created_by is None,
            },
    {
        self.created_by.as_ref()
    }

    /// The line that shows the record, with `creation_time` for the time of
    /// creation.
    pub fn render(&self, creation_time: &str) -> (line: String)
        ensures
            line@ == spec_render(self@, creation_time@),
    {
        let mut line = String::from_str("vpc: ");
        line.append(self.vpc_id.as_str());
        line.append(" (");
        line.append(self.region.name());
        line.append("), created by ");
        match &self.created_by {
            Some(name) => line.append(name.as_str()),
            None => line.append("Unknown"),
        }
        line.append(" on ");
        line.append(creation_time);
        line
    }

    /// The line that shows the record, or `None` for a time of creation
    /// that the calendar does not reach.
    pub fn describe(&self) -> (line: Option<String>)
        ensures
            match spec_creation_time_text(self@.creation_time) {
                Some(time) => line matches Some(text) && text@ == spec_render(self@, time),
                None => line is None,
            },
    {
        match self.creation_time {
            Some(secs) => match datetime_from_timestamp(secs) {
                Some(t) => {
                    let time = datetime_to_text(&t);
                    Some(self.render(time.as_str()))
                },
                None => None,
            },
            None => Some(self.render("Unknown")),
        }
    }
}

/// The first creation among `events` is the event before which none records
/// a creation; there is none exactly if no event records one.
pub proof fn lemma_first_creation(events: Seq<EventView>)
    ensures
        match first_creation(events) {
            Some(event) => exists|at: int|
                0 <= at < events.len() && events[at] == event && spec_is_creation(
                    #[trigger] events[at],
                ) && forall|j: int| 0 <= j < at ==> !spec_is_creation(#[trigger] events[j]),
            None => forall|i: int|
                0 <= i < events.len() ==> !spec_is_creation(#[trigger] events[i]),
        },
    decreases events.len(),
{
    if events.len() > 0 {
        let front = events.drop_last();
        lemma_first_creation(front);
        match first_creation(front) {
            Some(event) => {
                let at = choose|at: int|
                    0 <= at < front.len() && front[at] == event && spec_is_creation(
                        #[trigger] front[at],
                    ) && forall|j: int| 0 <= j < at ==> !spec_is_creation(#[trigger] front[j]);
                assert(events[at] == front[at]);
                assert forall|j: int| 0 <= j < at implies !spec_is_creation(
                    #[trigger] events[j],
                ) by {
                    assert(events[j] == front[j]);
                }
            },
            None => {
                assert forall|j: int| 0 <= j < events.len() - 1 implies !spec_is_creation(
                    #[trigger] events[j],
                ) by {
                    assert(events[j] == front[j]);
                }
                if spec_is_creation(events.last()) {
                    let at = events.len() - 1;
                    assert(events[at] == events.last());
                }
            },
        }
    }
}

/// The event that records a creation and has no such event before it decides
/// the record, whatever else the log holds and wherever the event stands.
pub proof fn lemma_first_creation_decides(
    vpc_id: Seq<char>,
    region: Region,
    events: Seq<EventView>,
    at: int,
)
    requires
        0 <= at < events.len(),
        spec_is_creation(events[at]),
        forall|j: int| 0 <= j < at ==> !spec_is_creation(#[trigger] events[j]),
    ensures
        resolved(vpc_id, region, events) == (VpcInfoView {
            vpc_id,
            region,
            creation_time: events[at].event_time,
            created_by: events[at].username,
        }),
{
    lemma_first_creation(events);
    match first_creation(events) {
        Some(event) => {
            let found = choose|found: int|
                0 <= found < events.len() && events[found] == event && spec_is_creation(
                    #[trigger] events[found],
                ) && forall|j: int| 0 <= j < found ==> !spec_is_creation(#[trigger] events[j]);
            if found < at {
                assert(!spec_is_creation(events[found]));
            }
            if at < found {
                assert(!spec_is_creation(events[at]));
            }
        },
        None => {
            assert(!spec_is_creation(events[at]));
        },
    }
}

/// A log without an event that records a creation gives a record of which
/// neither the time nor the creator is known.
pub proof fn lemma_no_creation_event(vpc_id: Seq<char>, region: Region, events: Seq<EventView>)
    requires
        forall|i: int| 0 <= i < events.len() ==> !spec_is_creation(#[trigger] events[i]),
    ensures
        resolved(vpc_id, region, events) == (VpcInfoView {
            vpc_id,
            region,
            creation_time: None,
            created_by: None,
        }),
{
    lemma_first_creation(events);
}

/// A log with exactly one event that records a creation gives that event's
/// time and actor, wherever the event stands among the others.
pub proof fn lemma_single_creation_event(
    vpc_id: Seq<char>,
    region: Region,
    events: Seq<EventView>,
    at: int,
)
    requires
        0 <= at < events.len(),
        forall|i: int| 0 <= i < events.len() ==> (spec_is_creation(#[trigger] events[i]) <==> i == at),
    ensures
        resolved(vpc_id, region, events) == (VpcInfoView {
            vpc_id,
            region,
            creation_time: events[at].event_time,
            created_by: events[at].username,
        }),
{
    lemma_first_creation_decides(vpc_id, region, events, at);
}

} // verus!
