//! The audit events of one network, page by page.

use crate::errors::LookupEventsError;
use crate::paged::{
    Action, Page, PagedSource, Poll, PollView, SourceView,
    DEFAULT_RETRY_DELAY_MILLIS,
};
use crate::text::opt_text;
use crate::throttle::IsThrottle;
use crate::vpc_info::Event;
use vstd::prelude::*;

verus! {

/// A key and a value by which events are picked.
pub struct LookupAttribute {
    pub attribute_key: String,
    pub attribute_value: String,
}

/// A request for one page of events.
pub struct LookupEventsRequest {
    /// Only events that have these attributes are asked for.
    pub lookup_attributes: Option<Vec<LookupAttribute>>,
    /// The most events that the page may hold, where the request sets a limit.
    pub max_results: Option<i64>,
    /// The token that the page before gave.
    pub next_token: Option<String>,
}

/// A [`LookupEventsRequest`] as the contracts see it.
pub struct LookupEventsRequestView {
    pub lookup_attributes: Option<Seq<(Seq<char>, Seq<char>)>>,
    pub max_results: Option<i64>,
    pub next_token: Option<Seq<char>>,
}

impl View for LookupEventsRequest {
    type V = LookupEventsRequestView;

    open spec fn view(&self) -> LookupEventsRequestView {
        LookupEventsRequestView {
            lookup_attributes: match self.lookup_attributes {
                Some(attributes) => Some(
                    Seq::new(
                        attributes@.len(),
                        |i: int| (attributes@[i].attribute_key@, attributes@[i].attribute_value@),
                    ),
                ),
                None => None,
            },
            max_results: self.max_results,
            next_token: opt_text(self.next_token),
        }
    }
}

/// The request for the page `token` of the events of the network `vpc_id`:
/// the events whose resource name is `vpc_id`, with no limit of its own.
pub open spec fn spec_vpc_events_request(vpc_id: Seq<char>, token: Option<Seq<char>>)
    -> LookupEventsRequestView {
    LookupEventsRequestView {
        lookup_attributes: Some(seq![("ResourceName"@, vpc_id)]),
        max_results: None,
        next_token: token,
    }
}

/// The request for the page `token` of the events of the network `vpc_id`.
pub fn vpc_events_request(vpc_id: String, token: Option<String>) -> (request:
    LookupEventsRequest)
    ensures
        request@ == spec_vpc_events_request(vpc_id@, opt_text(token)),
{
    let attrs = vec![
        LookupAttribute { attribute_key: "ResourceName".to_owned(), attribute_value: vpc_id },
    ];
    let request = LookupEventsRequest {
        lookup_attributes: Some(attrs),
        max_results: None,
        next_token: token,
    };
    assert(request@.lookup_attributes->0 =~= seq![("ResourceName"@, vpc_id@)]);
    request
}

/// The events of one network as a sequence: read page by page, with a
/// throttled request repeated after a delay.
pub struct EventStream {
    source: PagedSource<Event>,
    vpc_id: String,
}

/// An [`EventStream`] as the contracts see it.
pub struct EventStreamView {
    pub vpc_id: Seq<char>,
    pub source: SourceView<Event>,
}

impl View for EventStream {
    type V = EventStreamView;

    closed spec fn view(&self) -> EventStreamView {
        EventStreamView { vpc_id: self.vpc_id@, source: self.source@ }
    }
}

/// Whether `action` is what `poll` asks for, for the events of `vpc_id`.
pub open spec fn asks_for(
    action: Action<Event, LookupEventsRequest>,
    poll: PollView<Event>,
    vpc_id: Seq<char>,
) -> bool {
    match poll {
        PollView::Item(event) => action == Action::<Event, LookupEventsRequest>::Item(event),
        PollView::Fetch { token } => action matches Action::Request(request) && request@
            == spec_vpc_events_request(vpc_id, token),
        PollView::Wait { millis } => action == (Action::<Event, LookupEventsRequest>::Wait {
            millis,
        }),
        PollView::Pending => action is Pending,
        PollView::End => action is End,
    }
}

impl EventStream {
    /// All events of the network `vpc_id`. Nothing has been asked for yet.
    pub fn all_per_vpc(vpc_id: String) -> (stream: EventStream)
        ensures
            stream@ == (EventStreamView {
                vpc_id: vpc_id@,
                source: SourceView::<Event>::start(DEFAULT_RETRY_DELAY_MILLIS),
            }),
    {
        EventStream { source: PagedSource::new(DEFAULT_RETRY_DELAY_MILLIS), vpc_id }
    }

    /// The network whose events these are.
    pub fn vpc_id(&self) -> (r: &String)
        ensures
            r@ == self@.vpc_id,
    {
        &self.vpc_id
    }

    /// Whether the sequence has ended or failed.
    pub fn is_exhausted(&self) -> (r: bool)
        ensures
            r == (self@.source.phase is Exhausted),
    {
        self.source.is_exhausted()
    }

    /// Whether a request is outstanding.
    pub fn is_in_flight(&self) -> (r: bool)
        ensures
            r == (self@.source.phase is InFlight),
    {
        self.source.is_in_flight()
    }

    /// Whether a throttled request waits to be repeated.
    pub fn is_throttled(&self) -> (r: bool)
        ensures
            r == (self@.source.phase is Throttled),
    {
        self.source.is_throttled()
    }

    /// Asks for the next thing to do: hand out an event, send a request for
    /// the next page, wait before a throttled request is repeated, or stop.
    /// A stream that has ended or failed must not be polled again.
    pub fn poll(&mut self) -> (action: Action<Event, LookupEventsRequest>)
        requires
            !(old(self)@.source.phase is Exhausted),
        ensures
            final(self)@.vpc_id == old(self)@.vpc_id,
            final(self)@.source == old(self)@.source.poll().0,
            asks_for(action, old(self)@.source.poll().1, old(self)@.vpc_id),
    {
        match self.source.poll() {
            Poll::Item(event) => Action::Item(event),
            Poll::Fetch { token } => Action::Request(
                vpc_events_request(self.vpc_id.clone(), token),
            ),
            Poll::Wait { millis } => Action::Wait { millis },
            Poll::Pending => Action::Pending,
            Poll::End => Action::End,
        }
    }

    /// Reports the outcome of the outstanding request. A page is taken in. A
    /// rate limit makes the request wait to be repeated. Any other failure
    /// ends the sequence, and is handed back for the caller to pass on.
    pub fn on_response(&mut self, response: Result<Page<Event>, LookupEventsError>) -> (failure:
        Option<LookupEventsError>)
        requires
            old(self)@.source.phase is InFlight,
        ensures
            final(self)@.vpc_id == old(self)@.vpc_id,
            match response {
                Ok(page) => final(self)@.source == old(self)@.source.on_page(page@)
                    && failure is None,
                Err(e) => if e.spec_is_throttle() {
                    final(self)@.source == old(self)@.source.on_throttled() && failure is None
                } else {
                    final(self)@.source == old(self)@.source.on_fatal() && failure == Some(e)
                },
            },
    {
        match response {
            Ok(page) => {
                self.source.on_page(page);
                None
            },
            Err(e) => {
                if e.is_throttle() {
                    self.source.on_throttled();
                    None
                } else {
                    self.source.on_fatal();
                    Some(e)
                }
            },
        }
    }

    /// Reports that the delay of a throttled request has elapsed.
    pub fn on_delay_elapsed(&mut self)
        requires
            old(self)@.source.phase is Throttled,
        ensures
            final(self)@.vpc_id == old(self)@.vpc_id,
            final(self)@.source == old(self)@.source.on_delay_elapsed(),
    {
        self.source.on_delay_elapsed();
    }
}

} // verus!
