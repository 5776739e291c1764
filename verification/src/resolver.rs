//! Resolving one network: reading all of its events, then telling who
//! created it and when.
//!
//! Every page of events is read before the record is made: the log promises
//! no order that would put the creation first. A request that fails for good
//! ends the resolution of this network and of no other.

use crate::errors::LookupEventsError;
use crate::events_stream::{spec_vpc_events_request, EventStream, LookupEventsRequest};
use crate::paged::{
    Action, Page, PageView, Phase, PollView, SourceView, DEFAULT_RETRY_DELAY_MILLIS,
};
use crate::region::Region;
use crate::throttle::IsThrottle;
use crate::trace::{all_items, answers, chained, lemma_pages_in_order, run};
use crate::vpc_info::{events_view, resolved, Event, VpcInfo};
use vstd::prelude::*;

verus! {

/// What the driver of a resolver is asked to do.
pub enum ResolverAction {
    /// Send this request, then report its outcome.
    Request(LookupEventsRequest),
    /// Wait this long, then report that the delay has elapsed.
    Wait { millis: u64 },
    /// A request is outstanding: nothing to do until its outcome is known.
    Pending,
    /// Every page has been read: this is the record.
    Resolved(VpcInfo),
}

/// A resolver as the contracts see it.
pub struct ResolverView {
    pub vpc_id: Seq<char>,
    pub region: Region,
    /// The events of the network, as far as they are still to be read.
    pub source: SourceView<Event>,
    /// The events read so far, in the order in which they came.
    pub events: Seq<Event>,
}

/// The events of the page that `source` holds, as far as they were not
/// handed out.
pub open spec fn held(source: SourceView<Event>) -> Seq<Event> {
    match source.phase {
        Phase::HasPage { items, .. } => items,
        _ => Seq::empty(),
    }
}

/// `source` after it has handed out the page that it holds.
pub open spec fn drained(source: SourceView<Event>) -> SourceView<Event> {
    match source.phase {
        Phase::HasPage { items, next_token } => source.with_phase(
            Phase::HasPage { items: Seq::empty(), next_token },
        ),
        _ => source,
    }
}

impl ResolverView {
    /// The resolver after a poll: the events of the page at hand are read,
    /// and then the source is asked what is next. Once the record is made
    /// the events are handed over with it.
    pub open spec fn poll(self) -> ResolverView {
        let next = drained(self.source).poll();
        ResolverView {
            source: next.0,
            events: if next.1 is End {
                Seq::empty()
            } else {
                self.events + held(self.source)
            },
            ..self
        }
    }

    /// Whether `action` is what a poll of the resolver asks for.
    pub open spec fn asks_for(self, action: ResolverAction) -> bool {
        match drained(self.source).poll().1 {
            PollView::Item(_) => false,
            PollView::Fetch { token } => action matches ResolverAction::Request(request)
                && request@ == spec_vpc_events_request(self.vpc_id, token),
            PollView::Wait { millis } => action == (ResolverAction::Wait { millis }),
            PollView::Pending => action is Pending,
            PollView::End => action matches ResolverAction::Resolved(info) && info@ == resolved(
                self.vpc_id,
                self.region,
                events_view(self.events + held(self.source)),
            ),
        }
    }
}

/// Resolves one network.
pub struct Resolver {
    stream: EventStream,
    region: Region,
    events: Vec<Event>,
}

impl View for Resolver {
    type V = ResolverView;

    closed spec fn view(&self) -> ResolverView {
        ResolverView {
            vpc_id: self.stream@.vpc_id,
            region: self.region,
            source: self.stream@.source,
            events: self.events@,
        }
    }
}

impl Resolver {
    /// A resolver for the network `vpc_id` of `region` that has read nothing
    /// yet.
    pub fn new(vpc_id: String, region: Region) -> (resolver: Resolver)
        ensures
            resolver@ == (ResolverView {
                vpc_id: vpc_id@,
                region,
                source: SourceView::<Event>::start(DEFAULT_RETRY_DELAY_MILLIS),
                events: Seq::empty(),
            }),
    {
        Resolver { stream: EventStream::all_per_vpc(vpc_id), region, events: Vec::new() }
    }

    /// The network that is resolved.
    pub fn vpc_id(&self) -> (r: &String)
        ensures
            r@ == self@.vpc_id,
    {
        self.stream.vpc_id()
    }

    pub fn region(&self) -> (r: Region)
        ensures
            r == self@.region,
    {
        self.region
    }

    /// Whether the resolution has ended, with a record or with a failure.
    pub fn is_over(&self) -> (r: bool)
        ensures
            r == (self@.source.phase is Exhausted),
    {
        self.stream.is_exhausted()
    }

    /// Whether a request is outstanding.
    pub fn is_in_flight(&self) -> (r: bool)
        ensures
            r == (self@.source.phase is InFlight),
    {
        self.stream.is_in_flight()
    }

    /// Whether a throttled request waits to be repeated.
    pub fn is_throttled(&self) -> (r: bool)
        ensures
            r == (self@.source.phase is Throttled),
    {
        self.stream.is_throttled()
    }

    /// Asks for the next thing to do. The events of the page at hand are
    /// read first. The record is made when the last page has been read, from
    /// all events in the order in which they came. A resolution that is over
    /// must not be polled again.
    pub fn poll(&mut self) -> (action: ResolverAction)
        requires
            !(old(self)@.source.phase is Exhausted),
        ensures
            final(self)@ == old(self)@.poll(),
            old(self)@.asks_for(action),
    {
        let ghost start = self@;
        loop
            invariant
                start == old(self)@,
                self@.vpc_id == start.vpc_id,
                self@.region == start.region,
                !(self@.source.phase is Exhausted),
                drained(self@.source) == drained(start.source),
                self@.events + held(self@.source) == start.events + held(start.source),
            decreases held(self@.source).len(),
        {
            let ghost before = self@;
            match self.stream.poll() {
                Action::Item(event) => {
                    self.events.push(event);
                    proof {
                        let items = held(before.source);
                        assert(self@.events + items.drop_first() =~= before.events + items);
                    }
                },
                Action::Request(request) => {
                    proof {
                        assert(held(before.source) =~= Seq::<Event>::empty());
                        assert(before.events + held(before.source) =~= before.events);
                        assert(drained(before.source) == before.source);
                        assert(self@ == start.poll());
                    }
                    return ResolverAction::Request(request);
                },
                Action::Wait { millis } => {
                    assert(before.events + held(before.source) =~= before.events);
                    assert(self@ == start.poll());
                    return ResolverAction::Wait { millis };
                },
                Action::Pending => {
                    assert(before.events + held(before.source) =~= before.events);
                    assert(self@ == start.poll());
                    return ResolverAction::Pending;
                },
                Action::End => {
                    proof {
                        assert(held(before.source) =~= Seq::<Event>::empty());
                        assert(before.events + held(before.source) =~= before.events);
                        assert(drained(before.source) == before.source);
                    }
                    let mut events: Vec<Event> = Vec::new();
                    core::mem::swap(&mut self.events, &mut events);
                    let info = VpcInfo::from_events(
                        self.stream.vpc_id().clone(),
                        self.region,
                        events,
                    );
                    return ResolverAction::Resolved(info);
                },
            }
        }
    }

    /// Reports the outcome of the outstanding request. A page is taken in. A
    /// rate limit makes the request wait to be repeated. Any other failure
    /// ends the resolution, and is handed back for the caller to pass on.
    pub fn on_response(&mut self, response: Result<Page<Event>, LookupEventsError>) -> (failure:
        Option<LookupEventsError>)
        requires
            old(self)@.source.phase is InFlight,
        ensures
            final(self)@ == (ResolverView { source: final(self)@.source, ..old(self)@ }),
            match response {
                Ok(page) => final(self)@.source == old(self)@.source.on_page(page@)
                    && failure is None,
                Err(e) => if e.spec_is_throttle() {
                    final(self)@.source == old(self)@.source.on_throttled() && failure is None
                } else {
                    final(self)@.source == old(self)@.source.on_fatal() && failure == Some(e)
                },
            },
    {
        self.stream.on_response(response)
    }

    /// Reports that the delay of a throttled request has elapsed.
    pub fn on_delay_elapsed(&mut self)
        requires
            old(self)@.source.phase is Throttled,
        ensures
            final(self)@ == (ResolverView {
                source: old(self)@.source.on_delay_elapsed(),
                ..old(self)@
            }),
    {
        self.stream.on_delay_elapsed();
    }
}

/// Against a remote that answers the lookups for a network with `pages`, each
/// but the last naming the next, the events that are read are those of all
/// pages in page order, so that the record is the one of that whole log: an
/// event that records the creation counts on whichever page it stands.
pub proof fn lemma_every_page_is_read(
    vpc_id: Seq<char>,
    region: Region,
    retry_delay_millis: u64,
    pages: Seq<PageView<Event>>,
)
    requires
        chained(pages),
    ensures
        run(SourceView::<Event>::start(retry_delay_millis), answers(pages)).items == all_items(
            pages,
        ),
        resolved(
            vpc_id,
            region,
            events_view(run(SourceView::<Event>::start(retry_delay_millis), answers(pages)).items),
        ) == resolved(vpc_id, region, events_view(all_items(pages))),
{
    lemma_pages_in_order(retry_delay_millis, pages);
}

} // verus!
