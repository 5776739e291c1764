//! The work on one region: list its networks, have each one resolved, and
//! pass on what comes of it.
//!
//! The worker decides; its driver acts. For every network that the listing
//! yields the driver starts a task of its own that resolves the network, and
//! does not wait for it before it polls again. When a task ends, the driver
//! reports what came of it and is handed the message to pass on. The worker is
//! done once the listing has ended or failed and every task has reported.

use crate::errors::{
    spec_describe_vpcs_failed, spec_lookup_events_failed, CarrotError, DescribeVpcsError,
    LookupEventsError,
};
use crate::paged::{Action, Page, PollView, SourceView};
use crate::region::Region;
use crate::vpc_info::VpcInfo;
use crate::vpc_stream::{spec_all_vpcs_request, DescribeVpcsRequest, Vpc, VpcStream};
use vstd::prelude::*;

verus! {

/// What a worker or one of its tasks has to tell whoever gathers the records.
pub enum Message {
    /// A network was resolved.
    Record(VpcInfo),
    /// A network could not be resolved.
    ResourceFailed { vpc_id: String, region: Region, error: CarrotError },
    /// A region could not be listed to its end.
    PartitionFailed { region: Region, error: CarrotError },
}

/// What the driver of a worker is asked to do.
pub enum WorkerAction {
    /// Send this listing request, then report its outcome.
    List(DescribeVpcsRequest),
    /// Wait this long, then report that the delay has elapsed.
    Wait { millis: u64 },
    /// Start a task that resolves this network, and poll again.
    Spawn { vpc_id: String },
    /// Nothing to do until a request or a task ends.
    Pending,
    /// The listing is over and every task has reported.
    Done,
}

/// A worker as the contracts see it.
pub struct WorkerView {
    pub region: Region,
    /// The listing of the region.
    pub listing: SourceView<Vpc>,
    /// The networks whose tasks have not reported yet, in the order in which
    /// the tasks were started.
    pub in_flight: Seq<Seq<char>>,
    /// How many tasks were started.
    pub spawned: nat,
    /// How many tasks have reported.
    pub reported: nat,
}

impl WorkerView {
    /// Every task that was started has reported or is still awaited.
    pub open spec fn wf(self) -> bool {
        self.spawned == self.reported + self.in_flight.len()
    }

    /// Whether the listing is over and every task has reported.
    pub open spec fn is_done(self) -> bool {
        self.listing.phase is Exhausted && self.in_flight.len() == 0
    }

    /// The worker after a poll.
    pub open spec fn poll(self) -> WorkerView {
        if self.listing.phase is Exhausted {
            self
        } else {
            match self.listing.poll().1 {
                PollView::Item(vpc) => WorkerView {
                    listing: self.listing.poll().0,
                    in_flight: self.in_flight.push(vpc.vpc_id@),
                    spawned: self.spawned + 1,
                    ..self
                },
                _ => WorkerView { listing: self.listing.poll().0, ..self },
            }
        }
    }

    /// Whether `action` is what a poll of the worker asks for.
    pub open spec fn asks_for(self, action: WorkerAction) -> bool {
        if self.listing.phase is Exhausted {
            if self.in_flight.len() == 0 {
                action is Done
            } else {
                action is Pending
            }
        } else {
            match self.listing.poll().1 {
                PollView::Item(vpc) => action matches WorkerAction::Spawn { vpc_id } && vpc_id@
                    == vpc.vpc_id@,
                PollView::Fetch { token } => action matches WorkerAction::List(request)
                    && request@ == spec_all_vpcs_request(token),
                PollView::Wait { millis } => action == (WorkerAction::Wait { millis }),
                PollView::Pending => action is Pending,
                PollView::End => if self.in_flight.len() == 0 {
                    action is Done
                } else {
                    action is Pending
                },
            }
        }
    }

    /// Where the first task for the network `vpc_id` stands among those
    /// awaited.
    pub open spec fn awaited_at(self, vpc_id: Seq<char>, at: int) -> bool {
        &&& 0 <= at < self.in_flight.len()
        &&& self.in_flight[at] == vpc_id
        &&& forall|j: int| 0 <= j < at ==> self.in_flight[j] != vpc_id
    }

    /// The worker after the task that `at` names has reported.
    pub open spec fn on_resolved(self, at: int) -> WorkerView {
        WorkerView {
            in_flight: self.in_flight.remove(at),
            reported: self.reported + 1,
            ..self
        }
    }
}

/// The message that tells what came of resolving the network `vpc_id` of
/// `region`.
pub open spec fn message_of(
    vpc_id: String,
    region: Region,
    outcome: Result<VpcInfo, LookupEventsError>,
) -> Message {
    match outcome {
        Ok(info) => Message::Record(info),
        Err(e) => Message::ResourceFailed { vpc_id, region, error: spec_lookup_events_failed(e) },
    }
}

/// The work on one region.
pub struct PartitionWorker {
    region: Region,
    listing: VpcStream,
    in_flight: Vec<String>,
    spawned: Ghost<nat>,
    reported: Ghost<nat>,
}

/// `ids` as the contracts see them.
pub open spec fn ids_view(ids: Seq<String>) -> Seq<Seq<char>> {
    Seq::new(ids.len(), |i: int| ids[i]@)
}

impl View for PartitionWorker {
    type V = WorkerView;

    closed spec fn view(&self) -> WorkerView {
        WorkerView {
            region: self.region,
            listing: self.listing@,
            in_flight: ids_view(self.in_flight@),
            spawned: self.spawned@,
            reported: self.reported@,
        }
    }
}

/// Where among `ids` the first `id` stands.
fn find_id(ids: &Vec<String>, id: &String) -> (place: Option<usize>)
    ensures
        match place {
            Some(at) => at < ids@.len() && ids@[at as int]@ == id@ && forall|j: int|
                0 <= j < at ==> ids@[j]@ != id@,
            None => forall|j: int| 0 <= j < ids@.len() ==> ids@[j]@ != id@,
        },
{
    let mut at: usize = 0;
    while at < ids.len()
        invariant
            at <= ids@.len(),
            forall|j: int| 0 <= j < at ==> ids@[j]@ != id@,
        decreases ids@.len() - at,
    {
        if ids[at] == *id {
            return Some(at);
        }
        at = at + 1;
    }
    None
}

impl PartitionWorker {
    /// A worker for `region` that has asked for nothing and started nothing.
    pub fn new(region: Region) -> (worker: PartitionWorker)
        ensures
            worker@ == (WorkerView {
                region,
                listing: SourceView::<Vpc>::start(crate::paged::DEFAULT_RETRY_DELAY_MILLIS),
                in_flight: Seq::empty(),
                spawned: 0,
                reported: 0,
            }),
            worker@.wf(),
    {
        let worker = PartitionWorker {
            region,
            listing: VpcStream::all(),
            in_flight: Vec::new(),
            spawned: Ghost(0),
            reported: Ghost(0),
        };
        assert(worker@.in_flight =~= Seq::empty());
        worker
    }

    pub fn region(&self) -> (r: Region)
        ensures
            r == self@.region,
    {
        self.region
    }

    /// How many tasks have not reported yet.
    pub fn outstanding(&self) -> (n: usize)
        ensures
            n == self@.in_flight.len(),
    {
        self.in_flight.len()
    }

    /// Whether a listing request is outstanding.
    pub fn is_listing_in_flight(&self) -> (r: bool)
        ensures
            r == (self@.listing.phase is InFlight),
    {
        self.listing.is_in_flight()
    }

    /// Whether a throttled listing request waits to be repeated.
    pub fn is_listing_throttled(&self) -> (r: bool)
        ensures
            r == (self@.listing.phase is Throttled),
    {
        self.listing.is_throttled()
    }

    /// Whether the listing is over and every task has reported.
    pub fn is_done(&self) -> (r: bool)
        ensures
            r == self@.is_done(),
    {
        self.listing.is_exhausted() && self.in_flight.len() == 0
    }

    /// Asks for the next thing to do. Each network that the listing yields
    /// is to be resolved by a task of its own, which the worker awaits from
    /// then on.
    pub fn poll(&mut self) -> (action: WorkerAction)
        ensures
            final(self)@ == old(self)@.poll(),
            old(self)@.asks_for(action),
            old(self)@.wf() ==> final(self)@.wf(),
    {
        if self.listing.is_exhausted() {
            return if self.in_flight.len() == 0 {
                WorkerAction::Done
            } else {
                WorkerAction::Pending
            };
        }
        let ghost before = self.in_flight@;
        match self.listing.poll() {
            Action::Item(vpc) => {
                let vpc_id = vpc.vpc_id.clone();
                self.in_flight.push(vpc.vpc_id);
                self.spawned = Ghost((self.spawned@ + 1) as nat);
                assert(ids_view(self.in_flight@) =~= ids_view(before).push(vpc_id@));
                WorkerAction::Spawn { vpc_id }
            },
            Action::Request(request) => WorkerAction::List(request),
            Action::Wait { millis } => WorkerAction::Wait { millis },
            Action::Pending => WorkerAction::Pending,
            Action::End => if self.in_flight.len() == 0 {
                WorkerAction::Done
            } else {
                WorkerAction::Pending
            },
        }
    }

    /// Reports the outcome of the outstanding listing request. A failure
    /// that is no rate limit ends the listing: no further network is found,
    /// the tasks that run go on, and the failure is to be passed on.
    pub fn on_listing(&mut self, response: Result<Page<Vpc>, DescribeVpcsError>) -> (notice:
        Option<Message>)
        requires
            old(self)@.listing.phase is InFlight,
        ensures
            old(self)@.wf() ==> final(self)@.wf(),
            final(self)@ == (WorkerView { listing: final(self)@.listing, ..old(self)@ }),
            match response {
                Ok(page) => final(self)@.listing == old(self)@.listing.on_page(page@)
                    && notice is None,
                Err(e) => if crate::throttle::IsThrottle::spec_is_throttle(&e) {
                    final(self)@.listing == old(self)@.listing.on_throttled() && notice is None
                } else {
                    final(self)@.listing == old(self)@.listing.on_fatal() && notice == Some(
                        Message::PartitionFailed {
                            region: old(self)@.region,
                            error: spec_describe_vpcs_failed(e),
                        },
                    )
                },
            },
    {
        match self.listing.on_response(response) {
            Some(e) => Some(
                Message::PartitionFailed {
                    region: self.region,
                    error: CarrotError::from_describe_vpcs(e),
                },
            ),
            None => None,
        }
    }

    /// Reports that the delay of a throttled listing request has elapsed.
    pub fn on_delay_elapsed(&mut self)
        requires
            old(self)@.listing.phase is Throttled,
        ensures
            old(self)@.wf() ==> final(self)@.wf(),
            final(self)@ == (WorkerView {
                listing: old(self)@.listing.on_delay_elapsed(),
                ..old(self)@
            }),
    {
        self.listing.on_delay_elapsed();
    }

    /// Reports what came of the task that resolved the network `vpc_id`,
    /// and hands back the message to pass on: the record, or the failure.
    /// A task reports once: for a network of which no task is awaited
    /// nothing changes and nothing is passed on.
    pub fn on_resolved(&mut self, vpc_id: String, outcome: Result<VpcInfo, LookupEventsError>)
        -> (message: Option<Message>)
        ensures
            old(self)@.wf() ==> final(self)@.wf(),
            match message {
                Some(m) => m == message_of(vpc_id, old(self)@.region, outcome) && exists|at: int|
                    #[trigger] old(self)@.awaited_at(vpc_id@, at) && final(self)@ == old(
                        self,
                    )@.on_resolved(at),
                None => !old(self)@.in_flight.contains(vpc_id@) && final(self)@ == old(self)@,
            },
    {
        let ghost before = self.in_flight@;
        match find_id(&self.in_flight, &vpc_id) {
            Some(at) => {
                self.in_flight.remove(at);
                self.reported = Ghost((self.reported@ + 1) as nat);
                proof {
                    assert(ids_view(self.in_flight@) =~= ids_view(before).remove(at as int));
                    assert(old(self)@.awaited_at(vpc_id@, at as int));
                }
                Some(
                    match outcome {
                        Ok(info) => Message::Record(info),
                        Err(e) => Message::ResourceFailed {
                            vpc_id,
                            region: self.region,
                            error: CarrotError::from_lookup_events(e),
                        },
                    },
                )
            },
            None => {
                proof {
                    if ids_view(before).contains(vpc_id@) {
                        let j = choose|j: int|
                            0 <= j < ids_view(before).len() && ids_view(before)[j] == vpc_id@;
                        assert(before[j]@ != vpc_id@);
                    }
                }
                None
            },
        }
    }
}

/// A worker that is done has heard of every task that it started.
pub proof fn lemma_done_worker_has_heard_of_every_task(worker: WorkerView)
    requires
        worker.wf(),
        worker.is_done(),
    ensures
        worker.reported == worker.spawned,
{
}

/// Polling a worker and reporting to it keep its count of tasks: one more is
/// started with each network that the listing yields, one more has reported
/// with each task that ends, and none is lost.
pub proof fn lemma_worker_keeps_count(worker: WorkerView, at: int)
    requires
        worker.wf(),
    ensures
        worker.poll().wf(),
        worker.poll().reported == worker.reported,
        worker.poll().spawned == worker.spawned + if !(worker.listing.phase is Exhausted)
            && worker.listing.poll().1 is Item {
            1nat
        } else {
            0nat
        },
        0 <= at < worker.in_flight.len() ==> worker.on_resolved(at).wf() && worker.on_resolved(
            at,
        ).spawned == worker.spawned,
{
}

} // verus!
