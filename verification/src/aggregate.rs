//! Gathering what the workers of all regions pass on, until every one of them
//! is done, and grouping the records by creator.
//!
//! Records and failures arrive in any order, through a channel of bounded
//! capacity that the driver owns. The aggregator takes each message as it
//! comes and keeps count of the regions whose worker has not finished. When
//! none is left, nothing more can arrive, and the run is summed up.

use crate::errors::{CarrotError, LookupEventsError};
use crate::region::Region;
use crate::report::{records_view, report_of, Report};
use crate::vpc_info::VpcInfo;
use crate::vpc_stream::Vpc;
use crate::worker::{message_of, Message};
use vstd::prelude::*;

verus! {

/// How many messages the channel between the workers and the aggregator
/// holds before a sender has to wait.
pub const DEFAULT_CHANNEL_CAPACITY: usize = 100;

/// A network that could not be resolved.
pub struct ResourceFailure {
    pub vpc_id: String,
    pub region: Region,
    pub error: CarrotError,
}

/// A region that could not be listed to its end.
pub struct PartitionFailure {
    pub region: Region,
    pub error: CarrotError,
}

/// An aggregator as the contracts see it.
pub struct AggregatorView {
    /// The regions whose worker has not finished.
    pub waiting_for: Seq<Region>,
    /// The records, in the order in which they arrived.
    pub records: Seq<VpcInfo>,
    /// The networks that could not be resolved, in the order of arrival.
    pub resource_failures: Seq<ResourceFailure>,
    /// The regions that could not be listed to their end, in the order of
    /// arrival.
    pub partition_failures: Seq<PartitionFailure>,
}

impl AggregatorView {
    /// The aggregator of a run over `partitions`, before anything arrived.
    pub open spec fn start(partitions: Seq<Region>) -> AggregatorView {
        AggregatorView {
            waiting_for: partitions,
            records: Seq::empty(),
            resource_failures: Seq::empty(),
            partition_failures: Seq::empty(),
        }
    }

    /// The aggregator after `message` arrived.
    pub open spec fn on_message(self, message: Message) -> AggregatorView {
        match message {
            Message::Record(info) => AggregatorView { records: self.records.push(info), ..self },
            Message::ResourceFailed { vpc_id, region, error } => AggregatorView {
                resource_failures: self.resource_failures.push(
                    ResourceFailure { vpc_id, region, error },
                ),
                ..self
            },
            Message::PartitionFailed { region, error } => AggregatorView {
                partition_failures: self.partition_failures.push(
                    PartitionFailure { region, error },
                ),
                ..self
            },
        }
    }

    /// The aggregator after `messages` arrived, one after another.
    pub open spec fn collected(self, messages: Seq<Message>) -> AggregatorView
        decreases messages.len(),
    {
        if messages.len() == 0 {
            self
        } else {
            self.collected(messages.drop_last()).on_message(messages.last())
        }
    }

    /// Whether the worker of every region has finished.
    pub open spec fn is_complete(self) -> bool {
        self.waiting_for.len() == 0
    }

    /// Where the first entry for `region` stands among the regions awaited.
    pub open spec fn awaited_at(self, region: Region, at: int) -> bool {
        &&& 0 <= at < self.waiting_for.len()
        &&& self.waiting_for[at] == region
        &&& forall|j: int| 0 <= j < at ==> self.waiting_for[j] != region
    }

    /// How many messages have been taken in.
    pub open spec fn taken(self) -> nat {
        self.records.len() + self.resource_failures.len() + self.partition_failures.len()
    }
}

/// Gathers the messages of a run.
pub struct Aggregator {
    waiting_for: Vec<Region>,
    records: Vec<VpcInfo>,
    resource_failures: Vec<ResourceFailure>,
    partition_failures: Vec<PartitionFailure>,
}

impl View for Aggregator {
    type V = AggregatorView;

    closed spec fn view(&self) -> AggregatorView {
        AggregatorView {
            waiting_for: self.waiting_for@,
            records: self.records@,
            resource_failures: self.resource_failures@,
            partition_failures: self.partition_failures@,
        }
    }
}

/// What a run has found.
pub struct Summary {
    /// The records, grouped by creator.
    pub report: Report,
    /// The networks that could not be resolved.
    pub resource_failures: Vec<ResourceFailure>,
    /// The regions that could not be listed to their end.
    pub partition_failures: Vec<PartitionFailure>,
}

impl Aggregator {
    /// An aggregator that awaits the worker of each of `partitions`.
    pub fn new(partitions: Vec<Region>) -> (aggregator: Aggregator)
        ensures
            aggregator@ == AggregatorView::start(partitions@),
    {
        Aggregator {
            waiting_for: partitions,
            records: Vec::new(),
            resource_failures: Vec::new(),
            partition_failures: Vec::new(),
        }
    }

    /// Takes in a message: a record joins the records, a failure joins the
    /// failures of its kind. Nothing else changes.
    pub fn on_message(&mut self, message: Message)
        ensures
            final(self)@ == old(self)@.on_message(message),
    {
        match message {
            Message::Record(info) => {
                self.records.push(info);
            },
            Message::ResourceFailed { vpc_id, region, error } => {
                self.resource_failures.push(ResourceFailure { vpc_id, region, error });
            },
            Message::PartitionFailed { region, error } => {
                self.partition_failures.push(PartitionFailure { region, error });
            },
        }
    }

    /// Reports that the worker of `region` has finished: its listing is
    /// over and each of its tasks has reported. Says whether such a worker
    /// was awaited; if none was, nothing changes.
    pub fn on_partition_done(&mut self, region: Region) -> (awaited: bool)
        ensures
            awaited ==> exists|at: int| #[trigger]
                old(self)@.awaited_at(region, at) && final(self)@ == (AggregatorView {
                    waiting_for: old(self)@.waiting_for.remove(at),
                    ..old(self)@
                }),
            !awaited ==> !old(self)@.waiting_for.contains(region) && final(self)@ == old(self)@,
    {
        let mut at: usize = 0;
        while at < self.waiting_for.len()
            invariant
                *self == *old(self),
                at <= self.waiting_for@.len(),
                forall|j: int| 0 <= j < at ==> self.waiting_for@[j] != region,
            decreases self.waiting_for@.len() - at,
        {
            if self.waiting_for[at] == region {
                self.waiting_for.remove(at);
                assert(old(self)@.awaited_at(region, at as int));
                return true;
            }
            at = at + 1;
        }
        false
    }

    /// Whether the worker of every region has finished, so that no message
    /// can arrive any more.
    pub fn is_complete(&self) -> (r: bool)
        ensures
            r == self@.is_complete(),
    {
        self.waiting_for.len() == 0
    }

    /// How many records have arrived.
    pub fn record_count(&self) -> (n: usize)
        ensures
            n == self@.records.len(),
    {
        self.records.len()
    }

    /// How many failures have arrived, of networks and of regions.
    pub fn failure_count(&self) -> (n: (usize, usize))
        ensures
            n.0 == self@.resource_failures.len(),
            n.1 == self@.partition_failures.len(),
    {
        (self.resource_failures.len(), self.partition_failures.len())
    }

    /// Sums up the run once the worker of every region has finished: the
    /// records grouped by creator, and the failures beside them. While a
    /// worker is awaited the aggregator is handed back as it is.
    pub fn finish(self) -> (summary: Result<Summary, Aggregator>)
        ensures
            match summary {
                Ok(s) => self@.is_complete() && s.report@ == report_of(
                    records_view(self@.records),
                ) && s.resource_failures@ == self@.resource_failures && s.partition_failures@
                    == self@.partition_failures,
                Err(a) => !self@.is_complete() && a == self,
            },
    {
        if self.waiting_for.len() == 0 {
            Ok(
                Summary {
                    report: Report::from_records(self.records),
                    resource_failures: self.resource_failures,
                    partition_failures: self.partition_failures,
                },
            )
        } else {
            Err(self)
        }
    }
}

/// The messages that the worker of `region` passes on when its listing
/// yields `vpcs` and the task of each network ends with the outcome that
/// stands at its place in `outcomes`: one message for each network.
pub open spec fn partition_messages(
    region: Region,
    vpcs: Seq<Vpc>,
    outcomes: Seq<Result<VpcInfo, LookupEventsError>>,
) -> Seq<Message> {
    Seq::new(vpcs.len(), |i: int| message_of(vpcs[i].vpc_id, region, outcomes[i]))
}

/// The messages of all regions, region after region.
pub open spec fn all_messages(partitions: Seq<Seq<Message>>) -> Seq<Message>
    decreases partitions.len(),
{
    if partitions.len() == 0 {
        Seq::empty()
    } else {
        all_messages(partitions.drop_last()) + partitions.last()
    }
}

/// Whether each message of `messages` tells of one network: its record, or
/// its failure.
pub open spec fn tell_of_networks(messages: Seq<Message>) -> bool {
    forall|i: int| 0 <= i < messages.len() ==> !((#[trigger] messages[i]) is PartitionFailed)
}

/// A worker passes on one message for each network, and each tells of that
/// network: the record where the network was resolved, the failure where
/// it was not.
pub proof fn lemma_one_message_per_network(
    region: Region,
    vpcs: Seq<Vpc>,
    outcomes: Seq<Result<VpcInfo, LookupEventsError>>,
)
    ensures
        partition_messages(region, vpcs, outcomes).len() == vpcs.len(),
        tell_of_networks(partition_messages(region, vpcs, outcomes)),
        forall|i: int|
            0 <= i < vpcs.len() ==> ((#[trigger] partition_messages(region, vpcs, outcomes)[i])
                is Record <==> outcomes[i] is Ok),
{
}

/// Every message that arrives is taken in once: as a record or as a failure
/// of its kind.
pub proof fn lemma_every_message_is_taken(start: AggregatorView, messages: Seq<Message>)
    ensures
        start.collected(messages).taken() == start.taken() + messages.len(),
        start.collected(messages).waiting_for == start.waiting_for,
        tell_of_networks(messages) ==> start.collected(messages).partition_failures
            == start.partition_failures,
    decreases messages.len(),
{
    if messages.len() > 0 {
        lemma_every_message_is_taken(start, messages.drop_last());
        if tell_of_networks(messages) {
            assert forall|i: int| 0 <= i < messages.len() - 1 implies !((
            #[trigger] messages.drop_last()[i]) is PartitionFailed) by {
                assert(messages.drop_last()[i] == messages[i]);
            }
            assert(!(messages[messages.len() - 1] is PartitionFailed));
        }
    }
}

/// Whether `message` is a message of one of `partitions`.
pub open spec fn is_message_of(partitions: Seq<Seq<Message>>, message: Message) -> bool {
    exists|p: int, k: int|
        0 <= p < partitions.len() && 0 <= k < partitions[p].len() && #[trigger] partitions[p][k]
            == message
}

/// The messages of regions that each pass on `r` messages are as many as
/// there are regions, times `r`; each of them is a message of one region.
pub proof fn lemma_all_messages(partitions: Seq<Seq<Message>>, r: nat)
    requires
        forall|p: int| 0 <= p < partitions.len() ==> (#[trigger] partitions[p]).len() == r,
    ensures
        all_messages(partitions).len() == partitions.len() * r,
        forall|i: int|
            0 <= i < all_messages(partitions).len() ==> is_message_of(
                partitions,
                #[trigger] all_messages(partitions)[i],
            ),
    decreases partitions.len(),
{
    if partitions.len() > 0 {
        let front = partitions.drop_last();
        let last = partitions.last();
        assert forall|p: int| 0 <= p < front.len() implies (#[trigger] front[p]).len() == r by {
            assert(front[p] == partitions[p]);
        }
        lemma_all_messages(front, r);
        assert(partitions.len() * r == front.len() * r + r) by (nonlinear_arith)
            requires
                partitions.len() == front.len() + 1,
        ;
        let all = all_messages(partitions);
        assert forall|i: int| 0 <= i < all.len() implies is_message_of(
            partitions,
            #[trigger] all[i],
        ) by {
            if i < all_messages(front).len() {
                assert(all[i] == all_messages(front)[i]);
                assert(is_message_of(front, all_messages(front)[i]));
                let (p, k) = choose|p: int, k: int|
                    0 <= p < front.len() && 0 <= k < front[p].len() && #[trigger] front[p][k]
                        == all_messages(front)[i];
                assert(front[p] == partitions[p]);
                assert(partitions[p][k] == all[i]);
            } else {
                let p = partitions.len() - 1;
                let k = i - all_messages(front).len();
                assert(partitions[p][k] == all[i]);
            }
        }
    } else {
        assert(partitions.len() * r == 0) by (nonlinear_arith)
            requires
                partitions.len() == 0,
        ;
    }
}

/// A run over regions with `r` networks each, in which every network is
/// resolved or fails, ends with one record or one failure for each network
/// and none besides, in whatever order the messages of the regions arrive.
pub proof fn lemma_one_outcome_per_network(
    partitions: Seq<Region>,
    messages: Seq<Seq<Message>>,
    r: nat,
    arrived: Seq<Message>,
)
    requires
        messages.len() == partitions.len(),
        forall|p: int| 0 <= p < messages.len() ==> (#[trigger] messages[p]).len() == r,
        forall|p: int| 0 <= p < messages.len() ==> tell_of_networks(#[trigger] messages[p]),
        arrived.to_multiset() == all_messages(messages).to_multiset(),
    ensures
        ({
            let end = AggregatorView::start(partitions).collected(arrived);
            &&& end.records.len() + end.resource_failures.len() == partitions.len() * r
            &&& end.partition_failures.len() == 0
        }),
{
    let all = all_messages(messages);
    let start = AggregatorView::start(partitions);
    lemma_all_messages(messages, r);
    arrived.to_multiset_ensures();
    all.to_multiset_ensures();
    assert(arrived.len() == all.len());
    assert forall|i: int| 0 <= i < arrived.len() implies !((#[trigger] arrived[i])
        is PartitionFailed) by {
        assert(arrived.contains(arrived[i]));
        assert(arrived.to_multiset().count(arrived[i]) > 0);
        assert(all.to_multiset().count(arrived[i]) > 0);
        assert(all.contains(arrived[i]));
        let at = choose|at: int| 0 <= at < all.len() && all[at] == arrived[i];
        assert(is_message_of(messages, all[at]));
        let (p, k) = choose|p: int, k: int|
            0 <= p < messages.len() && 0 <= k < messages[p].len() && #[trigger] messages[p][k]
                == all[at];
        assert(tell_of_networks(messages[p]));
    }
    lemma_every_message_is_taken(start, arrived);
}

} // verus!
