//! The networks of one region, page by page.

use crate::errors::DescribeVpcsError;
use crate::paged::{
    Action, Page, PagedSource, Poll, PollView, SourceView,
    DEFAULT_RETRY_DELAY_MILLIS,
};
use crate::text::opt_text;
use crate::throttle::IsThrottle;
use vstd::prelude::*;

verus! {

/// A network, as the listing of a region names it.
pub struct Vpc {
    pub vpc_id: String,
}

/// A request for one page of the networks of a region.
pub struct DescribeVpcsRequest {
    /// Whether the remote is only to say if the request would be allowed.
    pub dry_run: Option<bool>,
    /// The token that the page before gave.
    pub next_token: Option<String>,
}

/// A [`DescribeVpcsRequest`] as the contracts see it.
pub struct DescribeVpcsRequestView {
    pub dry_run: Option<bool>,
    pub next_token: Option<Seq<char>>,
}

impl View for DescribeVpcsRequest {
    type V = DescribeVpcsRequestView;

    open spec fn view(&self) -> DescribeVpcsRequestView {
        DescribeVpcsRequestView {
            dry_run: self.dry_run,
            next_token: opt_text(self.next_token),
        }
    }
}

/// The request for the page `token` of all networks of a region: a real
/// listing, not a dry run.
pub open spec fn spec_all_vpcs_request(token: Option<Seq<char>>) -> DescribeVpcsRequestView {
    DescribeVpcsRequestView { dry_run: Some(false), next_token: token }
}

/// The request for the page `token` of all networks of a region.
pub fn all_vpcs_request(token: Option<String>) -> (request: DescribeVpcsRequest)
    ensures
        request@ == spec_all_vpcs_request(opt_text(token)),
{
    DescribeVpcsRequest { dry_run: Some(false), next_token: token }
}

/// The networks of one region as a sequence: read page by page, with a
/// throttled request repeated after a delay.
pub struct VpcStream {
    source: PagedSource<Vpc>,
}

impl View for VpcStream {
    type V = SourceView<Vpc>;

    closed spec fn view(&self) -> SourceView<Vpc> {
        self.source@
    }
}

/// Whether `action` is what `poll` asks for, for the networks of a region.
pub open spec fn asks_for(action: Action<Vpc, DescribeVpcsRequest>, poll: PollView<Vpc>) -> bool {
    match poll {
        PollView::Item(vpc) => action == Action::<Vpc, DescribeVpcsRequest>::Item(vpc),
        PollView::Fetch { token } => action matches Action::Request(request) && request@
            == spec_all_vpcs_request(token),
        PollView::Wait { millis } => action == (Action::<Vpc, DescribeVpcsRequest>::Wait {
            millis,
        }),
        PollView::Pending => action is Pending,
        PollView::End => action is End,
    }
}

impl VpcStream {
    /// All networks of a region. Nothing has been asked for yet.
    pub fn all() -> (stream: VpcStream)
        ensures
            stream@ == SourceView::<Vpc>::start(DEFAULT_RETRY_DELAY_MILLIS),
    {
        VpcStream { source: PagedSource::new(DEFAULT_RETRY_DELAY_MILLIS) }
    }

    /// Whether the sequence has ended or failed.
    pub fn is_exhausted(&self) -> (r: bool)
        ensures
            r == (self@.phase is Exhausted),
    {
        self.source.is_exhausted()
    }

    /// Whether a request is outstanding.
    pub fn is_in_flight(&self) -> (r: bool)
        ensures
            r == (self@.phase is InFlight),
    {
        self.source.is_in_flight()
    }

    /// Whether a throttled request waits to be repeated.
    pub fn is_throttled(&self) -> (r: bool)
        ensures
            r == (self@.phase is Throttled),
    {
        self.source.is_throttled()
    }

    /// Asks for the next thing to do: hand out a network, send a request for
    /// the next page, wait before a throttled request is repeated, or stop.
    /// A stream that has ended or failed must not be polled again.
    pub fn poll(&mut self) -> (action: Action<Vpc, DescribeVpcsRequest>)
        requires
            !(old(self)@.phase is Exhausted),
        ensures
            final(self)@ == old(self)@.poll().0,
            asks_for(action, old(self)@.poll().1),
    {
        match self.source.poll() {
            Poll::Item(vpc) => Action::Item(vpc),
            Poll::Fetch { token } => Action::Request(all_vpcs_request(token)),
            Poll::Wait { millis } => Action::Wait { millis },
            Poll::Pending => Action::Pending,
            Poll::End => Action::End,
        }
    }

    /// Reports the outcome of the outstanding request. A page is taken in. A
    /// rate limit makes the request wait to be repeated. Any other failure
    /// ends the sequence, and is handed back for the caller to pass on.
    pub fn on_response(&mut self, response: Result<Page<Vpc>, DescribeVpcsError>) -> (failure:
        Option<DescribeVpcsError>)
        requires
            old(self)@.phase is InFlight,
        ensures
            match response {
                Ok(page) => final(self)@ == old(self)@.on_page(page@) && failure is None,
                Err(e) => if e.spec_is_throttle() {
                    final(self)@ == old(self)@.on_throttled() && failure is None
                } else {
                    final(self)@ == old(self)@.on_fatal() && failure == Some(e)
                },
            },
    {
        match response {
            Ok(page) => {
                self.source.on_page(page);
                None
            },
            Err(e) => {
                if e.is_throttle() {
                    self.source.on_throttled();
                    None
                } else {
                    self.source.on_fatal();
                    Some(e)
                }
            },
        }
    }

    /// Reports that the delay of a throttled request has elapsed.
    pub fn on_delay_elapsed(&mut self)
        requires
            old(self)@.phase is Throttled,
        ensures
            final(self)@ == old(self)@.on_delay_elapsed(),
    {
        self.source.on_delay_elapsed();
    }
}

} // verus!
