//! A paged remote listing as a sequence of items.
//!
//! The remote answers one request with one page: some items and, when more
//! pages follow, a token to send with the next request. A request may also be
//! turned away for the moment (throttled) or fail for good.
//!
//! [`PagedSource`] decides what happens next; it performs no request itself.
//! Its driver calls [`PagedSource::poll`], does what the answer asks for, and
//! reports back through the `on_*` methods. At most one request is ever
//! outstanding, and a request that was throttled is repeated with the token
//! it had.

use crate::text::opt_text;
use vstd::prelude::*;

verus! {

/// How long a throttled request waits before it is sent again, unless the
/// source was made with another delay.
pub const DEFAULT_RETRY_DELAY_MILLIS: u64 = 100;

/// One page of a listing: its items in the order received, and the token of
/// the page after it, if there is one.
pub struct Page<T> {
    pub items: Vec<T>,
    pub next_token: Option<String>,
}

/// A page as the contracts see it.
pub struct PageView<T> {
    pub items: Seq<T>,
    pub next_token: Option<Seq<char>>,
}

impl<T> View for Page<T> {
    type V = PageView<T>;

    open spec fn view(&self) -> PageView<T> {
        PageView { items: self.items@, next_token: opt_text(self.next_token) }
    }
}

/// What the driver is asked to do.
pub enum Poll<T> {
    /// The next item of the sequence.
    Item(T),
    /// Send a request with this token, then report its outcome.
    Fetch { token: Option<String> },
    /// Wait this long, then report that the delay has elapsed.
    Wait { millis: u64 },
    /// A request is outstanding: nothing to do until its outcome is known.
    Pending,
    /// The sequence has ended.
    End,
}

/// What the driver of a stream over one endpoint is asked to do: a [`Poll`]
/// whose request is spelled out for that endpoint.
pub enum Action<T, R> {
    /// The next item of the sequence.
    Item(T),
    /// Send this request, then report its outcome.
    Request(R),
    /// Wait this long, then report that the delay has elapsed.
    Wait { millis: u64 },
    /// A request is outstanding: nothing to do until its outcome is known.
    Pending,
    /// The sequence has ended.
    End,
}

/// A [`Poll`] as the contracts see it.
pub enum PollView<T> {
    Item(T),
    Fetch { token: Option<Seq<char>> },
    Wait { millis: u64 },
    Pending,
    End,
}

impl<T> View for Poll<T> {
    type V = PollView<T>;

    open spec fn view(&self) -> PollView<T> {
        match *self {
            Poll::Item(item) => PollView::Item(item),
            Poll::Fetch { token } => PollView::Fetch { token: opt_text(token) },
            Poll::Wait { millis } => PollView::Wait { millis },
            Poll::Pending => PollView::Pending,
            Poll::End => PollView::End,
        }
    }
}

/// Where a source stands.
pub enum Phase<T> {
    /// A request with this token is to be sent.
    Due { token: Option<Seq<char>> },
    /// A request with this token is outstanding.
    InFlight { token: Option<Seq<char>> },
    /// The request with this token was throttled and waits to be repeated.
    Throttled { token: Option<Seq<char>> },
    /// A page has arrived; `items` are those not yet handed out.
    HasPage { items: Seq<T>, next_token: Option<Seq<char>> },
    /// The sequence has ended or failed. Nothing follows.
    Exhausted,
}

/// A source as the contracts see it.
pub struct SourceView<T> {
    pub phase: Phase<T>,
    pub retry_delay_millis: u64,
}

impl<T> SourceView<T> {
    /// The source before its first request.
    pub open spec fn start(retry_delay_millis: u64) -> SourceView<T> {
        SourceView { phase: Phase::Due { token: None }, retry_delay_millis }
    }

    pub open spec fn with_phase(self, phase: Phase<T>) -> SourceView<T> {
        SourceView { phase, retry_delay_millis: self.retry_delay_millis }
    }

    /// The source after a poll, and what the poll asks for.
    pub open spec fn poll(self) -> (SourceView<T>, PollView<T>) {
        match self.phase {
            Phase::Due { token } => (
                self.with_phase(Phase::InFlight { token }),
                PollView::Fetch { token },
            ),
            Phase::InFlight { token } => (self, PollView::Pending),
            Phase::Throttled { token } => (
                self,
                PollView::Wait { millis: self.retry_delay_millis },
            ),
            Phase::HasPage { items, next_token } => if items.len() > 0 {
                (
                    self.with_phase(Phase::HasPage { items: items.drop_first(), next_token }),
                    PollView::Item(items[0]),
                )
            } else if next_token is Some {
                (
                    self.with_phase(Phase::InFlight { token: next_token }),
                    PollView::Fetch { token: next_token },
                )
            } else {
                (self.with_phase(Phase::Exhausted), PollView::End)
            },
            Phase::Exhausted => (self, PollView::End),
        }
    }

    /// The source after the outstanding request was answered with `page`.
    pub open spec fn on_page(self, page: PageView<T>) -> SourceView<T> {
        self.with_phase(Phase::HasPage { items: page.items, next_token: page.next_token })
    }

    /// The source after the outstanding request was throttled.
    pub open spec fn on_throttled(self) -> SourceView<T> {
        match self.phase {
            Phase::InFlight { token } => self.with_phase(Phase::Throttled { token }),
            _ => self,
        }
    }

    /// The source after the outstanding request failed for good.
    pub open spec fn on_fatal(self) -> SourceView<T> {
        self.with_phase(Phase::Exhausted)
    }

    /// The source after the delay of a throttled request has elapsed.
    pub open spec fn on_delay_elapsed(self) -> SourceView<T> {
        match self.phase {
            Phase::Throttled { token } => self.with_phase(Phase::Due { token }),
            _ => self,
        }
    }
}

enum State<T> {
    Due { token: Option<String> },
    InFlight { token: Option<String> },
    Throttled { token: Option<String> },
    /// `stack` holds the items not yet handed out, the next one last.
    HasPage { stack: Vec<T>, next_token: Option<String> },
    Exhausted,
}

impl<T> State<T> {
    spec fn phase(self) -> Phase<T> {
        match self {
            State::Due { token } => Phase::Due { token: opt_text(token) },
            State::InFlight { token } => Phase::InFlight { token: opt_text(token) },
            State::Throttled { token } => Phase::Throttled { token: opt_text(token) },
            State::HasPage { stack, next_token } => Phase::HasPage {
                items: stack@.reverse(),
                next_token: opt_text(next_token),
            },
            State::Exhausted => Phase::Exhausted,
        }
    }
}

/// A paged listing, read page by page and handed out item by item.
pub struct PagedSource<T> {
    state: State<T>,
    retry_delay_millis: u64,
}

impl<T> View for PagedSource<T> {
    type V = SourceView<T>;

    closed spec fn view(&self) -> SourceView<T> {
        SourceView { phase: self.state.phase(), retry_delay_millis: self.retry_delay_millis }
    }
}

/// The items of `items`, last first.
pub(crate) fn reversed<T>(items: Vec<T>) -> (r: Vec<T>)
    ensures
        r@ == items@.reverse(),
{
    let ghost all = items@;
    let mut rest = items;
    let mut r: Vec<T> = Vec::new();
    while rest.len() > 0
        invariant
            rest@.len() + r@.len() == all.len(),
            rest@ == all.subrange(0, rest@.len() as int),
            r@ == all.subrange(rest@.len() as int, all.len() as int).reverse(),
        decreases rest.len(),
    {
        let ghost n = rest@.len() as int;
        let item = rest.pop().unwrap();
        r.push(item);
        assert(r@ =~= all.subrange(n - 1, all.len() as int).reverse());
    }
    assert(r@ =~= all.reverse());
    r
}

/// The token of `token`, a second time.
fn copy_token(token: &Option<String>) -> (r: Option<String>)
    ensures
        r == *token,
{
    match token {
        Some(t) => Some(t.clone()),
        None => None,
    }
}

impl<T> PagedSource<T> {
    /// A source that has sent nothing yet. Its first request carries no token.
    pub fn new(retry_delay_millis: u64) -> (source: PagedSource<T>)
        ensures
            source@ == SourceView::<T>::start(retry_delay_millis),
    {
        PagedSource { state: State::Due { token: None }, retry_delay_millis }
    }

    /// Whether the sequence has ended or failed.
    pub fn is_exhausted(&self) -> (r: bool)
        ensures
            r == (self@.phase is Exhausted),
    {
        match &self.state {
            State::Exhausted => true,
            _ => false,
        }
    }

    /// Whether a request is outstanding.
    pub fn is_in_flight(&self) -> (r: bool)
        ensures
            r == (self@.phase is InFlight),
    {
        match &self.state {
            State::InFlight { .. } => true,
            _ => false,
        }
    }

    /// Whether a throttled request waits to be repeated.
    pub fn is_throttled(&self) -> (r: bool)
        ensures
            r == (self@.phase is Throttled),
    {
        match &self.state {
            State::Throttled { .. } => true,
            _ => false,
        }
    }

    /// Asks for the next thing to do.
    ///
    /// Items of the current page come first, in the order received. When the
    /// page is used up, the next one is requested with the token that the
    /// page gave, and without such a token the sequence ends. A source that
    /// has ended or failed must not be polled again.
    pub fn poll(&mut self) -> (action: Poll<T>)
        requires
            !(old(self)@.phase is Exhausted),
        ensures
            (final(self)@, action@) == old(self)@.poll(),
    {
        let mut state = State::Exhausted;
        core::mem::swap(&mut self.state, &mut state);
        match state {
            State::Due { token } => {
                let sent = copy_token(&token);
                self.state = State::InFlight { token };
                Poll::Fetch { token: sent }
            },
            State::InFlight { token } => {
                self.state = State::InFlight { token };
                Poll::Pending
            },
            State::Throttled { token } => {
                self.state = State::Throttled { token };
                Poll::Wait { millis: self.retry_delay_millis }
            },
            State::HasPage { mut stack, next_token } => {
                let ghost items = stack@.reverse();
                if stack.len() > 0 {
                    let item = stack.pop().unwrap();
                    assert(stack@.reverse() =~= items.drop_first());
                    self.state = State::HasPage { stack, next_token };
                    Poll::Item(item)
                } else {
                    match next_token {
                        Some(t) => {
                            let sent = t.clone();
                            self.state = State::InFlight { token: Some(t) };
                            Poll::Fetch { token: Some(sent) }
                        },
                        None => {
                            self.state = State::Exhausted;
                            Poll::End
                        },
                    }
                }
            },
            State::Exhausted => {
                Poll::End
            },
        }
    }

    /// Reports that the outstanding request was answered with `page`.
    pub fn on_page(&mut self, page: Page<T>)
        requires
            old(self)@.phase is InFlight,
        ensures
            final(self)@ == old(self)@.on_page(page@),
    {
        let Page { items, next_token } = page;
        let stack = reversed(items);
        assert(stack@.reverse() =~= items@);
        self.state = State::HasPage { stack, next_token };
    }

    /// Reports that the outstanding request was throttled. The same request
    /// is due again once the delay has elapsed.
    pub fn on_throttled(&mut self)
        requires
            old(self)@.phase is InFlight,
        ensures
            final(self)@ == old(self)@.on_throttled(),
    {
        let mut state = State::Exhausted;
        core::mem::swap(&mut self.state, &mut state);
        match state {
            State::InFlight { token } => {
                self.state = State::Throttled { token };
            },
            other => {
                self.state = other;
            },
        }
    }

    /// Reports that the outstanding request failed for good. The sequence
    /// ends here.
    pub fn on_fatal(&mut self)
        requires
            old(self)@.phase is InFlight,
        ensures
            final(self)@ == old(self)@.on_fatal(),
    {
        self.state = State::Exhausted;
    }

    /// Reports that the delay of a throttled request has elapsed.
    pub fn on_delay_elapsed(&mut self)
        requires
            old(self)@.phase is Throttled,
        ensures
            final(self)@ == old(self)@.on_delay_elapsed(),
    {
        let mut state = State::Exhausted;
        core::mem::swap(&mut self.state, &mut state);
        match state {
            State::Throttled { token } => {
                self.state = State::Due { token };
            },
            other => {
                self.state = other;
            },
        }
    }
}

/// At most one request is outstanding: a poll asks for a request only while
/// none is outstanding, the request is outstanding from then on, and while it
/// is, a poll asks for nothing and changes nothing.
pub proof fn lemma_one_request_at_a_time<T>(source: SourceView<T>)
    ensures
        source.poll().1 is Fetch ==> !(source.phase is InFlight) && source.poll().0.phase
            == (Phase::<T>::InFlight { token: source.poll().1->Fetch_token }),
        source.phase is InFlight ==> source.poll() == (source, PollView::<T>::Pending),
{
}

/// A source that has ended or failed stays so, whatever is reported to it.
pub proof fn lemma_exhausted_is_final<T>(source: SourceView<T>)
    requires
        source.phase is Exhausted,
    ensures
        source.poll().0 == source,
        source.on_throttled() == source,
        source.on_delay_elapsed() == source,
        source.on_fatal() == source,
{
}

} // verus!
