//! What a [`PagedSource`](crate::paged::PagedSource) does against a remote
//! whose answers are known.
//!
//! A script holds the outcomes of the requests in the order in which the
//! remote gives them. [`run`] follows the source through a driver that polls
//! it until the sequence ends, fails, or the script has no answer left. The
//! laws of the source are stated over such runs.

use crate::paged::{PageView, Phase, PollView, SourceView};
use vstd::prelude::*;

verus! {

/// The outcome of one request.
pub enum Outcome<T> {
    /// The remote answered with a page.
    Page(PageView<T>),
    /// The remote turned the request away for the moment.
    Throttled,
    /// The request failed for good.
    Fatal,
}

/// How a run stopped.
pub enum RunEnd {
    /// The last page was used up.
    Finished,
    /// A request failed for good.
    Failed,
    /// A request was sent for which the script has no outcome.
    Starved,
}

/// What a run did.
pub struct Run<T> {
    /// The items handed out, in order.
    pub items: Seq<T>,
    /// The token of every request sent, in order.
    pub fetches: Seq<Option<Seq<char>>>,
    /// How often the driver waited out a retry delay.
    pub waits: nat,
    pub end: RunEnd,
}

impl<T> Run<T> {
    pub open spec fn stopped(end: RunEnd) -> Run<T> {
        Run { items: Seq::empty(), fetches: Seq::empty(), waits: 0, end }
    }

    pub open spec fn after_item(self, item: T) -> Run<T> {
        Run { items: seq![item] + self.items, ..self }
    }

    pub open spec fn after_items(self, items: Seq<T>) -> Run<T> {
        Run { items: items + self.items, ..self }
    }

    pub open spec fn after_fetch(self, token: Option<Seq<char>>) -> Run<T> {
        Run { fetches: seq![token] + self.fetches, ..self }
    }

    pub open spec fn after_fetches(self, tokens: Seq<Option<Seq<char>>>) -> Run<T> {
        Run { fetches: tokens + self.fetches, ..self }
    }

    pub open spec fn after_waits(self, n: nat) -> Run<T> {
        Run { waits: self.waits + n, ..self }
    }
}

/// A bound on the polls that a source answers before it next sends a request.
pub open spec fn rank<T>(phase: Phase<T>) -> nat {
    match phase {
        Phase::HasPage { items, .. } => 3 + items.len(),
        Phase::Throttled { .. } => 2,
        Phase::Due { .. } => 1,
        Phase::InFlight { .. } => 0,
        Phase::Exhausted => 0,
    }
}

/// The source after the outstanding request had the first outcome of
/// `script`, run against the rest of it.
pub open spec fn answered<T>(source: SourceView<T>, script: Seq<Outcome<T>>) -> Run<T>
    decreases script.len(), 0nat, 0nat,
{
    if script.len() == 0 {
        Run::stopped(RunEnd::Starved)
    } else {
        match script[0] {
            Outcome::Page(page) => run(source.on_page(page), script.drop_first()),
            Outcome::Throttled => run(source.on_throttled(), script.drop_first()),
            Outcome::Fatal => Run::stopped(RunEnd::Failed),
        }
    }
}

/// The run of `source` against `script`: the driver polls, hands out each
/// item, answers each request with the next outcome of the script, and waits
/// out each retry delay.
pub open spec fn run<T>(source: SourceView<T>, script: Seq<Outcome<T>>) -> Run<T>
    decreases script.len(), 1nat, rank(source.phase),
{
    match source.phase {
        Phase::Exhausted => Run::stopped(RunEnd::Finished),
        Phase::InFlight { .. } => answered(source, script),
        _ => {
            let (next, action) = source.poll();
            match action {
                PollView::Item(item) => run(next, script).after_item(item),
                PollView::Fetch { token } => answered(next, script).after_fetch(token),
                PollView::Wait { .. } => run(next.on_delay_elapsed(), script).after_waits(1),
                PollView::Pending => Run::stopped(RunEnd::Starved),
                PollView::End => Run::stopped(RunEnd::Finished),
            }
        },
    }
}

/// Pages as the remote hands them out one after another: each but the last
/// names the next.
pub open spec fn chained<T>(pages: Seq<PageView<T>>) -> bool {
    &&& pages.len() > 0
    &&& forall|i: int|
        0 <= i < pages.len() ==> ((#[trigger] pages[i]).next_token is Some <==> i + 1
            < pages.len())
}

/// The items of `pages`, page after page.
pub open spec fn all_items<T>(pages: Seq<PageView<T>>) -> Seq<T>
    decreases pages.len(),
{
    if pages.len() == 0 {
        Seq::empty()
    } else {
        pages[0].items + all_items(pages.drop_first())
    }
}

/// The script of a remote that answers every request with the next of `pages`.
pub open spec fn answers<T>(pages: Seq<PageView<T>>) -> Seq<Outcome<T>> {
    Seq::new(pages.len(), |i: int| Outcome::Page(pages[i]))
}

/// The tokens with which `pages` are asked for, when the first is asked for
/// with `first`: each page is asked for with the token that the page before
/// it gave.
pub open spec fn tokens_sent<T>(first: Option<Seq<char>>, pages: Seq<PageView<T>>) -> Seq<
    Option<Seq<char>>,
> {
    Seq::new(
        pages.len(),
        |i: int|
            if i == 0 {
                first
            } else {
                pages[i - 1].next_token
            },
    )
}

/// `m` throttled requests in a row.
pub open spec fn throttles<T>(m: nat) -> Seq<Outcome<T>> {
    Seq::new(m, |i: int| Outcome::Throttled)
}

/// `script` without its throttled requests.
pub open spec fn without_throttles<T>(script: Seq<Outcome<T>>) -> Seq<Outcome<T>>
    decreases script.len(),
{
    if script.len() == 0 {
        script
    } else if script[0] is Throttled {
        without_throttles(script.drop_first())
    } else {
        seq![script[0]] + without_throttles(script.drop_first())
    }
}

/// A source that holds a page hands out what is left of it before anything
/// else happens.
pub proof fn lemma_page_is_handed_out<T>(
    source: SourceView<T>,
    items: Seq<T>,
    next_token: Option<Seq<char>>,
    script: Seq<Outcome<T>>,
)
    requires
        source.phase == (Phase::HasPage { items, next_token }),
    ensures
        run(source, script) == run(
            source.with_phase(Phase::HasPage { items: Seq::empty(), next_token }),
            script,
        ).after_items(items),
    decreases items.len(),
{
    let drained = source.with_phase(Phase::HasPage { items: Seq::<T>::empty(), next_token });
    if items.len() == 0 {
        assert(items =~= Seq::<T>::empty());
        assert(source == drained);
        assert(run(drained, script).after_items(items).items =~= run(drained, script).items);
    } else {
        let rest = source.with_phase(Phase::HasPage { items: items.drop_first(), next_token });
        lemma_page_is_handed_out(rest, items.drop_first(), next_token, script);
        assert(rest.with_phase(Phase::HasPage { items: Seq::<T>::empty(), next_token })
            == drained);
        assert(run(source, script) == run(rest, script).after_item(items[0]));
        assert(seq![items[0]] + (items.drop_first() + run(drained, script).items) =~= items
            + run(drained, script).items);
    }
}

/// A used-up page that names a next page asks for it as a fresh source with
/// that token would.
pub proof fn lemma_next_page_is_requested<T>(
    source: SourceView<T>,
    token: Seq<char>,
    script: Seq<Outcome<T>>,
)
    requires
        source.phase == (Phase::HasPage { items: Seq::<T>::empty(), next_token: Some(token) }),
    ensures
        run(source, script) == run(source.with_phase(Phase::Due { token: Some(token) }), script),
{
}

/// Against a remote that answers with `pages`, each naming the next, a source
/// whose first request carries `first` hands out every item of every page, in
/// page order, sends one request per page, each with the token that the page
/// before it gave, never waits, and ends after the last page.
pub proof fn lemma_chain_from<T>(
    source: SourceView<T>,
    first: Option<Seq<char>>,
    pages: Seq<PageView<T>>,
)
    requires
        chained(pages),
        source.phase == (Phase::<T>::Due { token: first }),
    ensures
        run(source, answers(pages)) == (Run {
            items: all_items(pages),
            fetches: tokens_sent(first, pages),
            waits: 0,
            end: RunEnd::Finished,
        }),
    decreases pages.len(),
{
    let script = answers(pages);
    let page = pages[0];
    let rest = pages.drop_first();
    let sent = source.with_phase(Phase::InFlight { token: first });
    let holding = sent.on_page(page);
    let drained = holding.with_phase(
        Phase::HasPage { items: Seq::<T>::empty(), next_token: page.next_token },
    );
    assert(script.drop_first() =~= answers(rest));
    assert(script[0] == Outcome::Page(page));
    assert(source.poll() == (sent, PollView::<T>::Fetch { token: first }));
    assert(run(source, script) == answered(sent, script).after_fetch(first));
    assert(answered(sent, script) == run(holding, script.drop_first()));
    assert(run(source, script) == run(holding, answers(rest)).after_fetch(first));
    lemma_page_is_handed_out(holding, page.items, page.next_token, answers(rest));
    if pages.len() == 1 {
        assert(page.next_token is None);
        assert(rest.len() == 0);
        assert(run(drained, answers(rest)) == Run::<T>::stopped(RunEnd::Finished));
        assert(all_items(rest) =~= Seq::<T>::empty());
        assert(all_items(pages) =~= page.items);
        assert(page.items + Seq::<T>::empty() =~= page.items);
        assert(seq![first] + Seq::<Option<Seq<char>>>::empty() =~= tokens_sent(first, pages));
    } else {
        assert(page.next_token is Some);
        let token = page.next_token->0;
        let due = drained.with_phase(Phase::Due { token: Some(token) });
        assert forall|i: int| 0 <= i < rest.len() implies ((#[trigger] rest[i]).next_token
            is Some <==> i + 1 < rest.len()) by {
            assert(rest[i] == pages[i + 1]);
        }
        lemma_next_page_is_requested(drained, token, answers(rest));
        lemma_chain_from(due, Some(token), rest);
        assert(seq![first] + tokens_sent(Some(token), rest) =~= tokens_sent(first, pages)) by {
            assert forall|i: int| 0 <= i < pages.len() implies (seq![first] + tokens_sent(
                Some(token),
                rest,
            ))[i] == tokens_sent(first, pages)[i] by {
                if i >= 2 {
                    assert(rest[i - 2] == pages[i - 1]);
                }
            }
        }
    }
}

/// Against a remote that answers a paged listing with `pages`, each but the
/// last naming the next, a new source hands out every item of every page, in
/// page order, with one request per page and no wait, and then ends.
pub proof fn lemma_pages_in_order<T>(retry_delay_millis: u64, pages: Seq<PageView<T>>)
    requires
        chained(pages),
    ensures
        run(SourceView::<T>::start(retry_delay_millis), answers(pages)) == (Run {
            items: all_items(pages),
            fetches: tokens_sent(None, pages),
            waits: 0,
            end: RunEnd::Finished,
        }),
        tokens_sent(None, pages).len() == pages.len(),
{
    lemma_chain_from(SourceView::<T>::start(retry_delay_millis), None, pages);
}

/// A request that is throttled `m` times before the remote gives it the
/// outcomes of `rest` is sent `m` more times than without the throttling,
/// every time with the same token and after one wait each, and the run is
/// otherwise the same: same items, same end.
pub proof fn lemma_retry_until_answered<T>(
    source: SourceView<T>,
    token: Option<Seq<char>>,
    m: nat,
    rest: Seq<Outcome<T>>,
)
    requires
        source.phase == (Phase::<T>::Due { token }),
    ensures
        run(source, throttles::<T>(m) + rest) == run(source, rest).after_fetches(
            Seq::new(m, |i: int| token),
        ).after_waits(m),
        rest.len() > 0 ==> run(source, throttles::<T>(m) + rest).fetches.take(m as int + 1)
            == Seq::new((m + 1) as nat, |i: int| token),
    decreases m,
{
    let plain = run(source, rest);
    if m == 0 {
        assert(throttles::<T>(0) + rest =~= rest);
        assert(Seq::new(0nat, |i: int| token) + plain.fetches =~= plain.fetches);
    } else {
        let script = throttles::<T>(m) + rest;
        let shorter = throttles::<T>((m - 1) as nat) + rest;
        assert(script.drop_first() =~= shorter);
        assert(script[0] is Throttled);
        lemma_retry_until_answered(source, token, (m - 1) as nat, rest);
        let sent = source.with_phase(Phase::InFlight { token });
        let waiting = sent.on_throttled();
        assert(waiting.on_delay_elapsed() == source);
        assert(run(waiting, shorter) == run(source, shorter).after_waits(1));
        assert(source.poll() == (sent, PollView::<T>::Fetch { token }));
        assert(run(source, script) == answered(sent, script).after_fetch(token));
        assert(answered(sent, script) == run(waiting, script.drop_first()));
        assert(run(source, script) == run(waiting, shorter).after_fetch(token));
        assert(seq![token] + (Seq::new((m - 1) as nat, |i: int| token) + plain.fetches)
            =~= Seq::new(m, |i: int| token) + plain.fetches);
    }
    if rest.len() > 0 {
        assert(plain.fetches.len() > 0 && plain.fetches[0] == token);
        assert((Seq::new(m, |i: int| token) + plain.fetches).take(m as int + 1) =~= Seq::new(
            (m + 1) as nat,
            |i: int| token,
        ));
    }
}

/// A throttled request waits once and is then sent again as it was.
pub proof fn lemma_throttled_request_is_repeated<T>(
    source: SourceView<T>,
    script: Seq<Outcome<T>>,
)
    requires
        source.phase is InFlight,
    ensures
        run(source.on_throttled(), script) == answered(source, script).after_fetch(
            source.phase->InFlight_token,
        ).after_waits(1),
{
    let token = source.phase->InFlight_token;
    let waiting = source.on_throttled();
    let due = waiting.on_delay_elapsed();
    assert(waiting.poll() == (waiting, PollView::<T>::Wait { millis: source.retry_delay_millis }));
    assert(run(waiting, script) == run(due, script).after_waits(1));
    assert(due.poll() == (source, PollView::<T>::Fetch { token }));
    assert(run(due, script) == answered(source, script).after_fetch(token));
}

/// Throttling neither loses nor repeats an item: whatever the remote's
/// outcomes, the run hands out the items that it hands out when the throttled
/// requests are left out of the script, and stops in the same way.
pub proof fn lemma_throttling_loses_nothing<T>(source: SourceView<T>, script: Seq<Outcome<T>>)
    ensures
        run(source, script).items == run(source, without_throttles(script)).items,
        run(source, script).end == run(source, without_throttles(script)).end,
    decreases script.len(), 1nat, rank(source.phase),
{
    let plain = without_throttles(script);
    match source.phase {
        Phase::Exhausted => {},
        Phase::InFlight { .. } => {
            lemma_throttled_answer_loses_nothing(source, script);
        },
        _ => {
            let (next, action) = source.poll();
            match action {
                PollView::Item(item) => {
                    lemma_throttling_loses_nothing(next, script);
                },
                PollView::Fetch { token } => {
                    lemma_throttled_answer_loses_nothing(next, script);
                },
                PollView::Wait { .. } => {
                    lemma_throttling_loses_nothing(next.on_delay_elapsed(), script);
                },
                PollView::Pending => {},
                PollView::End => {},
            }
        },
    }
}

/// [`lemma_throttling_loses_nothing`], for a source whose request is
/// outstanding.
pub proof fn lemma_throttled_answer_loses_nothing<T>(
    source: SourceView<T>,
    script: Seq<Outcome<T>>,
)
    requires
        source.phase is InFlight,
    ensures
        answered(source, script).items == answered(source, without_throttles(script)).items,
        answered(source, script).end == answered(source, without_throttles(script)).end,
    decreases script.len(), 0nat, 0nat,
{
    if script.len() > 0 {
        let rest = script.drop_first();
        let plain_rest = without_throttles(rest);
        match script[0] {
            Outcome::Page(page) => {
                lemma_throttling_loses_nothing(source.on_page(page), rest);
                assert((seq![script[0]] + plain_rest).drop_first() =~= plain_rest);
            },
            Outcome::Throttled => {
                lemma_throttled_request_is_repeated(source, rest);
                lemma_throttled_answer_loses_nothing(source, rest);
            },
            Outcome::Fatal => {
                assert((seq![script[0]] + plain_rest).drop_first() =~= plain_rest);
            },
        }
    }
}

} // verus!
