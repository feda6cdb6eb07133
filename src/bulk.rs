//! Collecting every page of a listing into one sequence. Page 1 tells how
//! many pages there are; the other pages may complete in any order, and
//! the result is their items in ascending page order.

use vstd::prelude::*;
use crate::error::Error;
use crate::schema::PaginatedResponse;

verus! {

/// The abstract state of a collection.
pub struct BulkView<T> {
    /// Items of page `p` at index `p - 1`, once recorded.
    pub pages: Seq<Option<Seq<T>>>,
    /// The first failure recorded, if any.
    pub failure: Option<Error>,
}

/// The items of the pages in order, one page after another.
pub open spec fn concat_pages<T>(pages: Seq<Seq<T>>) -> Seq<T>
    decreases pages.len(),
{
    if pages.len() == 0 {
        Seq::empty()
    } else {
        concat_pages(pages.drop_last()) + pages.last()
    }
}

/// The number of pages of a listing whose page 1 reports `last_page`.
pub open spec fn page_count(last_page: int) -> nat {
    if last_page < 1 {
        1
    } else {
        last_page as nat
    }
}

/// A new collection: page 1 holds `first`, the others are still to come.
pub open spec fn started<T>(first: Seq<T>, last_page: int) -> BulkView<T> {
    BulkView {
        pages: Seq::new(page_count(last_page), |i: int| if i == 0 { Some(first) } else { None }),
        failure: None,
    }
}

/// The page numbers after page 1 of a listing of `count` pages:
/// `2..=count`.
pub open spec fn pages_after_first(count: nat) -> Seq<i32> {
    Seq::new(if count > 0 { (count - 1) as nat } else { 0 }, |i: int| (i + 2) as i32)
}

/// The collection after page `page` completed with `outcome`. A page
/// outside `2..=last_page` changes nothing; a failure is kept only if it is
/// the first.
pub open spec fn recorded<T>(v: BulkView<T>, page: int, outcome: Result<Seq<T>, Error>) -> BulkView<T> {
    if !(2 <= page <= v.pages.len()) {
        v
    } else {
        match outcome {
            Ok(items) => BulkView { pages: v.pages.update(page - 1, Some(items)), ..v },
            Err(e) => if v.failure is None {
                BulkView { failure: Some(e), ..v }
            } else {
                v
            },
        }
    }
}

/// The collection after a sequence of completions, in the order given.
pub open spec fn replay<T>(v: BulkView<T>, events: Seq<(int, Result<Seq<T>, Error>)>) -> BulkView<T>
    decreases events.len(),
{
    if events.len() == 0 {
        v
    } else {
        replay(recorded(v, events[0].0, events[0].1), events.drop_first())
    }
}

/// Every page is in, or some page failed.
pub open spec fn is_complete<T>(v: BulkView<T>) -> bool {
    v.failure is Some || forall|i: int| 0 <= i < v.pages.len() ==> (#[trigger] v.pages[i]) is Some
}

/// The items of each recorded page.
pub open spec fn page_items<T>(pages: Seq<Option<Seq<T>>>) -> Seq<Seq<T>> {
    pages.map_values(
        |o: Option<Seq<T>>|
            match o {
                Some(s) => s,
                None => Seq::empty(),
            },
    )
}

/// The result of a complete collection: the first failure, or the items
/// of pages `1..=last_page` in ascending page order.
pub open spec fn collected<T>(v: BulkView<T>) -> Result<Seq<T>, Error> {
    match v.failure {
        Some(e) => Err(e),
        None => Ok(concat_pages(page_items(v.pages))),
    }
}

/// The view of a page outcome.
pub open spec fn outcome_view<T>(o: Result<Vec<T>, Error>) -> Result<Seq<T>, Error> {
    match o {
        Ok(v) => Ok(v@),
        Err(e) => Err(e),
    }
}

/// Some completion in `events` is for page `page`.
pub open spec fn mentions_page<T>(events: Seq<(int, Result<Seq<T>, Error>)>, page: int) -> bool {
    exists|j: int| 0 <= j < events.len() && (#[trigger] events[j]).0 == page
}

/// Each completion in `events` is a success for a page in `2..=count`,
/// with the items that `contents` gives for that page (`contents[p - 2]`
/// for page `p`).
pub open spec fn successes_of<T>(
    events: Seq<(int, Result<Seq<T>, Error>)>,
    count: nat,
    contents: Seq<Seq<T>>,
) -> bool {
    forall|j: int|
        0 <= j < events.len() ==> 2 <= (#[trigger] events[j]).0 <= count && events[j].1 == Ok::<
            Seq<T>,
            Error,
        >(contents[events[j].0 - 2])
}

/// A collection of a listing whose page 1 reports `last_page` (at least
/// 1) requests `last_page` pages in all: page 1 alone first, then each of
/// pages `2..=last_page` exactly once.
pub proof fn lemma_request_count(last_page: int)
    requires
        1 <= last_page <= i32::MAX,
    ensures
        pages_after_first(page_count(last_page)).len() + 1 == last_page,
        forall|i: int|
            0 <= i < last_page - 1 ==> #[trigger] pages_after_first(page_count(last_page))[i] == i
                + 2,
        forall|i: int, j: int|
            0 <= i < j < last_page - 1 ==> #[trigger] pages_after_first(page_count(last_page))[i]
                != #[trigger] pages_after_first(page_count(last_page))[j],
{
}

proof fn lemma_replay_successes<T>(
    v: BulkView<T>,
    events: Seq<(int, Result<Seq<T>, Error>)>,
    contents: Seq<Seq<T>>,
)
    requires
        v.failure is None,
        contents.len() + 1 == v.pages.len(),
        successes_of(events, v.pages.len(), contents),
    ensures
        replay(v, events).failure is None,
        replay(v, events).pages.len() == v.pages.len(),
        forall|i: int|
            0 <= i < v.pages.len() ==> #[trigger] replay(v, events).pages[i] == if mentions_page(
                events,
                i + 1,
            ) {
                Some(contents[i - 1])
            } else {
                v.pages[i]
            },
    decreases events.len(),
{
    if events.len() > 0 {
        let e0 = events[0];
        let rest = events.drop_first();
        let v1 = recorded(v, e0.0, e0.1);
        assert(v1.pages == v.pages.update(e0.0 - 1, Some(contents[e0.0 - 2])));
        assert forall|j: int| 0 <= j < rest.len() implies 2 <= (#[trigger] rest[j]).0 <= v1.pages.len()
            && rest[j].1 == Ok::<Seq<T>, Error>(contents[rest[j].0 - 2]) by {
            assert(rest[j] == events[j + 1]);
        }
        lemma_replay_successes(v1, rest, contents);
        assert forall|i: int| 0 <= i < v.pages.len() implies #[trigger] replay(v, events).pages[i]
            == if mentions_page(events, i + 1) {
            Some(contents[i - 1])
        } else {
            v.pages[i]
        } by {
            if mentions_page(rest, i + 1) {
                let j = choose|j: int| 0 <= j < rest.len() && (#[trigger] rest[j]).0 == i + 1;
                assert(events[j + 1] == rest[j]);
            } else if e0.0 == i + 1 {
                assert(events[0].0 == i + 1);
            } else {
                assert forall|j: int| 0 <= j < events.len() implies (#[trigger] events[j]).0 != i
                    + 1 by {
                    if j > 0 {
                        assert(events[j] == rest[j - 1]);
                    }
                }
            }
        }
    }
}

/// Whatever order pages `2..=last_page` complete in, a collection whose
/// pages all succeed yields the items of pages `1..=last_page` in
/// ascending page order. `contents[p - 2]` holds the items of page `p`;
/// each completion in `events` is a success of one such page, and every
/// page completes at least once.
pub proof fn lemma_merge_in_page_order<T>(
    first: Seq<T>,
    last_page: int,
    contents: Seq<Seq<T>>,
    events: Seq<(int, Result<Seq<T>, Error>)>,
)
    requires
        contents.len() + 1 == page_count(last_page),
        successes_of(events, page_count(last_page), contents),
        forall|p: int| 2 <= p <= page_count(last_page) ==> #[trigger] mentions_page(events, p),
    ensures
        is_complete(replay(started(first, last_page), events)),
        collected(replay(started(first, last_page), events)) == Ok::<Seq<T>, Error>(
            concat_pages(seq![first] + contents),
        ),
{
    let v = started(first, last_page);
    lemma_replay_successes(v, events, contents);
    let w = replay(v, events);
    assert(!mentions_page(events, 1)) by {
        assert forall|j: int| 0 <= j < events.len() implies (#[trigger] events[j]).0 != 1 by {}
    }
    assert forall|i: int| 0 <= i < w.pages.len() implies (#[trigger] w.pages[i]) is Some by {
        if i > 0 {
            assert(mentions_page(events, i + 1));
        }
    }
    assert forall|i: int| 0 <= i < w.pages.len() implies #[trigger] page_items(w.pages)[i] == (
    seq![first] + contents)[i] by {
        if i > 0 {
            assert(mentions_page(events, i + 1));
        }
    }
    assert(page_items(w.pages) =~= seq![first] + contents);
}

/// Two collections of the same listing whose pages succeed with the same
/// items yield the same sequence, whatever order their pages complete in.
pub proof fn lemma_collection_repeatable<T>(
    first: Seq<T>,
    last_page: int,
    contents: Seq<Seq<T>>,
    events1: Seq<(int, Result<Seq<T>, Error>)>,
    events2: Seq<(int, Result<Seq<T>, Error>)>,
)
    requires
        contents.len() + 1 == page_count(last_page),
        successes_of(events1, page_count(last_page), contents),
        successes_of(events2, page_count(last_page), contents),
        forall|p: int| 2 <= p <= page_count(last_page) ==> #[trigger] mentions_page(events1, p),
        forall|p: int| 2 <= p <= page_count(last_page) ==> #[trigger] mentions_page(events2, p),
    ensures
        collected(replay(started(first, last_page), events1)) == collected(
            replay(started(first, last_page), events2),
        ),
{
    lemma_merge_in_page_order(first, last_page, contents, events1);
    lemma_merge_in_page_order(first, last_page, contents, events2);
}

proof fn lemma_failure_kept<T>(v: BulkView<T>, events: Seq<(int, Result<Seq<T>, Error>)>)
    requires
        v.failure is Some,
    ensures
        replay(v, events).failure == v.failure,
    decreases events.len(),
{
    if events.len() > 0 {
        lemma_failure_kept(recorded(v, events[0].0, events[0].1), events.drop_first());
    }
}

/// Once a page in `2..=last_page` fails, the collection ends in an error
/// and yields no items, whatever completes after; the error is the first
/// failure recorded.
pub proof fn lemma_failure_spoils_collection<T>(
    v: BulkView<T>,
    page: int,
    e: Error,
    later: Seq<(int, Result<Seq<T>, Error>)>,
)
    requires
        2 <= page <= v.pages.len(),
    ensures
        is_complete(replay(recorded(v, page, Err(e)), later)),
        collected(replay(recorded(v, page, Err(e)), later)) is Err,
        v.failure is None ==> collected(replay(recorded(v, page, Err(e)), later)) == Err::<
            Seq<T>,
            Error,
        >(e),
{
    lemma_failure_kept(recorded(v, page, Err(e)), later);
}

/// The view of one slot.
pub open spec fn slot_view<T>(o: Option<Vec<T>>) -> Option<Seq<T>> {
    match o {
        Some(v) => Some(v@),
        None => None,
    }
}

/// A bulk collection in progress.
pub struct BulkCollection<T> {
    slots: Vec<Option<Vec<T>>>,
    failure: Option<Error>,
}

impl<T> View for BulkCollection<T> {
    type V = BulkView<T>;

    closed spec fn view(&self) -> BulkView<T> {
        BulkView {
            pages: self.slots@.map_values(|o: Option<Vec<T>>| slot_view(o)),
            failure: self.failure,
        }
    }
}

impl<T> BulkCollection<T> {
    /// Well-formed: there is a slot for page 1, and every page number fits
    /// in an `i32`. Every collection is, from `start` on.
    pub open spec fn wf(&self) -> bool {
        1 <= self@.pages.len() <= i32::MAX
    }

    /// Starts a collection from page 1 of the listing.
    pub fn start(first: PaginatedResponse<T>) -> (r: Self)
        ensures
            r.wf(),
            r@ == started(first.data@, first.meta.last_page as int),
    {
        let last_page = first.meta.last_page;
        let count: usize = if last_page < 1 { 1 } else { last_page as usize };
        let mut slots: Vec<Option<Vec<T>>> = Vec::new();
        slots.push(Some(first.data));
        let ghost first_items = first.data@;
        while slots.len() < count
            invariant
                1 <= slots@.len() <= count,
                count == page_count(last_page as int),
                slot_view(slots@[0]) == Some(first_items),
                forall|i: int| 1 <= i < slots@.len() ==> (#[trigger] slots@[i]) is None,
            decreases count - slots@.len(),
        {
            slots.push(None);
        }
        let r = BulkCollection { slots, failure: None };
        assert(r@.pages =~= started(first_items, last_page as int).pages);
        r
    }

    /// The pages still to request: `2..=last_page`, each once, in
    /// ascending order.
    pub fn remaining_pages(&self) -> (r: Vec<i32>)
        requires
            self.wf(),
        ensures
            r@ == pages_after_first(self@.pages.len()),
    {
        let mut r: Vec<i32> = Vec::new();
        let n = self.slots.len();
        let mut page: usize = 2;
        while page <= n
            invariant
                2 <= page,
                page <= n + 1 || page == 2,
                n == self@.pages.len(),
                n <= i32::MAX,
                r@.len() == page - 2,
                forall|i: int| 0 <= i < r@.len() ==> #[trigger] r@[i] == (i + 2) as i32,
            decreases n + 1 - page,
        {
            r.push(page as i32);
            page = page + 1;
        }
        assert(r@ =~= pages_after_first(n as nat));
        r
    }

    /// Records that page `page` completed with `outcome`.
    pub fn record(&mut self, page: i32, outcome: Result<Vec<T>, Error>)
        ensures
            final(self)@ == recorded(old(self)@, page as int, outcome_view(outcome)),
            old(self).wf() ==> final(self).wf(),
    {
        if page < 2 || page as usize > self.slots.len() {
            return;
        }
        let idx = (page - 1) as usize;
        match outcome {
            Ok(items) => {
                self.slots.set(idx, Some(items));
                assert(self@.pages =~= old(self)@.pages.update(page - 1, Some(items@)));
            },
            Err(e) => {
                if self.failure.is_none() {
                    self.failure = Some(e);
                }
            },
        }
    }

    /// Records the outcome of fetching page `page`.
    pub fn record_page(&mut self, page: i32, fetched: Result<PaginatedResponse<T>, Error>)
        ensures
            final(self)@ == recorded(
                old(self)@,
                page as int,
                match fetched {
                    Ok(p) => Ok(p.data@),
                    Err(e) => Err(e),
                },
            ),
            old(self).wf() ==> final(self).wf(),
    {
        match fetched {
            Ok(p) => self.record(page, Ok(p.data)),
            Err(e) => self.record(page, Err(e)),
        }
    }

    /// Every page is in, or some page failed.
    pub fn is_complete(&self) -> (r: bool)
        ensures
            r == is_complete(self@),
    {
        if self.failure.is_some() {
            return true;
        }
        let mut i: usize = 0;
        while i < self.slots.len()
            invariant
                i <= self.slots@.len(),
                self.failure is None,
                forall|j: int| 0 <= j < i ==> (#[trigger] self@.pages[j]) is Some,
            decreases self.slots@.len() - i,
        {
            if self.slots[i].is_none() {
                assert(self@.pages[i as int] is None);
                return false;
            }
            i = i + 1;
        }
        true
    }

    /// The result of a complete collection: the first failure recorded, or
    /// the items of all pages in ascending page order.
    pub fn finish(self) -> (r: Result<Vec<T>, Error>)
        requires
            is_complete(self@),
        ensures
            outcome_view(r) == collected(self@),
    {
        let ghost pages = self@.pages;
        if let Some(e) = self.failure {
            return Err(e);
        }
        let mut slots = self.slots;
        let mut out: Vec<T> = Vec::new();
        let mut i: usize = 0;
        while i < slots.len()
            invariant
                i <= slots@.len(),
                slots@.len() == pages.len(),
                forall|j: int| 0 <= j < pages.len() ==> (#[trigger] pages[j]) is Some,
                forall|j: int|
                    i <= j < slots@.len() ==> slot_view(#[trigger] slots@[j]) == pages[j],
                out@ == concat_pages(page_items(pages).take(i as int)),
            decreases slots@.len() - i,
        {
            let mut taken: Option<Vec<T>> = None;
            slots.set_and_swap(i, &mut taken);
            let mut items = match taken {
                Some(v) => v,
                None => Vec::new(),
            };
            proof {
                let s = page_items(pages).take(i as int + 1);
                assert(s.drop_last() =~= page_items(pages).take(i as int));
                assert(s.last() == items@);
            }
            out.append(&mut items);
            i = i + 1;
        }
        assert(page_items(pages).take(i as int) =~= page_items(pages));
        Ok(out)
    }
}

} // verus!
