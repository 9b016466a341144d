//! The cursor-driven listing enumerator. A `Lister` consumes one page of
//! items at a time, skips an item whose stable name equals the cursor the
//! page was fetched with (the platform may repeat the cursor item at a page
//! boundary), keeps the items a filter accepts, and follows the returned
//! cursor until a page is empty or no cursor comes back.
use crate::strings::contains_seq;
use crate::strings::lower_of;
use crate::strings::lowercase;
use crate::strings::str_contains;
use crate::strings::str_eq;
use vstd::prelude::*;

verus! {

/// An item that a listing endpoint can return: it has a stable
/// fully-qualified name, an upvote count, and the community it belongs to.
pub trait Listed: Sized {
    /// The characters of the item's stable fully-qualified name.
    spec fn key(self) -> Seq<char>;

    /// The item's upvote count.
    spec fn ups(self) -> u64;

    /// The characters of the name of the community the item belongs to.
    spec fn sub(self) -> Seq<char>;

    fn name_ref(&self) -> (r: &String)
        ensures
            r@ == self.key(),
    ;

    fn upvote_count(&self) -> (r: u64)
        ensures
            r == self.ups(),
    ;

    fn subreddit_ref(&self) -> (r: &String)
        ensures
            r@ == self.sub(),
    ;
}

/// The predicates an enumeration can apply to each item.
#[derive(Debug, Clone)]
pub enum ItemFilter {
    /// Keep every item.
    Any,
    /// Keep items with fewer upvotes than the bound.
    UpvotesBelow(u64),
    /// Keep items whose community name holds the given name, compared after
    /// case folding of both sides.
    InSubreddit(String),
}

impl ItemFilter {
    /// What the filter accepts.
    pub open spec fn accepts<T: Listed>(self, item: T) -> bool {
        match self {
            ItemFilter::Any => true,
            ItemFilter::UpvotesBelow(bound) => item.ups() < bound,
            ItemFilter::InSubreddit(name) => contains_seq(
                lower_of(item.sub()),
                lower_of(name@),
            ),
        }
    }

    /// Decide the filter on one item.
    pub fn check<T: Listed>(&self, item: &T) -> (r: bool)
        ensures
            r == self.accepts(*item),
    {
        match self {
            ItemFilter::Any => true,
            ItemFilter::UpvotesBelow(bound) => item.upvote_count() < *bound,
            ItemFilter::InSubreddit(name) => {
                let item_sub = lowercase(item.subreddit_ref().as_str());
                let wanted = lowercase(name.as_str());
                str_contains(item_sub.as_str(), wanted.as_str())
            },
        }
    }
}

/// The characters of a cursor, when one is active.
pub open spec fn cursor_view(c: Option<String>) -> Option<Seq<char>> {
    match c {
        Some(s) => Some(s@),
        None => None,
    }
}

/// An item of a page survives when it does not repeat the active cursor and
/// the filter accepts it.
pub open spec fn survives<T: Listed>(item: T, cursor: Option<Seq<char>>, f: ItemFilter) -> bool {
    (match cursor {
        Some(c) => item.key() != c,
        None => true,
    }) && f.accepts(item)
}

/// The items of one page that the enumeration emits, in page order.
pub open spec fn page_survivors<T: Listed>(
    items: Seq<T>,
    cursor: Option<Seq<char>>,
    f: ItemFilter,
) -> Seq<T>
    decreases items.len(),
{
    if items.len() == 0 {
        Seq::empty()
    } else {
        let rest = page_survivors(items.drop_last(), cursor, f);
        if survives(items.last(), cursor, f) {
            rest.push(items.last())
        } else {
            rest
        }
    }
}

/// The running state of one enumeration pass.
pub struct Lister<T> {
    /// The cursor the next page will be fetched with; the items of that page
    /// are deduplicated against it.
    pub cursor: Option<String>,
    /// Whether the listing is exhausted.
    pub finished: bool,
    /// The items emitted so far, in listing order.
    pub results: Vec<T>,
}

impl<T: Listed> Lister<T> {
    /// A fresh enumeration: no cursor, nothing emitted.
    pub fn new() -> (r: Self)
        ensures
            r.cursor is None,
            !r.finished,
            r.results@ == Seq::<T>::empty(),
    {
        Lister { cursor: None, finished: false, results: Vec::new() }
    }

    /// Consume one fetched page together with the cursor that came back with
    /// it. An empty page ends the listing at once; otherwise the page's
    /// survivors are emitted, and the listing ends when no cursor came back.
    pub fn feed_page(&mut self, page: Vec<T>, next_cursor: Option<String>, f: &ItemFilter)
        requires
            !old(self).finished,
        ensures
            final(self).results@ == old(self).results@ + if page@.len() == 0 {
                Seq::<T>::empty()
            } else {
                page_survivors(page@, cursor_view(old(self).cursor), *f)
            },
            final(self).finished == (page@.len() == 0 || next_cursor is None),
            page@.len() == 0 ==> final(self).cursor == old(self).cursor,
            page@.len() != 0 ==> final(self).cursor == next_cursor,
    {
        let mut page = page;
        if page.len() == 0 {
            self.finished = true;
            proof {
                assert(final(self).results@ =~= old(self).results@ + Seq::<T>::empty());
            }
            return ;
        }
        let ghost orig_page = page@;
        let ghost orig_results = self.results@;
        let ghost cur = cursor_view(self.cursor);
        let mut k: usize = 0;
        proof {
            assert(orig_page.take(0) =~= Seq::<T>::empty());
            assert(orig_results + page_survivors(orig_page.take(0), cur, *f) =~= orig_results);
        }
        while page.len() > 0
            invariant
                k <= orig_page.len(),
                orig_page.len() <= usize::MAX,
                page@ =~= orig_page.skip(k as int),
                cur == cursor_view(self.cursor),
                self.finished == old(self).finished,
                self.cursor == old(self).cursor,
                self.results@ == orig_results + page_survivors(orig_page.take(k as int), cur, *f),
            decreases page@.len(),
        {
            let item = page.remove(0);
            proof {
                assert(item == orig_page[k as int]);
                assert(page@ =~= orig_page.skip(k as int + 1));
            }
            let repeats_cursor = match &self.cursor {
                Some(c) => str_eq(item.name_ref().as_str(), c.as_str()),
                None => false,
            };
            let keep = !repeats_cursor && f.check(&item);
            proof {
                assert(keep == survives(item, cur, *f));
                let taken = orig_page.take(k as int + 1);
                assert(taken.drop_last() =~= orig_page.take(k as int));
                assert(taken.last() == orig_page[k as int]);
            }
            if keep {
                self.results.push(item);
            }
            k = k + 1;
        }
        proof {
            assert(orig_page.take(k as int) =~= orig_page);
        }
        if next_cursor.is_none() {
            self.finished = true;
        }
        self.cursor = next_cursor;
    }
}

/// One page of a simulated or parsed listing: its items and the cursor the
/// platform returned with it.
pub struct ListingPage<T> {
    pub items: Vec<T>,
    pub after: Option<String>,
}

/// What a full enumeration over the given pages, entered with the given
/// cursor, emits: pages are consumed in order, an empty page or an absent
/// cursor ends the pass.
pub open spec fn pages_result<T: Listed>(
    pages: Seq<ListingPage<T>>,
    cursor: Option<Seq<char>>,
    f: ItemFilter,
) -> Seq<T>
    decreases pages.len(),
{
    if pages.len() == 0 {
        Seq::empty()
    } else {
        let pg = pages.first();
        if pg.items@.len() == 0 {
            Seq::empty()
        } else {
            let here = page_survivors(pg.items@, cursor, f);
            match pg.after {
                None => here,
                Some(a) => here + pages_result(pages.drop_first(), Some(a@), f),
            }
        }
    }
}

/// Enumerate a finite in-memory listing: feed its pages in order to a fresh
/// `Lister` until the listing ends or the pages run out.
pub fn list_all_pages<T: Listed>(pages: Vec<ListingPage<T>>, f: &ItemFilter) -> (r: Vec<T>)
    ensures
        r@ == pages_result(pages@, None, *f),
{
    let ghost orig = pages@;
    let mut rest = pages;
    let mut lister = Lister::<T>::new();
    proof {
        assert(lister.results@ + pages_result(rest@, cursor_view(lister.cursor), *f)
            =~= pages_result(orig, None, *f));
    }
    while !lister.finished && rest.len() > 0
        invariant
            !lister.finished ==> pages_result(orig, None, *f) == lister.results@ + pages_result(
                rest@,
                cursor_view(lister.cursor),
                *f,
            ),
            lister.finished ==> pages_result(orig, None, *f) == lister.results@,
        decreases rest@.len(),
    {
        let ghost pre_rest = rest@;
        let ghost pre_cursor = cursor_view(lister.cursor);
        let ghost pre_results = lister.results@;
        let pg = rest.remove(0);
        proof {
            assert(pg == pre_rest[0]);
            assert(rest@ =~= pre_rest.drop_first());
        }
        let ListingPage { items, after } = pg;
        lister.feed_page(items, after, f);
        proof {
            let here = page_survivors(pre_rest[0].items@, pre_cursor, *f);
            if pre_rest[0].items@.len() == 0 {
                assert(pages_result(pre_rest, pre_cursor, *f) =~= Seq::<T>::empty());
                assert(lister.results@ =~= pre_results);
            } else {
                match pre_rest[0].after {
                    None => {
                        assert(pages_result(pre_rest, pre_cursor, *f) == here);
                    },
                    Some(a) => {
                        assert(pages_result(pre_rest, pre_cursor, *f) == here + pages_result(
                            pre_rest.drop_first(),
                            Some(a@),
                            *f,
                        ));
                        assert(pre_results + (here + pages_result(rest@, Some(a@), *f)) =~= (
                        pre_results + here) + pages_result(rest@, Some(a@), *f));
                    },
                }
            }
        }
    }
    proof {
        if !lister.finished {
            assert(rest@.len() == 0);
            assert(pages_result(rest@, cursor_view(lister.cursor), *f) =~= Seq::<T>::empty());
            assert(lister.results@ + Seq::<T>::empty() =~= lister.results@);
        }
    }
    lister.results
}

/// All items of the pages, in listing order, before any deduplication or
/// filtering.
pub open spec fn all_items<T: Listed>(pages: Seq<ListingPage<T>>) -> Seq<T>
    decreases pages.len(),
{
    if pages.len() == 0 {
        Seq::empty()
    } else {
        pages.first().items@ + all_items(pages.drop_first())
    }
}

/// A complete listing as the platform hands it out: at least one page, no
/// page empty, every page but the last with a cursor, the last without one.
pub open spec fn well_formed_listing<T: Listed>(pages: Seq<ListingPage<T>>) -> bool {
    &&& pages.len() > 0
    &&& forall|i: int| 0 <= i < pages.len() ==> pages[i].items@.len() > 0
    &&& forall|i: int| 0 <= i < pages.len() - 1 ==> pages[i].after is Some
    &&& pages.last().after is None
}

/// No returned cursor names an item of the page fetched with it.
pub open spec fn cursor_distinct<T: Listed>(pages: Seq<ListingPage<T>>) -> bool {
    forall|i: int, j: int|
        1 <= i < pages.len() && 0 <= j < pages[i].items@.len() ==> Some(
            #[trigger] pages[i].items@[j].key(),
        ) != cursor_view(pages[i - 1].after)
}

/// Emitting survivors distributes over splitting a page in two.
proof fn lemma_survivors_append<T: Listed>(
    a: Seq<T>,
    b: Seq<T>,
    cursor: Option<Seq<char>>,
    f: ItemFilter,
)
    ensures
        page_survivors(a + b, cursor, f) == page_survivors(a, cursor, f) + page_survivors(
            b,
            cursor,
            f,
        ),
    decreases b.len(),
{
    if b.len() == 0 {
        assert(a + b =~= a);
        assert(page_survivors(a, cursor, f) + page_survivors(b, cursor, f) =~= page_survivors(
            a,
            cursor,
            f,
        ));
    } else {
        lemma_survivors_append(a, b.drop_last(), cursor, f);
        assert((a + b).drop_last() =~= a + b.drop_last());
        assert((a + b).last() == b.last());
        if survives(b.last(), cursor, f) {
            assert(page_survivors(a, cursor, f) + page_survivors(b.drop_last(), cursor, f).push(
                b.last(),
            ) =~= (page_survivors(a, cursor, f) + page_survivors(b.drop_last(), cursor, f)).push(
                b.last(),
            ));
        }
    }
}

/// A cursor that names no item of a page does not change the page's
/// survivors.
proof fn lemma_survivors_clean_cursor<T: Listed>(items: Seq<T>, c: Seq<char>, f: ItemFilter)
    requires
        forall|j: int| 0 <= j < items.len() ==> items[j].key() != c,
    ensures
        page_survivors(items, Some(c), f) == page_survivors(items, None, f),
    decreases items.len(),
{
    if items.len() == 0 {
    } else {
        lemma_survivors_clean_cursor(items.drop_last(), c, f);
        assert(items.last() == items[items.len() - 1]);
    }
}

/// Without an active cursor, the filter that keeps everything emits the page
/// as it is.
proof fn lemma_survivors_any<T: Listed>(items: Seq<T>)
    ensures
        page_survivors(items, None, ItemFilter::Any) == items,
    decreases items.len(),
{
    if items.len() == 0 {
        assert(page_survivors(items, None, ItemFilter::Any) =~= items);
    } else {
        lemma_survivors_any(items.drop_last());
        assert(items.drop_last().push(items.last()) =~= items);
    }
}

/// The induction behind the listing laws: over a well-formed listing whose
/// cursors are never item names, and entered with a cursor that names no item
/// of the first page, an enumeration emits exactly the filtered flat data.
proof fn lemma_pages_result_filters<T: Listed>(
    pages: Seq<ListingPage<T>>,
    cursor: Option<Seq<char>>,
    f: ItemFilter,
)
    requires
        well_formed_listing(pages),
        cursor_distinct(pages),
        forall|j: int|
            0 <= j < pages[0].items@.len() ==> Some(#[trigger] pages[0].items@[j].key())
                != cursor,
    ensures
        pages_result(pages, cursor, f) == page_survivors(all_items(pages), None, f),
    decreases pages.len(),
{
    let items0 = pages.first().items@;
    match cursor {
        Some(c) => {
            lemma_survivors_clean_cursor(items0, c, f);
        },
        None => {},
    }
    if pages.len() == 1 {
        assert(all_items(pages.drop_first()) =~= Seq::<T>::empty());
        assert(all_items(pages) =~= items0);
        assert(pages.last() == pages[0]);
    } else {
        let tail = pages.drop_first();
        let after0 = pages[0].after;
        assert(pages[0].after is Some);
        let a0 = after0->0;
        assert(well_formed_listing(tail)) by {
            assert(forall|i: int| 0 <= i < tail.len() ==> tail[i] == pages[i + 1]);
            assert(tail.last() == pages.last());
        }
        assert(cursor_distinct(tail)) by {
            assert forall|i: int, j: int|
                1 <= i < tail.len() && 0 <= j < tail[i].items@.len() implies Some(
                #[trigger] tail[i].items@[j].key(),
            ) != cursor_view(tail[i - 1].after) by {
                assert(tail[i] == pages[i + 1]);
                assert(tail[i - 1] == pages[i]);
                assert(Some(pages[i + 1].items@[j].key()) != cursor_view(pages[i].after));
            }
        }
        assert forall|j: int| 0 <= j < tail[0].items@.len() implies Some(
            #[trigger] tail[0].items@[j].key(),
        ) != cursor_view(after0) by {
            assert(tail[0] == pages[1]);
            assert(Some(pages[1].items@[j].key()) != cursor_view(pages[0].after));
        }
        assert(cursor_view(after0) == Some(a0@));
        lemma_pages_result_filters(tail, Some(a0@), f);
        lemma_survivors_append(items0, all_items(tail), None, f);
        assert(all_items(pages) == items0 + all_items(tail));
        assert(pages_result(pages, cursor, f) == page_survivors(items0, cursor, f)
            + pages_result(tail, Some(a0@), f));
    }
}

/// Law of predicate purity: over a well-formed listing whose cursors never
/// name an item, enumeration with a filter emits exactly the filtered flat
/// data, independent of how the items are split into pages.
pub proof fn lemma_filter_page_independent<T: Listed>(pages: Seq<ListingPage<T>>, f: ItemFilter)
    requires
        well_formed_listing(pages),
        cursor_distinct(pages),
    ensures
        pages_result(pages, None, f) == page_survivors(all_items(pages), None, f),
{
    lemma_pages_result_filters(pages, None, f);
}

/// Law of pagination exactness: over a well-formed listing whose cursors
/// never name an item, enumeration without a filter emits every item exactly
/// once, in listing order, however the items are split into pages.
pub proof fn lemma_pagination_exact<T: Listed>(pages: Seq<ListingPage<T>>)
    requires
        well_formed_listing(pages),
        cursor_distinct(pages),
    ensures
        pages_result(pages, None, ItemFilter::Any) == all_items(pages),
{
    lemma_pages_result_filters(pages, None, ItemFilter::Any);
    lemma_survivors_any(all_items(pages));
}

/// Law of the cursor-overlap guard: when the first item of a page repeats
/// the cursor the page was fetched with and no later item does, that first
/// item is dropped and the rest of the page is handled as if no cursor were
/// active.
pub proof fn lemma_cursor_overlap_guard<T: Listed>(items: Seq<T>, c: Seq<char>, f: ItemFilter)
    requires
        items.len() > 0,
        items[0].key() == c,
        forall|j: int| 1 <= j < items.len() ==> items[j].key() != c,
    ensures
        page_survivors(items, Some(c), f) == page_survivors(items.drop_first(), None, f),
    decreases items.len(),
{
    if items.len() == 1 {
        assert(items.last() == items[0]);
        assert(!survives(items.last(), Some(c), f));
        assert(page_survivors(items.drop_last(), Some(c), f) =~= Seq::<T>::empty());
        assert(items.drop_first() =~= Seq::<T>::empty());
    } else {
        lemma_cursor_overlap_guard(items.drop_last(), c, f);
        assert(items.drop_last()[0] == items[0]);
        assert(items.last() == items[items.len() - 1]);
        assert(items.last().key() != c);
        assert(survives(items.last(), Some(c), f) == survives(items.last(), None, f));
        assert(items.drop_last().drop_first() =~= items.drop_first().drop_last());
        assert(items.drop_first().last() == items.last());
    }
}

} // verus!
