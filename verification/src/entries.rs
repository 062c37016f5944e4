//! Ordering feed entries newest first, and gathering the entries of a
//! category or a feed from the store.
use vstd::prelude::*;
use crate::text::str_eq;
use crate::library::{entry_path, paths_of, FeedCategory, FeedEntry, FeedItem, FeedLibrary, LibraryStore, UpdateProgress};

verus! {

broadcast use vstd::seq_lib::group_filter_ensures;

/// Whether one of the first `upto` categories is titled `title` and holds a
/// feed.
pub open spec fn has_feeds_titled(cats: Seq<crate::library::FeedCategory>, title: Seq<char>, upto: int) -> bool {
    exists|k: int| 0 <= k < upto && #[trigger] cats[k].title@ == title && cats[k].feeds@.len() > 0
}

/// Whether `a` was published strictly before `b`.
pub open spec fn older(a: FeedEntry, b: FeedEntry) -> bool {
    a.date < b.date || (a.date == b.date && a.date_nanos < b.date_nanos)
}

/// The entries published at the given time.
pub open spec fn at_time(date: i64, nanos: u32) -> spec_fn(FeedEntry) -> bool {
    |e: FeedEntry| e.date == date && e.date_nanos == nanos
}

/// Whether the entries run from newest to oldest.
pub open spec fn newest_first(s: Seq<FeedEntry>) -> bool {
    forall|i: int, j: int| 0 <= i < j < s.len() ==> !older(#[trigger] s[i], #[trigger] s[j])
}

/// Whether `out` holds the entries of `inp`, with the entries of each
/// publication time in the same order as in `inp`.
pub open spec fn same_per_time(out: Seq<FeedEntry>, inp: Seq<FeedEntry>) -> bool {
    forall|d: i64, n: u32| #[trigger] out.filter(at_time(d, n)) == inp.filter(at_time(d, n))
}

/// `inp` ordered from newest to oldest, entries of the same time keeping
/// their order (a stable sort, as `sort_by_key` with the reversed date).
pub open spec fn is_newest_first_of(out: Seq<FeedEntry>, inp: Seq<FeedEntry>) -> bool {
    newest_first(out) && same_per_time(out, inp)
}

/// Filtering a sequence with an element inserted.
proof fn lemma_filter_insert(s: Seq<FeedEntry>, p: int, e: FeedEntry, pred: spec_fn(FeedEntry) -> bool)
    requires
        0 <= p <= s.len(),
    ensures
        s.insert(p, e).filter(pred) == s.take(p).filter(pred) + seq![e].filter(pred) + s.skip(p).filter(pred),
        s.filter(pred) == s.take(p).filter(pred) + s.skip(p).filter(pred),
{
    assert(s.insert(p, e) =~= s.take(p) + seq![e] + s.skip(p));
    assert(s =~= s.take(p) + s.skip(p));
    Seq::filter_distributes_over_add(s.take(p) + seq![e], s.skip(p), pred);
    Seq::filter_distributes_over_add(s.take(p), seq![e], pred);
    Seq::filter_distributes_over_add(s.take(p), s.skip(p), pred);
}

/// A filter that keeps nothing of `s` gives the empty sequence.
proof fn lemma_filter_none(s: Seq<FeedEntry>, pred: spec_fn(FeedEntry) -> bool)
    requires
        forall|k: int| 0 <= k < s.len() ==> !pred(#[trigger] s[k]),
    ensures
        s.filter(pred) =~= Seq::<FeedEntry>::empty(),
{
    s.lemma_filter_len(pred);
    if s.filter(pred).len() > 0 {
        let x = s.filter(pred)[0];
        s.lemma_filter_pred(pred, 0);
        assert(s.filter(pred).contains(x));
        s.lemma_filter_contains_rev(pred, x);
        let k = choose|k: int| 0 <= k < s.len() && s[k] == x;
        assert(!pred(s[k]));
    }
}

/// Nothing but nothing has the same entries per time as nothing.
proof fn lemma_same_per_time_of_nothing(out: Seq<FeedEntry>, inp: Seq<FeedEntry>)
    requires
        same_per_time(out, inp),
        inp.len() == 0,
    ensures
        out.len() == 0,
{
    if out.len() > 0 {
        let e = out[0];
        let pred = at_time(e.date, e.date_nanos);
        assert(out.filter(pred) == inp.filter(pred));
        lemma_filter_none(inp, pred);
        out.lemma_filter_contains(pred, 0);
        assert(out.filter(pred).len() > 0);
    }
}

/// A newest-first order of a list holds the same entries as the list.
pub proof fn lemma_newest_first_same_entries(out: Seq<FeedEntry>, inp: Seq<FeedEntry>)
    requires
        is_newest_first_of(out, inp),
    ensures
        forall|i: int| 0 <= i < out.len() ==> inp.contains(#[trigger] out[i]),
        forall|k: int| 0 <= k < inp.len() ==> out.contains(#[trigger] inp[k]),
{
    assert forall|i: int| 0 <= i < out.len() implies inp.contains(#[trigger] out[i]) by {
        let e = out[i];
        let pred = at_time(e.date, e.date_nanos);
        out.lemma_filter_contains(pred, i);
        assert(out.filter(pred) == inp.filter(pred));
        inp.lemma_filter_contains_rev(pred, e);
    }
    assert forall|k: int| 0 <= k < inp.len() implies out.contains(#[trigger] inp[k]) by {
        let e = inp[k];
        let pred = at_time(e.date, e.date_nanos);
        inp.lemma_filter_contains(pred, k);
        assert(out.filter(pred) == inp.filter(pred));
        out.lemma_filter_contains_rev(pred, e);
    }
}

/// A newest-first order of a list holds the entries of the same files.
pub proof fn lemma_newest_first_same_paths(out: Seq<FeedEntry>, inp: Seq<FeedEntry>)
    requires
        is_newest_first_of(out, inp),
    ensures
        paths_of(out) == paths_of(inp),
{
    lemma_newest_first_same_entries(out, inp);
    assert forall|p: Seq<char>| paths_of(out).contains(p) implies paths_of(inp).contains(p) by {
        let i = choose|i: int| 0 <= i < out.len() && entry_path(#[trigger] out[i]) == p;
        assert(inp.contains(out[i]));
        let k = choose|k: int| 0 <= k < inp.len() && inp[k] == out[i];
        assert(entry_path(inp[k]) == p);
    }
    assert forall|p: Seq<char>| paths_of(inp).contains(p) implies paths_of(out).contains(p) by {
        let k = choose|k: int| 0 <= k < inp.len() && entry_path(#[trigger] inp[k]) == p;
        assert(out.contains(inp[k]));
        let i = choose|i: int| 0 <= i < out.len() && out[i] == inp[k];
        assert(entry_path(out[i]) == p);
    }
    assert(paths_of(out) =~= paths_of(inp));
}

/// The empty list is the newest-first order of the empty list.
proof fn lemma_nothing_is_newest_first_of_nothing(s: Seq<FeedEntry>)
    requires
        s.len() == 0,
    ensures
        is_newest_first_of(s, Seq::empty()),
{
    assert forall|d: i64, n: u32| #[trigger] s.filter(at_time(d, n)) == Seq::<FeedEntry>::empty().filter(
        at_time(d, n),
    ) by {
        lemma_filter_none(s, at_time(d, n));
        lemma_filter_none(Seq::<FeedEntry>::empty(), at_time(d, n));
    }
}

/// Orders entries from newest to oldest, keeping the order of entries
/// published at the same time.
pub fn sort_newest_first(entries: Vec<FeedEntry>) -> (r: Vec<FeedEntry>)
    ensures
        is_newest_first_of(r@, entries@),
{
    let mut out: Vec<FeedEntry> = Vec::new();
    let mut rest = entries;
    let ghost inp = rest@;
    let n = rest.len();
    let mut taken: Vec<FeedEntry> = Vec::new();
    while rest.len() > 0
        invariant
            n == inp.len(),
            taken@.len() + rest@.len() == n,
            inp == taken@ + rest@,
            newest_first(out@),
            same_per_time(out@, taken@),
        decreases rest@.len(),
    {
        let e = rest.remove(0);
        let ghost rest_before = rest@;
        let mut p: usize = 0;
        while p < out.len() && !(out[p].date < e.date || (out[p].date == e.date && out[p].date_nanos < e.date_nanos))
            invariant
                p <= out@.len(),
                forall|k: int| 0 <= k < p ==> !older(#[trigger] out@[k], e),
            decreases out@.len() - p,
        {
            p = p + 1;
        }
        proof {
            // everything from p on is older than e
            assert forall|k: int| p <= k < out@.len() implies older(#[trigger] out@[k], e) by {
                if k > p {
                    assert(!older(out@[p as int], out@[k]));
                }
            }
        }
        let ghost before = out@;
        let ghost taken_before = taken@;
        out.insert(p, e.clone_entry());
        taken.push(e);
        proof {
            assert(out@ == before.insert(p as int, e));
            // order
            assert forall|i1: int, j1: int| 0 <= i1 < j1 < out@.len() implies !older(
                #[trigger] out@[i1],
                #[trigger] out@[j1],
            ) by {
                if j1 < p {
                    assert(out@[i1] == before[i1] && out@[j1] == before[j1]);
                } else if j1 == p {
                    assert(out@[i1] == before[i1]);
                } else if i1 < p {
                    assert(out@[i1] == before[i1] && out@[j1] == before[j1 - 1]);
                    assert(older(before[j1 - 1], e));
                } else if i1 == p {
                    assert(out@[j1] == before[j1 - 1]);
                    assert(older(before[j1 - 1], e));
                } else {
                    assert(out@[i1] == before[i1 - 1] && out@[j1] == before[j1 - 1]);
                }
            }
            // per-time order
            assert forall|d: i64, nn: u32| #[trigger] out@.filter(at_time(d, nn)) == taken@.filter(at_time(d, nn)) by {
                let pred = at_time(d, nn);
                lemma_filter_insert(before, p as int, e, pred);
                reveal_with_fuel(Seq::filter, 2);
                assert(taken@.drop_last() =~= taken_before);
                assert(seq![e].drop_last() =~= Seq::<FeedEntry>::empty());
                if pred(e) {
                    assert forall|k: int| 0 <= k < before.skip(p as int).len() implies !pred(
                        #[trigger] before.skip(p as int)[k],
                    ) by {
                        assert(before.skip(p as int)[k] == before[p + k]);
                        assert(older(before[p + k], e));
                    }
                    lemma_filter_none(before.skip(p as int), pred);
                    assert(seq![e].filter(pred) =~= seq![e]);
                    assert(out@.filter(pred) =~= before.filter(pred).push(e));
                } else {
                    assert(seq![e].filter(pred) =~= Seq::<FeedEntry>::empty());
                    assert(out@.filter(pred) =~= before.filter(pred));
                }
            }
            assert(inp =~= taken@ + rest@);
        }
    }
    proof {
        assert(taken@ =~= inp);
    }
    out
}

/// The entries the store holds for the feeds `feeds` of the category
/// titled `title`, feed after feed.
pub open spec fn feeds_entries<D: LibraryStore>(data: D, title: Seq<char>, feeds: Seq<FeedItem>) -> Seq<FeedEntry>
    decreases feeds.len(),
{
    if feeds.len() == 0 {
        Seq::empty()
    } else {
        feeds_entries(data, title, feeds.drop_last()) + data.feed_entries(title, feeds.last().slug@)
    }
}

/// The entries the store holds for every feed of the categories titled
/// `title`, category after category.
pub open spec fn category_entries<D: LibraryStore>(data: D, cats: Seq<FeedCategory>, title: Seq<char>) -> Seq<
    FeedEntry,
>
    decreases cats.len(),
{
    if cats.len() == 0 {
        Seq::empty()
    } else {
        category_entries(data, cats.drop_last(), title) + if cats.last().title@ == title {
            feeds_entries(data, title, cats.last().feeds@)
        } else {
            Seq::empty()
        }
    }
}

/// The entries the store holds for the first feed with slug `slug`,
/// category by category; none when no feed has that slug.
pub open spec fn slug_entries<D: LibraryStore>(data: D, cats: Seq<FeedCategory>, slug: Seq<char>) -> Seq<FeedEntry>
    decreases cats.len(),
{
    if cats.len() == 0 {
        Seq::empty()
    } else if exists|j: int| 0 <= j < cats[0].feeds@.len() && #[trigger] cats[0].feeds@[j].slug@ == slug {
        data.feed_entries(cats[0].title@, slug)
    } else {
        slug_entries(data, cats.drop_first(), slug)
    }
}

/// Whether the store can load every feed of the categories titled `title`.
pub open spec fn category_loads<D: LibraryStore>(data: D, cats: Seq<FeedCategory>, title: Seq<char>) -> bool {
    forall|i: int, j: int|
        #![trigger cats[i].feeds@[j]]
        0 <= i < cats.len() && cats[i].title@ == title && 0 <= j < cats[i].feeds@.len() ==> data.loads(
            title,
            cats[i].feeds@[j].slug@,
        )
}

/// Whether the store can load the first feed with slug `slug`, category by
/// category; so it can when no feed has that slug.
pub open spec fn slug_loads<D: LibraryStore>(data: D, cats: Seq<FeedCategory>, slug: Seq<char>) -> bool
    decreases cats.len(),
{
    if cats.len() == 0 {
        true
    } else if exists|j: int| 0 <= j < cats[0].feeds@.len() && #[trigger] cats[0].feeds@[j].slug@ == slug {
        data.loads(cats[0].title@, slug)
    } else {
        slug_loads(data, cats.drop_first(), slug)
    }
}

impl<D: LibraryStore, U: UpdateProgress> FeedLibrary<D, U> {
    /// The entries of every feed of the categories titled `categorytitle`,
    /// newest first; the first store error ends the search.
    pub fn get_feed_entries_by_category(&self, categorytitle: &str) -> (r: Result<Vec<FeedEntry>, D::Error>)
        ensures
            r is Ok <==> category_loads(self.data, self.feedcategories@, categorytitle@),
            r matches Ok(v) ==> is_newest_first_of(
                v@,
                category_entries(self.data, self.feedcategories@, categorytitle@),
            ),
            !has_feeds_titled(self.feedcategories@, categorytitle@, self.feedcategories@.len() as int) ==> (r matches Ok(
                v,
            ) && v@.len() == 0),
    {
        let mut entries: Vec<FeedEntry> = Vec::new();
        let mut i: usize = 0;
        while i < self.feedcategories.len()
            invariant
                i <= self.feedcategories@.len(),
                entries@.len() > 0 ==> has_feeds_titled(self.feedcategories@, categorytitle@, i as int),
                entries@ == category_entries(self.data, self.feedcategories@.take(i as int), categorytitle@),
                forall|i2: int, j2: int|
                    #![trigger self.feedcategories@[i2].feeds@[j2]]
                    0 <= i2 < i && self.feedcategories@[i2].title@ == categorytitle@ && 0 <= j2
                        < self.feedcategories@[i2].feeds@.len() ==> self.data.loads(
                        categorytitle@,
                        self.feedcategories@[i2].feeds@[j2].slug@,
                    ),
            decreases self.feedcategories@.len() - i,
        {
            let category = &self.feedcategories[i];
            assert(self.feedcategories@.take(i + 1).drop_last() =~= self.feedcategories@.take(i as int));
            if str_eq(category.title.as_str(), categorytitle) {
                let ghost base = entries@;
                let mut j: usize = 0;
                while j < category.feeds.len()
                    invariant
                        i < self.feedcategories@.len(),
                        *category == self.feedcategories@[i as int],
                        category.title@ == categorytitle@,
                        j <= category.feeds@.len(),
                        entries@.len() > 0 ==> has_feeds_titled(self.feedcategories@, categorytitle@, i as int) || j
                            > 0,
                        base == category_entries(self.data, self.feedcategories@.take(i as int), categorytitle@),
                        entries@ == base + feeds_entries(self.data, categorytitle@, category.feeds@.take(j as int)),
                        forall|i2: int, j2: int|
                            #![trigger self.feedcategories@[i2].feeds@[j2]]
                            0 <= i2 < i && self.feedcategories@[i2].title@ == categorytitle@ && 0 <= j2
                                < self.feedcategories@[i2].feeds@.len() ==> self.data.loads(
                                categorytitle@,
                                self.feedcategories@[i2].feeds@[j2].slug@,
                            ),
                        forall|j2: int|
                            0 <= j2 < j ==> self.data.loads(categorytitle@, #[trigger] category.feeds@[j2].slug@),
                    decreases category.feeds@.len() - j,
                {
                    match self.data.load_feed_entries(category, &category.feeds[j]) {
                        Ok(loaded) => {
                            let mut loaded = loaded;
                            entries.append(&mut loaded);
                            assert(category.feeds@.take(j + 1).drop_last() =~= category.feeds@.take(j as int));
                            assert(entries@ =~= base + feeds_entries(
                                self.data,
                                categorytitle@,
                                category.feeds@.take(j + 1),
                            ));
                        },
                        Err(e) => {
                            assert(self.feedcategories@[i as int].feeds@[j as int] == category.feeds@[j as int]);
                            return Err(e);
                        },
                    }
                    j = j + 1;
                }
                proof {
                    assert forall|i2: int, j2: int|
                        #![trigger self.feedcategories@[i2].feeds@[j2]]
                        0 <= i2 < i + 1 && self.feedcategories@[i2].title@ == categorytitle@ && 0 <= j2
                            < self.feedcategories@[i2].feeds@.len() implies self.data.loads(
                        categorytitle@,
                        self.feedcategories@[i2].feeds@[j2].slug@,
                    ) by {
                        if i2 == i {
                            assert(category.feeds@[j2] == self.feedcategories@[i2].feeds@[j2]);
                        }
                    }
                    if j > 0 {
                        assert(self.feedcategories@[i as int].feeds@.len() > 0);
                    }
                    assert(category.feeds@.take(j as int) =~= category.feeds@);
                    assert(entries@ =~= category_entries(
                        self.data,
                        self.feedcategories@.take(i + 1),
                        categorytitle@,
                    ));
                }
            } else {
                assert(entries@ =~= category_entries(self.data, self.feedcategories@.take(i + 1), categorytitle@));
            }
            i = i + 1;
        }
        assert(self.feedcategories@.take(i as int) =~= self.feedcategories@);
        let r = sort_newest_first(entries);
        proof {
            if entries@.len() == 0 {
                lemma_same_per_time_of_nothing(r@, entries@);
            }
        }
        Ok(r)
    }

    /// The entries of the first feed with slug `slug`, newest first; none
    /// when no feed has that slug.
    pub fn get_feed_entries_by_item_slug(&self, slug: &str) -> (r: Result<Vec<FeedEntry>, D::Error>)
        ensures
            r is Ok <==> slug_loads(self.data, self.feedcategories@, slug@),
            r matches Ok(v) ==> is_newest_first_of(v@, slug_entries(self.data, self.feedcategories@, slug@)),
            (forall|i: int, j: int|
                0 <= i < self.feedcategories@.len() && 0 <= j < self.feedcategories@[i].feeds@.len()
                    ==> #[trigger] self.feedcategories@[i].feeds@[j].slug@ != slug@) ==> (r matches Ok(v) && v@.len()
                == 0),
    {
        let mut i: usize = 0;
        assert(self.feedcategories@.skip(0) =~= self.feedcategories@);
        while i < self.feedcategories.len()
            invariant
                i <= self.feedcategories@.len(),
                forall|i2: int, j2: int|
                    0 <= i2 < i && 0 <= j2 < self.feedcategories@[i2].feeds@.len()
                        ==> #[trigger] self.feedcategories@[i2].feeds@[j2].slug@ != slug@,
                slug_entries(self.data, self.feedcategories@, slug@) == slug_entries(
                    self.data,
                    self.feedcategories@.skip(i as int),
                    slug@,
                ),
                slug_loads(self.data, self.feedcategories@, slug@) == slug_loads(
                    self.data,
                    self.feedcategories@.skip(i as int),
                    slug@,
                ),
            decreases self.feedcategories@.len() - i,
        {
            let category = &self.feedcategories[i];
            assert(self.feedcategories@.skip(i as int)[0] == self.feedcategories@[i as int]);
            let mut j: usize = 0;
            while j < category.feeds.len()
                invariant
                    i < self.feedcategories@.len(),
                    *category == self.feedcategories@[i as int],
                    j <= category.feeds@.len(),
                    forall|i2: int, j2: int|
                        0 <= i2 < i && 0 <= j2 < self.feedcategories@[i2].feeds@.len()
                            ==> #[trigger] self.feedcategories@[i2].feeds@[j2].slug@ != slug@,
                    forall|j2: int| 0 <= j2 < j ==> #[trigger] category.feeds@[j2].slug@ != slug@,
                    slug_entries(self.data, self.feedcategories@, slug@) == slug_entries(
                        self.data,
                        self.feedcategories@.skip(i as int),
                        slug@,
                    ),
                    slug_loads(self.data, self.feedcategories@, slug@) == slug_loads(
                        self.data,
                        self.feedcategories@.skip(i as int),
                        slug@,
                    ),
                    self.feedcategories@.skip(i as int)[0] == self.feedcategories@[i as int],
                decreases category.feeds@.len() - j,
            {
                let feed = &category.feeds[j];
                if str_eq(feed.slug.as_str(), slug) {
                    assert(self.feedcategories@.skip(i as int)[0].feeds@[j as int].slug@ == slug@);
                    return match self.data.load_feed_entries(category, feed) {
                        Ok(loaded) => Ok(sort_newest_first(loaded)),
                        Err(e) => Err(e),
                    };
                }
                j = j + 1;
            }
            assert(self.feedcategories@.skip(i as int).drop_first() =~= self.feedcategories@.skip(i + 1));
            i = i + 1;
        }
        assert(self.feedcategories@.skip(i as int).len() == 0);
        let r: Vec<FeedEntry> = Vec::new();
        proof {
            lemma_nothing_is_newest_first_of_nothing(r@);
        }
        Ok(r)
    }
}

} // verus!
