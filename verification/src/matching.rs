//! Finding feeds by an approximate identifier (title, slug or URL).
use vstd::prelude::*;
use crate::library::{FeedCategory, FeedItem, FeedLibrary, LibraryStore, UpdateProgress};

verus! {

/// The smaller of three numbers.
pub open spec fn min3(x: nat, y: nat, z: nat) -> nat {
    if x <= y && x <= z {
        x
    } else if y <= z {
        y
    } else {
        z
    }
}

/// The Levenshtein distance: the minimum number of single-character
/// insertions, deletions and substitutions that turn `a` into `b`. From
/// an empty string it takes as many insertions as the other has
/// characters; otherwise the last characters are matched (a substitution
/// when they differ), or the last of `a` deleted, or the last of `b`
/// inserted, whichever costs least.
pub open spec fn edit_distance(a: Seq<char>, b: Seq<char>) -> nat
    decreases a.len() + b.len(),
{
    if a.len() == 0 {
        b.len()
    } else if b.len() == 0 {
        a.len()
    } else {
        min3(
            edit_distance(a.drop_last(), b.drop_last()) + (if a.last() == b.last() { 0nat } else { 1nat }),
            edit_distance(a.drop_last(), b) + 1,
            edit_distance(a, b.drop_last()) + 1,
        )
    }
}

/// A string is at distance zero from itself.
pub proof fn lemma_edit_distance_self(a: Seq<char>)
    ensures
        edit_distance(a, a) == 0,
    decreases a.len(),
{
    if a.len() > 0 {
        lemma_edit_distance_self(a.drop_last());
    }
}

/// `fuzzt::algorithms::levenshtein`: the Levenshtein distance of the two
/// strings, counted over their characters.
///
/// Trusted: the result is `edit_distance` of the two strings' characters,
/// the minimum number of insertions, deletions and substitutions, as the
/// crate documents it.
#[verifier::external_body]
fn levenshtein(a: &str, b: &str) -> (r: usize)
    ensures
        r as nat == edit_distance(a@, b@),
{
    fuzzt::algorithms::levenshtein(a, b)
}

/// Whether the normalized Levenshtein similarity of `a` and `b` exceeds 0.6:
/// two empty strings have similarity 1, otherwise the similarity is
/// `1 - d / m` for the distance `d` and the larger length `m`, and
/// `1 - d / m > 0.6` holds exactly when `5 d < 2 m`.
pub open spec fn similar(a: Seq<char>, b: Seq<char>) -> bool {
    if a.len() == 0 && b.len() == 0 {
        true
    } else {
        let m = if a.len() >= b.len() { a.len() } else { b.len() };
        5 * edit_distance(a, b) < 2 * m
    }
}

/// Whether a feed matches an identifier by slug, title or URL.
pub open spec fn feed_matches(feed: FeedItem, ident: Seq<char>) -> bool {
    similar(feed.slug@, ident) || similar(feed.title@, ident) || similar(feed.feed_url@, ident)
}

/// The predicate "matches `ident`" on feeds.
pub open spec fn matches_ident(ident: Seq<char>) -> spec_fn(FeedItem) -> bool {
    |f: FeedItem| feed_matches(f, ident)
}

/// The feeds of `cats` that match `ident`, category by category, in order.
pub open spec fn matching_feeds(cats: Seq<FeedCategory>, ident: Seq<char>) -> Seq<FeedItem>
    decreases cats.len(),
{
    if cats.len() == 0 {
        Seq::empty()
    } else {
        matching_feeds(cats.drop_last(), ident) + cats.last().feeds@.filter(matches_ident(ident))
    }
}

/// Whether the normalized Levenshtein similarity of the two strings
/// exceeds 0.6.
pub fn is_similar(a: &str, b: &str) -> (r: bool)
    ensures
        r == similar(a@, b@),
        a@ == b@ ==> r,
{
    let d = levenshtein(a, b);
    proof {
        if a@ == b@ {
            lemma_edit_distance_self(a@);
        }
    }
    if a.is_empty() && b.is_empty() {
        return true;
    }
    let la = a.unicode_len();
    let lb = b.unicode_len();
    let m = if la >= lb { la } else { lb };
    (d as u128) * 5 < (m as u128) * 2
}

/// Whether `feed` matches `ident` by slug, title or URL.
pub fn matches_feed(feed: &FeedItem, ident: &str) -> (r: bool)
    ensures
        r == feed_matches(*feed, ident@),
        feed.slug@ == ident@ || feed.title@ == ident@ || feed.feed_url@ == ident@ ==> r,
{
    let slug = is_similar(feed.slug.as_str(), ident);
    let title = is_similar(feed.title.as_str(), ident);
    let url = is_similar(feed.feed_url.as_str(), ident);
    slug || title || url
}

impl<D: LibraryStore, U: UpdateProgress> FeedLibrary<D, U> {
    /// The feeds whose slug, title or URL is similar to `ident`
    /// (normalized Levenshtein similarity above 0.6), in library order.
    pub fn get_matching_feeds<'a>(&'a self, ident: &str) -> (r: Vec<&'a FeedItem>)
        ensures
            r@.map_values(|p: &FeedItem| *p) == matching_feeds(self.feedcategories@, ident@),
    {
        let mut out: Vec<&'a FeedItem> = Vec::new();
        let cats = &self.feedcategories;
        let mut i: usize = 0;
        while i < cats.len()
            invariant
                i <= cats@.len(),
                cats@ == self.feedcategories@,
                out@.map_values(|p: &FeedItem| *p) == matching_feeds(cats@.take(i as int), ident@),
            decreases cats@.len() - i,
        {
            let feeds = &cats[i].feeds;
            let ghost before = out@.map_values(|p: &FeedItem| *p);
            let mut j: usize = 0;
            while j < feeds.len()
                invariant
                    j <= feeds@.len(),
                    i < cats@.len(),
                    feeds@ == cats@[i as int].feeds@,
                    out@.map_values(|p: &FeedItem| *p) == before + feeds@.take(j as int).filter(matches_ident(ident@)),
                decreases feeds@.len() - j,
            {
                let f = &feeds[j];
                assert(feeds@.take(j + 1).drop_last() =~= feeds@.take(j as int));
                reveal_with_fuel(Seq::filter, 1);
                let ghost pred = matches_ident(ident@);
                let ghost tk = feeds@.take(j + 1);
                assert(tk.last() == feeds@[j as int]);
                assert(tk.filter(pred) == if pred(tk.last()) {
                    tk.drop_last().filter(pred).push(tk.last())
                } else {
                    tk.drop_last().filter(pred)
                });
                if matches_feed(f, ident) {
                    assert(pred(tk.last()));
                    let ghost old_out = out@;
                    out.push(f);
                    assert(out@ == old_out.push(f));
                    assert(out@.map_values(|p: &FeedItem| *p) =~= old_out.map_values(|p: &FeedItem| *p).push(*f));
                    assert(out@.map_values(|p: &FeedItem| *p) =~= before + feeds@.take(j + 1).filter(matches_ident(ident@)));
                } else {
                    assert(out@.map_values(|p: &FeedItem| *p) =~= before + feeds@.take(j + 1).filter(matches_ident(ident@)));
                }
                j = j + 1;
            }
            assert(feeds@.take(j as int) =~= feeds@);
            assert(cats@.take(i + 1).drop_last() =~= cats@.take(i as int));
            i = i + 1;
        }
        assert(cats@.take(i as int) =~= cats@);
        out
    }
}

} // verus!
