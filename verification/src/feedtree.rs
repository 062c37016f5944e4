//! The navigation tree of the main screen: one heading per category, one
//! line per feed, and a "Read Later" heading after a separator when that
//! list has entries; with the selection that moves over it.
use vstd::prelude::*;
use crate::library::{FeedCategory, FeedEntry, FeedItem, FeedLibrary, LibraryStore, UpdateProgress};
use crate::text::{decimal, decimal_string};

verus! {

pub enum FeedItemInfo {
    /// Represents the category title
    Category(String),
    /// Represents an item in the feed tree with a title, category, and slug
    Item(String, String, String),
    /// Represents a separator in the menu
    Separator,
    /// Represents the Read Later category
    ReadLater,
}

/// The selection of a list: the selected index, if any, and the index of
/// the first line shown.
pub struct ListSelection {
    pub offset: usize,
    pub selected: Option<usize>,
}

impl ListSelection {
    /// No selection, showing from the top.
    pub fn new() -> (r: ListSelection)
        ensures
            r.offset == 0,
            r.selected is None,
    {
        ListSelection { offset: 0, selected: None }
    }

    /// The same selection state with `selected` as the selected index.
    pub fn with_selected(self, selected: Option<usize>) -> (r: ListSelection)
        ensures
            r.offset == self.offset,
            r.selected == selected,
    {
        ListSelection { offset: self.offset, selected }
    }

    pub fn selected(&self) -> (r: Option<usize>)
        ensures
            r == self.selected,
    {
        self.selected
    }

    /// Selects `index`; clearing the selection also scrolls back to the top.
    pub fn select(&mut self, index: Option<usize>)
        ensures
            final(self).selected == index,
            final(self).offset == if index is None { 0 } else { old(self).offset },
    {
        self.selected = index;
        if index.is_none() {
            self.offset = 0;
        }
    }

    /// Selects the following index, or the first one when none is selected.
    pub fn select_next(&mut self)
        ensures
            final(self).selected == Some(match old(self).selected {
                Some(i) => if i < usize::MAX { (i + 1) as usize } else { usize::MAX },
                None => 0usize,
            }),
            final(self).offset == old(self).offset,
    {
        let next = match self.selected {
            Some(i) => if i < usize::MAX { i + 1 } else { usize::MAX },
            None => 0,
        };
        self.select(Some(next));
    }

    /// Selects the preceding index, or the last possible one when none is
    /// selected.
    pub fn select_previous(&mut self)
        ensures
            final(self).selected == Some(match old(self).selected {
                Some(i) => if i > 0 { (i - 1) as usize } else { 0usize },
                None => usize::MAX,
            }),
            final(self).offset == old(self).offset,
    {
        let previous = match self.selected {
            Some(i) => if i > 0 { i - 1 } else { 0 },
            None => usize::MAX,
        };
        self.select(Some(previous));
    }

    /// Selects the first index.
    pub fn select_first(&mut self)
        ensures
            final(self).selected == Some(0usize),
            final(self).offset == old(self).offset,
    {
        self.select(Some(0));
    }

    /// Selects the last possible index (to be clamped against the list).
    pub fn select_last(&mut self)
        ensures
            final(self).selected == Some(usize::MAX),
            final(self).offset == old(self).offset,
    {
        self.select(Some(usize::MAX));
    }
}

pub open spec fn is_separator(item: FeedItemInfo) -> bool {
    item is Separator
}

/// A line that starts a section: a category or the Read Later list.
pub open spec fn is_heading(item: FeedItemInfo) -> bool {
    item is Category || item is ReadLater
}

/// The lines of one category: its heading, then one line per feed.
pub open spec fn category_items(c: FeedCategory) -> Seq<FeedItemInfo> {
    seq![FeedItemInfo::Category(c.title)] + c.feeds@.map_values(
        |f: FeedItem| FeedItemInfo::Item(f.title, c.title, f.slug),
    )
}

/// The lines of all categories, in order.
pub open spec fn tree_items(cats: Seq<FeedCategory>) -> Seq<FeedItemInfo>
    decreases cats.len(),
{
    if cats.len() == 0 {
        Seq::empty()
    } else {
        tree_items(cats.drop_last()) + category_items(cats.last())
    }
}

/// The lines that close the tree: a separator and the Read Later heading
/// when that list has entries, nothing otherwise.
pub open spec fn read_later_items(count: usize) -> Seq<FeedItemInfo> {
    if count > 0 {
        seq![FeedItemInfo::Separator, FeedItemInfo::ReadLater]
    } else {
        Seq::empty()
    }
}

/// The selection after "select next": from the selected index (or before
/// the first line when none is selected) move one line down, and keep
/// moving while on a separator; nothing moves from the last line.
pub open spec fn next_selection(items: Seq<FeedItemInfo>, sel: Option<usize>) -> Option<usize>
    decreases items.len() - (match sel { Some(i) => i as int, None => 0int }),
        (if sel is None { 1int } else { 0int }),
{
    let s: int = match sel { Some(i) => i as int, None => 0 };
    if items.len() == 0 || items.len() > usize::MAX || !(s < items.len() - 1) {
        sel
    } else {
        let n: int = match sel { Some(i) => i + 1, None => 0 };
        if is_separator(items[n]) {
            next_selection(items, Some(n as usize))
        } else {
            Some(n as usize)
        }
    }
}

/// The selection after "select previous": a selection past the end is
/// first brought back to the last line; then move one line up, and keep
/// moving while on a separator; nothing moves from the first line or
/// without a selection.
pub open spec fn previous_selection(items: Seq<FeedItemInfo>, sel: Option<usize>) -> Option<usize>
    decreases (match sel { Some(i) => i as int, None => 0int }),
{
    if items.len() == 0 || items.len() > usize::MAX {
        sel
    } else {
        let sel1: Option<usize> = match sel {
            Some(i) => if i >= items.len() { Some((items.len() - 1) as usize) } else { sel },
            None => sel,
        };
        let s: int = match sel1 { Some(i) => i as int, None => 0 };
        if s > 0 {
            if is_separator(items[s - 1]) {
                previous_selection(items, Some((s - 1) as usize))
            } else {
                Some((s - 1) as usize)
            }
        } else {
            sel1
        }
    }
}

/// The first heading at or after index `from`.
pub open spec fn heading_from(items: Seq<FeedItemInfo>, from: int) -> Option<int>
    decreases items.len() - from,
{
    if from < 0 || from >= items.len() {
        None
    } else if is_heading(items[from]) {
        Some(from)
    } else {
        heading_from(items, from + 1)
    }
}

/// The last heading before index `upto`.
pub open spec fn heading_before(items: Seq<FeedItemInfo>, upto: int) -> Option<int>
    decreases upto,
{
    if upto <= 0 || upto > items.len() {
        None
    } else if is_heading(items[upto - 1]) {
        Some(upto - 1)
    } else {
        heading_before(items, upto - 1)
    }
}

/// The value recorded last for a (category, slug) pair.
pub open spec fn unread_lookup(counts: Seq<(String, String, u16)>, category: Seq<char>, slug: Seq<char>) -> Option<u16>
    decreases counts.len(),
{
    if counts.len() == 0 {
        None
    } else if counts.last().0@ == category && counts.last().1@ == slug {
        Some(counts.last().2)
    } else {
        unread_lookup(counts.drop_last(), category, slug)
    }
}

/// The (category, slug) pair of an unread record.
pub open spec fn pair_of(record: (String, String, u16)) -> (Seq<char>, Seq<char>) {
    (record.0@, record.1@)
}

/// Whether no (category, slug) pair has two unread records.
pub open spec fn no_repeated_pairs(counts: Seq<(String, String, u16)>) -> bool {
    forall|i: int, j: int| 0 <= i < j < counts.len() ==> pair_of(#[trigger] counts[i]) != pair_of(#[trigger] counts[j])
}

/// Without repeated pairs, the lookup finds the one record of a pair, or
/// none when no record has it.
proof fn lemma_lookup_unique(counts: Seq<(String, String, u16)>, category: Seq<char>, slug: Seq<char>)
    requires
        no_repeated_pairs(counts),
    ensures
        forall|k: int|
            0 <= k < counts.len() && pair_of(#[trigger] counts[k]) == (category, slug) ==> unread_lookup(
                counts,
                category,
                slug,
            ) == Some(counts[k].2),
        (forall|k: int| 0 <= k < counts.len() ==> pair_of(#[trigger] counts[k]) != (category, slug)) ==> unread_lookup(
            counts,
            category,
            slug,
        ) is None,
    decreases counts.len(),
{
    if counts.len() > 0 {
        let rest = counts.drop_last();
        assert(no_repeated_pairs(rest)) by {
            assert forall|i: int, j: int| 0 <= i < j < rest.len() implies pair_of(#[trigger] rest[i]) != pair_of(
                #[trigger] rest[j],
            ) by {
                assert(rest[i] == counts[i] && rest[j] == counts[j]);
            }
        }
        lemma_lookup_unique(rest, category, slug);
        assert forall|k: int|
            0 <= k < counts.len() && pair_of(#[trigger] counts[k]) == (category, slug) implies unread_lookup(
            counts,
            category,
            slug,
        ) == Some(counts[k].2) by {
            if k < counts.len() - 1 {
                assert(pair_of(counts[k]) != pair_of(counts[counts.len() - 1]));
                assert(rest[k] == counts[k]);
            }
        }
        if forall|k: int| 0 <= k < counts.len() ==> pair_of(#[trigger] counts[k]) != (category, slug) {
            assert(pair_of(counts[counts.len() - 1]) != (category, slug));
            assert forall|k: int| 0 <= k < rest.len() implies pair_of(#[trigger] rest[k]) != (category, slug) by {
                assert(rest[k] == counts[k]);
            }
        }
    }
}

/// Records the unread count `n` of the (`category`, `slug`) pair, replacing
/// an earlier record of the pair.
fn record_unread(counts: &mut Vec<(String, String, u16)>, category: &String, slug: &String, n: u16)
    requires
        no_repeated_pairs(old(counts)@),
    ensures
        no_repeated_pairs(final(counts)@),
        forall|c: Seq<char>, s: Seq<char>|
            #[trigger] unread_lookup(final(counts)@, c, s) == if (c, s) == (category@, slug@) {
                Some(n)
            } else {
                unread_lookup(old(counts)@, c, s)
            },
        forall|k: int|
            0 <= k < final(counts)@.len() && pair_of(#[trigger] final(counts)@[k]) == (category@, slug@)
                ==> final(counts)@[k].2 == n,
        forall|k: int|
            0 <= k < final(counts)@.len() ==> pair_of(#[trigger] final(counts)@[k]) == (category@, slug@) || exists|
                j: int,
            |
                0 <= j < old(counts)@.len() && #[trigger] old(counts)@[j] == final(counts)@[k],
{
    let mut k: usize = 0;
    while k < counts.len()
        invariant
            k <= counts@.len(),
            counts@ == old(counts)@,
            no_repeated_pairs(counts@),
            forall|i: int| 0 <= i < k ==> pair_of(#[trigger] counts@[i]) != (category@, slug@),
        decreases counts@.len() - k,
    {
        if crate::text::str_eq(counts[k].0.as_str(), category.as_str()) && crate::text::str_eq(
            counts[k].1.as_str(),
            slug.as_str(),
        ) {
            let ghost before = counts@;
            counts.set(k, (category.clone(), slug.clone(), n));
            proof {
                let after = counts@;
                assert(pair_of(after[k as int]) == pair_of(before[k as int]));
                assert forall|i: int, j: int| 0 <= i < j < after.len() implies pair_of(#[trigger] after[i])
                    != pair_of(#[trigger] after[j]) by {
                    assert(pair_of(after[i]) == pair_of(before[i]));
                    assert(pair_of(after[j]) == pair_of(before[j]));
                    assert(pair_of(before[i]) != pair_of(before[j]));
                }
                assert forall|c: Seq<char>, s: Seq<char>|
                    #[trigger] unread_lookup(after, c, s) == if (c, s) == (category@, slug@) {
                        Some(n)
                    } else {
                        unread_lookup(before, c, s)
                    } by {
                    lemma_lookup_unique(after, c, s);
                    lemma_lookup_unique(before, c, s);
                    if (c, s) != (category@, slug@) {
                        if exists|q: int| 0 <= q < before.len() && pair_of(#[trigger] before[q]) == (c, s) {
                            let q = choose|q: int| 0 <= q < before.len() && pair_of(#[trigger] before[q]) == (c, s);
                            assert(q != k);
                            assert(after[q] == before[q]);
                        } else {
                            assert forall|q: int| 0 <= q < after.len() implies pair_of(#[trigger] after[q]) != (
                                c,
                                s,
                            ) by {
                                if q != k {
                                    assert(after[q] == before[q]);
                                }
                            }
                        }
                    } else {
                        assert(pair_of(after[k as int]) == (c, s));
                    }
                }
                assert forall|q: int| 0 <= q < after.len() implies pair_of(#[trigger] after[q]) == (category@, slug@)
                    || exists|j: int| 0 <= j < before.len() && #[trigger] before[j] == after[q] by {
                    if q != k {
                        assert(before[q] == after[q]);
                    }
                }
            }
            return;
        }
        k = k + 1;
    }
    let ghost before = counts@;
    counts.push((category.clone(), slug.clone(), n));
    proof {
        let after = counts@;
        assert(after.drop_last() =~= before);
        assert forall|i: int, j: int| 0 <= i < j < after.len() implies pair_of(#[trigger] after[i]) != pair_of(
            #[trigger] after[j],
        ) by {
            if j == after.len() - 1 {
                assert(after[i] == before[i]);
            } else {
                assert(after[i] == before[i] && after[j] == before[j]);
            }
        }
        assert forall|q: int| 0 <= q < after.len() implies pair_of(#[trigger] after[q]) == (category@, slug@) || exists|
            j: int,
        | 0 <= j < before.len() && #[trigger] before[j] == after[q] by {
            if q < before.len() {
                assert(before[q] == after[q]);
            }
        }
    }
}

/// Whether the tree holds a feed line of the (category, slug) pair that an
/// unread record names.
pub open spec fn names_feed(items: Seq<FeedItemInfo>, record: (String, String, u16)) -> bool {
    exists|m: int| 0 <= m < items.len() && is_feed_line_of(#[trigger] items[m], record)
}

/// Whether a line is the feed line of the record's (category, slug) pair.
pub open spec fn is_feed_line_of(item: FeedItemInfo, record: (String, String, u16)) -> bool {
    match item {
        FeedItemInfo::Item(_, c, s) => c@ == record.0@ && s@ == record.1@,
        _ => false,
    }
}

pub struct FeedTreeState {
    pub treeitems: Vec<FeedItemInfo>,
    pub listatate: ListSelection,
    pub last_generation: u64,
    /// Unread counts per (category title, feed slug), one record per pair
    /// (see `no_repeated_pairs`).
    pub unread_counts: Vec<(String, String, u16)>,
    pub read_later_count: usize,
}

impl Default for FeedTreeState {
    fn default() -> (r: FeedTreeState)
        ensures
            r.treeitems@.len() == 0,
            r.listatate.selected == Some(0usize),
            r.last_generation == u64::MAX,
    {
        FeedTreeState::new()
    }
}

impl FeedTreeState {
    /// An empty tree with the first line selected, that the next `update`
    /// will rebuild.
    pub fn new() -> (r: FeedTreeState)
        ensures
            r.treeitems@.len() == 0,
            r.listatate.selected == Some(0usize),
            r.listatate.offset == 0,
            r.last_generation == u64::MAX,
            r.unread_counts@.len() == 0,
            r.read_later_count == 0,
    {
        FeedTreeState {
            treeitems: Vec::new(),
            listatate: ListSelection::new().with_selected(Some(0)),
            last_generation: u64::MAX,
            unread_counts: Vec::new(),
            read_later_count: 0,
        }
    }

    /// The unread count recorded for a feed, zero when none was.
    pub fn unread_count(&self, category: &str, slug: &str) -> (r: u16)
        ensures
            r == match unread_lookup(self.unread_counts@, category@, slug@) {
                Some(v) => v,
                None => 0,
            },
    {
        let mut i = self.unread_counts.len();
        assert(self.unread_counts@.take(i as int) =~= self.unread_counts@);
        while i > 0
            invariant
                i <= self.unread_counts@.len(),
                unread_lookup(self.unread_counts@, category@, slug@) == unread_lookup(
                    self.unread_counts@.take(i as int),
                    category@,
                    slug@,
                ),
            decreases i,
        {
            let e = &self.unread_counts[i - 1];
            assert(self.unread_counts@.take(i as int).drop_last() =~= self.unread_counts@.take(i - 1));
            if crate::text::str_eq(e.0.as_str(), category) && crate::text::str_eq(e.1.as_str(), slug) {
                return e.2;
            }
            i = i - 1;
        }
        0
    }
}

/// How a line of the tree is drawn: a category heading (in the category's
/// accent, bold), a feed line (in its category's accent), a blank separator,
/// or the Read Later heading.
pub enum TreeLineKind {
    Heading(String),
    Feed(String),
    Blank,
    ReadLater,
}

/// A line of the tree as shown: its text and how it is drawn.
pub struct TreeLine {
    pub text: String,
    pub kind: TreeLineKind,
}

/// How a line of the tree is drawn.
pub open spec fn line_kind(item: FeedItemInfo) -> TreeLineKind {
    match item {
        FeedItemInfo::Category(t) => TreeLineKind::Heading(t),
        FeedItemInfo::Item(_, c, _) => TreeLineKind::Feed(c),
        FeedItemInfo::Separator => TreeLineKind::Blank,
        FeedItemInfo::ReadLater => TreeLineKind::ReadLater,
    }
}

/// The text of a line of the tree: a heading shows its title; a feed its
/// title, with its unread count in brackets when there are unread entries;
/// the Read Later heading its number of entries when there are any.
pub open spec fn line_text(item: FeedItemInfo, counts: Seq<(String, String, u16)>, read_later_count: usize) -> Seq<
    char,
> {
    match item {
        FeedItemInfo::Category(t) => " \u{25CE} "@ + t@,
        FeedItemInfo::Item(t, c, s) => {
            let unread: int = match unread_lookup(counts, c@, s@) {
                Some(v) => v as int,
                None => 0,
            };
            if unread > 0 {
                " \u{1F4E1}  "@ + t@ + " ("@ + decimal(unread as nat) + ")"@
            } else {
                " \u{1F4E1}  "@ + t@
            }
        },
        FeedItemInfo::Separator => Seq::empty(),
        FeedItemInfo::ReadLater => if read_later_count > 0 {
            "\u{1F516} Read Later"@ + " ("@ + decimal(read_later_count as nat) + ")"@
        } else {
            "\u{1F516} Read Later"@
        },
    }
}

/// A feed's line shows the feed's title, followed by its unread count in
/// brackets exactly when the count recorded for the feed is above zero.
pub proof fn lemma_feed_line_shows_unread(
    title: String,
    category: String,
    slug: String,
    counts: Seq<(String, String, u16)>,
    read_later_count: usize,
)
    ensures
        (" \u{1F4E1}  "@ + title@).is_prefix_of(
            line_text(FeedItemInfo::Item(title, category, slug), counts, read_later_count),
        ),
        unread_lookup(counts, category@, slug@) matches Some(n) ==> (n > 0 ==> line_text(
            FeedItemInfo::Item(title, category, slug),
            counts,
            read_later_count,
        ) == " \u{1F4E1}  "@ + title@ + " ("@ + decimal(n as nat) + ")"@),
        !(unread_lookup(counts, category@, slug@) matches Some(n) && n > 0) ==> line_text(
            FeedItemInfo::Item(title, category, slug),
            counts,
            read_later_count,
        ) == " \u{1F4E1}  "@ + title@,
{
    let head = " \u{1F4E1}  "@ + title@;
    let text = line_text(FeedItemInfo::Item(title, category, slug), counts, read_later_count);
    assert(head =~= text.subrange(0, head.len() as int));
}

/// A category's line shows its title after the heading mark; the blank
/// line shows nothing; the Read Later line shows its number of entries in
/// brackets exactly when there are any.
pub proof fn lemma_other_lines(title: String, counts: Seq<(String, String, u16)>, read_later_count: usize)
    ensures
        line_text(FeedItemInfo::Category(title), counts, read_later_count) == " \u{25CE} "@ + title@,
        line_text(FeedItemInfo::Separator, counts, read_later_count).len() == 0,
        read_later_count > 0 ==> line_text(FeedItemInfo::ReadLater, counts, read_later_count)
            == "\u{1F516} Read Later ("@ + decimal(read_later_count as nat) + ")"@,
        read_later_count == 0 ==> line_text(FeedItemInfo::ReadLater, counts, read_later_count)
            == "\u{1F516} Read Later"@,
{
    reveal_strlit("\u{1F516} Read Later");
    reveal_strlit(" (");
    reveal_strlit("\u{1F516} Read Later (");
    if read_later_count > 0 {
        assert(line_text(FeedItemInfo::ReadLater, counts, read_later_count) =~= "\u{1F516} Read Later ("@ + decimal(
            read_later_count as nat,
        ) + ")"@);
    }
}

/// "text (n)"
fn with_count(text: String, n: u64) -> (r: String)
    ensures
        r@ == text@ + " ("@ + decimal(n as nat) + ")"@,
{
    let mut r = text;
    r.append(" (");
    let d = decimal_string(n);
    r.append(d.as_str());
    r.append(")");
    r
}

impl FeedTreeState {
    /// The line shown for the tree line at `index`.
    pub fn get_item(&self, index: usize) -> (r: TreeLine)
        requires
            index < self.treeitems@.len(),
        ensures
            r.text@ == line_text(self.treeitems@[index as int], self.unread_counts@, self.read_later_count),
            r.kind == line_kind(self.treeitems@[index as int]),
    {
        match &self.treeitems[index] {
            FeedItemInfo::Category(t) => {
                let mut text = String::from_str(" \u{25CE} ");
                text.append(t.as_str());
                TreeLine { text, kind: TreeLineKind::Heading(t.clone()) }
            },
            FeedItemInfo::Item(t, c, s) => {
                let unread = self.unread_count(c.as_str(), s.as_str());
                let mut text = String::from_str(" \u{1F4E1}  ");
                text.append(t.as_str());
                let text = if unread > 0 {
                    with_count(text, unread as u64)
                } else {
                    text
                };
                TreeLine { text, kind: TreeLineKind::Feed(c.clone()) }
            },
            FeedItemInfo::Separator => TreeLine { text: String::new(), kind: TreeLineKind::Blank },
            FeedItemInfo::ReadLater => {
                let text = String::from_str("\u{1F516} Read Later");
                let text = if self.read_later_count > 0 {
                    with_count(text, self.read_later_count as u64)
                } else {
                    text
                };
                TreeLine { text, kind: TreeLineKind::ReadLater }
            },
        }
    }

    /// The lines of the tree as shown, one per tree line.
    pub fn get_items(&self) -> (r: Vec<TreeLine>)
        ensures
            r@.len() == self.treeitems@.len(),
            forall|i: int|
                0 <= i < r@.len() ==> (#[trigger] r@[i]).text@ == line_text(
                    self.treeitems@[i],
                    self.unread_counts@,
                    self.read_later_count,
                ) && r@[i].kind == line_kind(self.treeitems@[i]),
    {
        let mut lines: Vec<TreeLine> = Vec::new();
        let n = self.treeitems.len();
        let mut i: usize = 0;
        while i < n
            invariant
                n == self.treeitems@.len(),
                i <= n,
                lines@.len() == i,
                forall|k: int|
                    0 <= k < i ==> (#[trigger] lines@[k]).text@ == line_text(
                        self.treeitems@[k],
                        self.unread_counts@,
                        self.read_later_count,
                    ) && lines@[k].kind == line_kind(self.treeitems@[k]),
            decreases n - i,
        {
            lines.push(self.get_item(i));
            i = i + 1;
        }
        lines
    }
}

/// The selected index, counting "no selection" as the first line.
pub open spec fn sel_index(sel: Option<usize>) -> int {
    match sel {
        Some(i) => i as int,
        None => 0,
    }
}

/// Whether the selection rests on a separator line.
pub open spec fn on_separator(items: Seq<FeedItemInfo>, sel: Option<usize>) -> bool {
    sel matches Some(i) && i < items.len() && is_separator(items[i as int])
}

impl FeedTreeState {
    /// The selected line, with a selection past the end taken as the last
    /// line and no selection as the first; `None` for an empty tree.
    pub fn get_selected(&self) -> (r: Option<&FeedItemInfo>)
        ensures
            self.treeitems@.len() == 0 ==> r is None,
            self.treeitems@.len() > 0 ==> r == Some(&self.treeitems@[
                if sel_index(self.listatate.selected) < self.treeitems@.len() {
                    sel_index(self.listatate.selected)
                } else {
                    self.treeitems@.len() - 1
                }
            ]),
    {
        if self.treeitems.len() > 0 {
            let idx = match self.listatate.selected() {
                Some(i) => i,
                None => 0,
            };
            let last = self.treeitems.len() - 1;
            let clamped = if idx < last { idx } else { last };
            Some(&self.treeitems[clamped])
        } else {
            None
        }
    }

    /// Whether the selection rests on a separator line.
    pub fn is_selected_separator(&self) -> (r: bool)
        ensures
            r == on_separator(self.treeitems@, self.listatate.selected),
    {
        match self.listatate.selected() {
            Some(index) => index < self.treeitems.len() && matches!(self.treeitems[index], FeedItemInfo::Separator),
            None => false,
        }
    }

    /// Moves the selection one line down, skipping separators.
    pub fn select_next(&mut self)
        ensures
            final(self).listatate.selected == next_selection(old(self).treeitems@, old(self).listatate.selected),
            final(self).listatate.offset == old(self).listatate.offset,
            final(self).treeitems@ == old(self).treeitems@,
            final(self).unread_counts@ == old(self).unread_counts@,
            final(self).last_generation == old(self).last_generation,
            final(self).read_later_count == old(self).read_later_count,
        decreases old(self).treeitems@.len() - sel_index(old(self).listatate.selected),
            (if old(self).listatate.selected is None { 1int } else { 0int }),
    {
        if self.treeitems.len() == 0 {
            return;
        }
        let selected = match self.listatate.selected() {
            Some(i) => i,
            None => 0,
        };
        if selected < self.treeitems.len() - 1 {
            self.listatate.select_next();
            if self.is_selected_separator() {
                self.select_next();
            }
        }
    }

    /// Moves the selection one line up, skipping separators; a selection
    /// past the end first comes back to the last line.
    pub fn select_previous(&mut self)
        ensures
            final(self).listatate.selected == previous_selection(old(self).treeitems@, old(self).listatate.selected),
            final(self).listatate.offset == old(self).listatate.offset,
            final(self).treeitems@ == old(self).treeitems@,
            final(self).unread_counts@ == old(self).unread_counts@,
            final(self).last_generation == old(self).last_generation,
            final(self).read_later_count == old(self).read_later_count,
        decreases sel_index(old(self).listatate.selected),
    {
        if self.treeitems.len() == 0 {
            return;
        }
        let selected = match self.listatate.selected() {
            Some(i) => i,
            None => 0,
        };
        if selected >= self.treeitems.len() {
            self.listatate.select(Some(self.treeitems.len() - 1));
        }
        let selected = match self.listatate.selected() {
            Some(i) => i,
            None => 0,
        };
        if selected > 0 {
            self.listatate.select_previous();
            if self.is_selected_separator() {
                self.select_previous();
            }
        }
    }

    /// Selects the first line (nothing happens on an empty tree).
    pub fn select_first(&mut self)
        ensures
            final(self).listatate.selected == if old(self).treeitems@.len() == 0 {
                old(self).listatate.selected
            } else {
                Some(0usize)
            },
            final(self).listatate.offset == old(self).listatate.offset,
            final(self).treeitems@ == old(self).treeitems@,
            final(self).unread_counts@ == old(self).unread_counts@,
            final(self).last_generation == old(self).last_generation,
            final(self).read_later_count == old(self).read_later_count,
    {
        if self.treeitems.len() == 0 {
            return;
        }
        self.listatate.select_first();
    }

    /// Selects the last line (nothing happens on an empty tree).
    pub fn select_last(&mut self)
        ensures
            final(self).listatate.selected == if old(self).treeitems@.len() == 0 {
                old(self).listatate.selected
            } else {
                Some((old(self).treeitems@.len() - 1) as usize)
            },
            final(self).listatate.offset == old(self).listatate.offset,
            final(self).treeitems@ == old(self).treeitems@,
            final(self).unread_counts@ == old(self).unread_counts@,
            final(self).last_generation == old(self).last_generation,
            final(self).read_later_count == old(self).read_later_count,
    {
        if self.treeitems.len() == 0 {
            return;
        }
        self.listatate.select(Some(self.treeitems.len() - 1));
    }

    /// Selects the next heading (category or Read Later) after the selected
    /// line; nothing changes when there is none.
    pub fn select_next_category(&mut self)
        ensures
            final(self).listatate.selected == match heading_from(
                old(self).treeitems@,
                sel_index(old(self).listatate.selected) + 1,
            ) {
                Some(i) => Some(i as usize),
                None => old(self).listatate.selected,
            },
            final(self).listatate.offset == old(self).listatate.offset,
            final(self).treeitems@ == old(self).treeitems@,
            final(self).unread_counts@ == old(self).unread_counts@,
            final(self).last_generation == old(self).last_generation,
            final(self).read_later_count == old(self).read_later_count,
    {
        let current = match self.listatate.selected() {
            Some(i) => i,
            None => 0,
        };
        let n = self.treeitems.len();
        if current < n {
            let mut i = current + 1;
            while i < n
                invariant
                    n == self.treeitems@.len(),
                    current < i <= n,
                    *self == *old(self),
                    current == sel_index(old(self).listatate.selected),
                    heading_from(self.treeitems@, current + 1) == heading_from(self.treeitems@, i as int),
                decreases n - i,
            {
                if matches!(self.treeitems[i], FeedItemInfo::Category(_)) || matches!(self.treeitems[i], FeedItemInfo::ReadLater) {
                    self.listatate.select(Some(i));
                    return;
                }
                i = i + 1;
            }
        }
    }

    /// Selects the last heading (category or Read Later) before the
    /// selected line; nothing changes when there is none.
    pub fn select_previous_category(&mut self)
        ensures
            final(self).listatate.selected == match heading_before(
                old(self).treeitems@,
                if sel_index(old(self).listatate.selected) < old(self).treeitems@.len() {
                    sel_index(old(self).listatate.selected)
                } else {
                    old(self).treeitems@.len() as int
                },
            ) {
                Some(i) => Some(i as usize),
                None => old(self).listatate.selected,
            },
            final(self).listatate.offset == old(self).listatate.offset,
            final(self).treeitems@ == old(self).treeitems@,
            final(self).unread_counts@ == old(self).unread_counts@,
            final(self).last_generation == old(self).last_generation,
            final(self).read_later_count == old(self).read_later_count,
    {
        let current = match self.listatate.selected() {
            Some(i) => i,
            None => 0,
        };
        let n = self.treeitems.len();
        let mut i = if current < n { current } else { n };
        let ghost upto = i as int;
        while i > 0
            invariant
                n == self.treeitems@.len(),
                i <= upto <= n,
                *self == *old(self),
                upto == (if sel_index(old(self).listatate.selected) < n {
                    sel_index(old(self).listatate.selected)
                } else {
                    n as int
                }),
                heading_before(self.treeitems@, upto) == heading_before(self.treeitems@, i as int),
            decreases i,
        {
            if matches!(self.treeitems[i - 1], FeedItemInfo::Category(_)) || matches!(self.treeitems[i - 1], FeedItemInfo::ReadLater) {
                self.listatate.select(Some(i - 1));
                return;
            }
            i = i - 1;
        }
    }
}

impl FeedTreeState {
    /// Rebuilds the tree from the library when the library changed since
    /// the last build: one heading per category followed by its feeds, the
    /// unread count of each feed that the store reports, and a separator and
    /// the Read Later heading when that list has entries. The selection is
    /// kept as it is.
    pub fn update<D: LibraryStore, U: UpdateProgress>(&mut self, library: &mut FeedLibrary<D, U>)
        ensures
            old(library).generation == old(self).last_generation ==> *final(self) == *old(self),
            old(library).generation != old(self).last_generation ==> {
                &&& final(self).last_generation == old(library).generation
                &&& final(self).treeitems@ == tree_items(old(library).feedcategories@) + read_later_items(
                    final(self).read_later_count,
                )
                &&& final(self).listatate == old(self).listatate
                &&& forall|k: int| 0 <= k < final(self).unread_counts@.len() ==> names_feed(
                    final(self).treeitems@,
                    #[trigger] final(self).unread_counts@[k],
                )
                &&& final(self).read_later_count == if old(library).data.lists_read_later() {
                    old(library).data.read_later_entries().len()
                } else {
                    0
                }
                &&& no_repeated_pairs(final(self).unread_counts@)
                &&& forall|i: int, j: int|
                    #![trigger old(library).feedcategories@[i].feeds@[j]]
                    0 <= i < old(library).feedcategories@.len() && 0 <= j
                        < old(library).feedcategories@[i].feeds@.len() && old(library).data.answers_unread(
                        old(library).feedcategories@[i].title@,
                        old(library).feedcategories@[i].feeds@[j].slug@,
                    ) ==> unread_lookup(
                        final(self).unread_counts@,
                        old(library).feedcategories@[i].title@,
                        old(library).feedcategories@[i].feeds@[j].slug@,
                    ) == Some(
                        old(library).data.unread_of(
                            old(library).feedcategories@[i].title@,
                            old(library).feedcategories@[i].feeds@[j].slug@,
                        ),
                    )
                &&& forall|k: int|
                    0 <= k < final(self).unread_counts@.len() ==> (#[trigger] final(self).unread_counts@[k]).2
                        == old(library).data.unread_of(
                        final(self).unread_counts@[k].0@,
                        final(self).unread_counts@[k].1@,
                    )
            },
            final(library).feedcategories@ == old(library).feedcategories@,
            final(library).generation == old(library).generation,
            final(library).updater == old(library).updater,
    {
        if library.generation == self.last_generation {
            return;
        }
        self.last_generation = library.generation;
        self.treeitems.clear();
        self.unread_counts.clear();
        let ncats = library.feedcategories.len();
        let mut i: usize = 0;
        while i < ncats
            invariant
                ncats == library.feedcategories@.len(),
                i <= ncats,
                self.treeitems@ == tree_items(library.feedcategories@.take(i as int)),
                forall|k: int| 0 <= k < self.unread_counts@.len() ==> names_feed(
                    self.treeitems@,
                    #[trigger] self.unread_counts@[k],
                ),
                no_repeated_pairs(self.unread_counts@),
                forall|k: int|
                    0 <= k < self.unread_counts@.len() ==> (#[trigger] self.unread_counts@[k]).2
                        == library.data.unread_of(self.unread_counts@[k].0@, self.unread_counts@[k].1@),
                self.listatate == old(self).listatate,
                self.last_generation == old(library).generation,
                *library == *old(library),
                forall|i2: int, j2: int|
                    #![trigger library.feedcategories@[i2].feeds@[j2]]
                    0 <= i2 < i && 0 <= j2 < library.feedcategories@[i2].feeds@.len()
                        && library.data.answers_unread(
                        library.feedcategories@[i2].title@,
                        library.feedcategories@[i2].feeds@[j2].slug@,
                    ) ==> unread_lookup(
                        self.unread_counts@,
                        library.feedcategories@[i2].title@,
                        library.feedcategories@[i2].feeds@[j2].slug@,
                    ) == Some(
                        library.data.unread_of(
                            library.feedcategories@[i2].title@,
                            library.feedcategories@[i2].feeds@[j2].slug@,
                        ),
                    ),
            decreases ncats - i,
        {
            let cat = &library.feedcategories[i];
            let ghost before = self.treeitems@;
            self.treeitems.push(FeedItemInfo::Category(cat.title.clone()));
            proof {
                lemma_names_feed_after_push(before, self.treeitems@, self.unread_counts@);
            }
            let nfeeds = cat.feeds.len();
            let ghost base = tree_items(library.feedcategories@.take(i as int));
            let mut j: usize = 0;
            while j < nfeeds
                invariant
                    nfeeds == cat.feeds@.len(),
                    i < ncats,
                    ncats == library.feedcategories@.len(),
                    *cat == library.feedcategories@[i as int],
                    j <= nfeeds,
                    self.treeitems@ == base + seq![FeedItemInfo::Category(cat.title)]
                        + cat.feeds@.take(j as int).map_values(
                        |f: FeedItem| FeedItemInfo::Item(f.title, cat.title, f.slug),
                    ),
                    forall|k: int| 0 <= k < self.unread_counts@.len() ==> names_feed(
                        self.treeitems@,
                        #[trigger] self.unread_counts@[k],
                    ),
                    no_repeated_pairs(self.unread_counts@),
                    forall|k: int|
                        0 <= k < self.unread_counts@.len() ==> (#[trigger] self.unread_counts@[k]).2
                            == library.data.unread_of(self.unread_counts@[k].0@, self.unread_counts@[k].1@),
                    self.listatate == old(self).listatate,
                    self.last_generation == old(library).generation,
                    *library == *old(library),
                    forall|i2: int, j2: int|
                        #![trigger library.feedcategories@[i2].feeds@[j2]]
                        0 <= i2 < i && 0 <= j2 < library.feedcategories@[i2].feeds@.len()
                            && library.data.answers_unread(
                            library.feedcategories@[i2].title@,
                            library.feedcategories@[i2].feeds@[j2].slug@,
                        ) ==> unread_lookup(
                            self.unread_counts@,
                            library.feedcategories@[i2].title@,
                            library.feedcategories@[i2].feeds@[j2].slug@,
                        ) == Some(
                            library.data.unread_of(
                                library.feedcategories@[i2].title@,
                                library.feedcategories@[i2].feeds@[j2].slug@,
                            ),
                        ),
                    forall|j2: int|
                        0 <= j2 < j && library.data.answers_unread(cat.title@, #[trigger] cat.feeds@[j2].slug@)
                            ==> unread_lookup(self.unread_counts@, cat.title@, cat.feeds@[j2].slug@) == Some(
                            library.data.unread_of(cat.title@, cat.feeds@[j2].slug@),
                        ),
                decreases nfeeds - j,
            {
                let item = &cat.feeds[j];
                let ghost before = self.treeitems@;
                self.treeitems.push(FeedItemInfo::Item(item.title.clone(), cat.title.clone(), item.slug.clone()));
                proof {
                    lemma_names_feed_after_push(before, self.treeitems@, self.unread_counts@);
                }
                match library.data.get_unread_feed(cat.title.as_str(), item.slug.as_str()) {
                    Ok(count) => {
                        let ghost before_counts = self.unread_counts@;
                        record_unread(&mut self.unread_counts, &cat.title, &item.slug, count);
                        proof {
                            let last = self.treeitems@.len() - 1;
                            assert forall|k: int| 0 <= k < self.unread_counts@.len() implies names_feed(
                                self.treeitems@,
                                #[trigger] self.unread_counts@[k],
                            ) by {
                                let rec = self.unread_counts@[k];
                                if pair_of(rec) == (cat.title@, item.slug@) {
                                    assert(is_feed_line_of(self.treeitems@[last], rec));
                                } else {
                                    let j = choose|j: int| 0 <= j < before_counts.len() && #[trigger] before_counts[j] == rec;
                                    assert(names_feed(self.treeitems@, before_counts[j]));
                                }
                            }
                        }
                    },
                    Err(_) => {},
                }
                j = j + 1;
                assert(cat.feeds@.take(j as int).map_values(
                    |f: FeedItem| FeedItemInfo::Item(f.title, cat.title, f.slug),
                ) =~= cat.feeds@.take(j - 1).map_values(
                    |f: FeedItem| FeedItemInfo::Item(f.title, cat.title, f.slug),
                ).push(FeedItemInfo::Item(item.title, cat.title, item.slug)));
            }
            assert(cat.feeds@.take(j as int) =~= cat.feeds@);
            assert forall|i2: int, j2: int|
                #![trigger library.feedcategories@[i2].feeds@[j2]]
                0 <= i2 < i + 1 && 0 <= j2 < library.feedcategories@[i2].feeds@.len()
                    && library.data.answers_unread(
                    library.feedcategories@[i2].title@,
                    library.feedcategories@[i2].feeds@[j2].slug@,
                ) implies unread_lookup(
                    self.unread_counts@,
                    library.feedcategories@[i2].title@,
                    library.feedcategories@[i2].feeds@[j2].slug@,
                ) == Some(
                    library.data.unread_of(
                        library.feedcategories@[i2].title@,
                        library.feedcategories@[i2].feeds@[j2].slug@,
                    ),
                ) by {
                if i2 == i {
                    assert(cat.feeds@[j2] == library.feedcategories@[i2].feeds@[j2]);
                }
            }
            assert(library.feedcategories@.take(i + 1).drop_last() =~= library.feedcategories@.take(i as int));
            assert(self.treeitems@ =~= tree_items(library.feedcategories@.take(i + 1)));
            i = i + 1;
        }
        assert(library.feedcategories@.take(i as int) =~= library.feedcategories@);
        let lookup = library.get_read_later_feed_entries();
        let count = read_later_count_of(&lookup);
        self.read_later_count = count;
        if count > 0 {
            let ghost before = self.treeitems@;
            self.treeitems.push(FeedItemInfo::Separator);
            self.treeitems.push(FeedItemInfo::ReadLater);
            proof {
                lemma_names_feed_after_push(before, self.treeitems@, self.unread_counts@);
            }
        }
    }
}

/// The number of entries a read-later lookup found: the length of the list
/// it gave, none when it failed.
pub fn read_later_count_of<E>(lookup: &Result<Vec<FeedEntry>, E>) -> (r: usize)
    ensures
        r == match lookup {
            Ok(v) => v@.len(),
            Err(_) => 0,
        },
{
    match lookup {
        Ok(v) => v.len(),
        Err(_) => 0,
    }
}

/// Lines added at the end of a tree keep every feed line that a record
/// names.
proof fn lemma_names_feed_after_push(
    before: Seq<FeedItemInfo>,
    after: Seq<FeedItemInfo>,
    records: Seq<(String, String, u16)>,
)
    requires
        before.len() <= after.len(),
        forall|i: int| 0 <= i < before.len() ==> after[i] == before[i],
        forall|k: int| 0 <= k < records.len() ==> names_feed(before, #[trigger] records[k]),
    ensures
        forall|k: int| 0 <= k < records.len() ==> names_feed(after, #[trigger] records[k]),
{
    assert forall|k: int| 0 <= k < records.len() implies names_feed(after, #[trigger] records[k]) by {
        assert(names_feed(before, records[k]));
        let m = choose|m: int| 0 <= m < before.len() && is_feed_line_of(#[trigger] before[m], records[k]);
        assert(after[m] == before[m]);
    }
}

/// The lines of the categories hold no separator, and the first line of
/// a non-empty list of categories is a category heading.
pub proof fn lemma_tree_items_shape(cats: Seq<FeedCategory>)
    ensures
        forall|k: int| 0 <= k < tree_items(cats).len() ==> !is_separator(#[trigger] tree_items(cats)[k]),
        cats.len() > 0 ==> tree_items(cats).len() > 0 && tree_items(cats)[0] is Category,
    decreases cats.len(),
{
    if cats.len() > 0 {
        lemma_tree_items_shape(cats.drop_last());
        let a = tree_items(cats.drop_last());
        let b = category_items(cats.last());
        assert forall|k: int| 0 <= k < tree_items(cats).len() implies !is_separator(#[trigger] tree_items(cats)[k]) by {
            if k < a.len() {
                assert(tree_items(cats)[k] == a[k]);
            } else {
                assert(tree_items(cats)[k] == b[k - a.len()]);
            }
        }
        if cats.len() == 1 {
            assert(cats.drop_last().len() == 0);
            assert(tree_items(cats)[0] == b[0]);
        } else {
            assert(tree_items(cats)[0] == a[0]);
        }
    }
}

/// A tree as `update` builds it never ends on a separator, holds at most
/// one separator (just before the Read Later heading, which ends it), and
/// starts with a category heading when there are categories.
pub proof fn lemma_built_tree_shape(cats: Seq<FeedCategory>, read_later_count: usize)
    ensures
        ({
            let items = tree_items(cats) + read_later_items(read_later_count);
            &&& items.len() > 0 ==> !is_separator(items.last())
            &&& forall|k: int| 0 <= k < items.len() && is_separator(#[trigger] items[k]) ==> k == items.len() - 2
                && items.last() is ReadLater
            &&& cats.len() > 0 ==> items[0] is Category
        }),
{
    lemma_tree_items_shape(cats);
    let t = tree_items(cats);
    let items = t + read_later_items(read_later_count);
    assert forall|k: int| 0 <= k < items.len() && is_separator(#[trigger] items[k]) implies k == items.len() - 2
        && items.last() is ReadLater by {
        if k < t.len() {
            assert(items[k] == t[k]);
        }
    }
    if cats.len() > 0 {
        assert(items[0] == t[0]);
    }
    if items.len() > 0 && read_later_count == 0 {
        assert(items.last() == t[t.len() - 1]);
    }
}

/// From a selected line, "select next" never moves backward, and it moves
/// forward whenever the line is not the last.
proof fn lemma_next_selection_advances(items: Seq<FeedItemInfo>, i: usize)
    requires
        items.len() <= usize::MAX,
    ensures
        next_selection(items, Some(i)) matches Some(j) && j >= i && (i < items.len() - 1 ==> j > i),
    decreases items.len() - i,
{
    if items.len() == 0 || !(i < items.len() - 1) {
    } else {
        let n: int = i + 1;
        if is_separator(items[n]) {
            lemma_next_selection_advances(items, n as usize);
        }
    }
}

/// From a selected line inside the tree, "select previous" never moves
/// forward, and it moves backward whenever the line is not the first.
proof fn lemma_previous_selection_retreats(items: Seq<FeedItemInfo>, i: usize)
    requires
        items.len() <= usize::MAX,
        i < items.len(),
    ensures
        previous_selection(items, Some(i)) matches Some(j) && j <= i && (i > 0 ==> j < i),
    decreases i,
{
    if i > 0 {
        let p: int = i - 1;
        if is_separator(items[p]) {
            lemma_previous_selection_retreats(items, p as usize);
        }
    }
}

/// "Select next" from a line that is not the last moves forward, to the
/// very next line when that is not a separator; "select previous" from a
/// line that is not the first moves backward, to the line just above when
/// that is not a separator.
pub proof fn lemma_selection_steps(items: Seq<FeedItemInfo>, i: usize)
    requires
        items.len() <= usize::MAX,
        i < items.len(),
    ensures
        i + 1 < items.len() ==> (next_selection(items, Some(i)) matches Some(j) && j > i),
        i + 1 < items.len() && !is_separator(items[i + 1]) ==> next_selection(items, Some(i)) == Some(
            (i + 1) as usize,
        ),
        i > 0 ==> (previous_selection(items, Some(i)) matches Some(j) && j < i),
        i > 0 && !is_separator(items[i - 1]) ==> previous_selection(items, Some(i)) == Some((i - 1) as usize),
{
    lemma_next_selection_advances(items, i);
    lemma_previous_selection_retreats(items, i);
}

/// "Select next" either leaves the selection alone (on the last line, or
/// on a one-line tree without selection) or moves it forward onto a line
/// that is not a separator, passing over separators only — provided the
/// last line is not a separator.
pub proof fn lemma_next_selection_lands_off_separators(items: Seq<FeedItemInfo>, sel: Option<usize>)
    requires
        items.len() <= usize::MAX,
        items.len() > 0 ==> !is_separator(items.last()),
    ensures
        ({
            let r = next_selection(items, sel);
            let start: int = match sel { Some(i) => i as int, None => -1 };
            r == sel || (r matches Some(j) && start < j < items.len() && !is_separator(items[j as int])
                && forall|k: int| start < k < j ==> is_separator(#[trigger] items[k]))
        }),
    decreases items.len() - sel_index(sel), (if sel is None { 1int } else { 0int }),
{
    let s = sel_index(sel);
    if items.len() == 0 || !(s < items.len() - 1) {
    } else {
        let n: int = match sel { Some(i) => i + 1, None => 0 };
        let start: int = match sel { Some(i) => i as int, None => -1 };
        assert(n == start + 1);
        if is_separator(items[n]) {
            assert(n < items.len() - 1);
            lemma_next_selection_lands_off_separators(items, Some(n as usize));
            let r = next_selection(items, Some(n as usize));
            assert(r == next_selection(items, sel));
            lemma_next_selection_advances(items, n as usize);
            let j = r->Some_0 as int;
            assert forall|k: int| start < k < j implies is_separator(#[trigger] items[k]) by {
                if k > n {
                } else {
                    assert(k == n);
                }
            }
        }
    }
}

/// "Select previous" either leaves the selection alone or brings it
/// backward onto a line that is not a separator, passing over separators
/// only — provided the first line is not a separator.
pub proof fn lemma_previous_selection_lands_off_separators(items: Seq<FeedItemInfo>, sel: Option<usize>)
    requires
        items.len() <= usize::MAX,
        items.len() > 0 ==> !is_separator(items[0]),
    ensures
        ({
            let r = previous_selection(items, sel);
            let start: int = if sel_index(sel) < items.len() { sel_index(sel) } else { items.len() - 1 };
            r == sel || (r matches Some(j) && 0 <= j <= start && j < items.len() && !is_separator(items[j as int])
                && forall|k: int| j < k < start ==> is_separator(#[trigger] items[k]))
        }),
    decreases sel_index(sel),
{
    if items.len() == 0 {
    } else {
        let sel1: Option<usize> = match sel {
            Some(i) => if i >= items.len() { Some((items.len() - 1) as usize) } else { sel },
            None => sel,
        };
        let s: int = sel_index(sel1);
        let start: int = if sel_index(sel) < items.len() { sel_index(sel) } else { items.len() - 1 };
        assert(s == start);
        if s > 0 {
            let p = s - 1;
            if is_separator(items[p]) {
                assert(p > 0);
                lemma_previous_selection_lands_off_separators(items, Some(p as usize));
                let r = previous_selection(items, Some(p as usize));
                assert(r == previous_selection(items, sel));
                lemma_previous_selection_retreats(items, p as usize);
                let j = r->Some_0 as int;
                assert forall|k: int| j < k < start implies is_separator(#[trigger] items[k]) by {
                    if k < p {
                    } else {
                        assert(k == p);
                    }
                }
            }
        }
    }
}

/// The heading found from index `from` is the first heading at or after
/// it.
pub proof fn lemma_heading_from_is_first(items: Seq<FeedItemInfo>, from: int)
    requires
        0 <= from,
    ensures
        heading_from(items, from) matches Some(i) ==> {
            &&& 0 <= from <= i < items.len()
            &&& is_heading(items[i])
            &&& forall|k: int| from <= k < i ==> !is_heading(#[trigger] items[k])
        },
        heading_from(items, from) is None ==> forall|k: int| from <= k < items.len() ==> !is_heading(
            #[trigger] items[k],
        ),
    decreases items.len() - from,
{
    if from < 0 || from >= items.len() {
    } else if is_heading(items[from]) {
    } else {
        lemma_heading_from_is_first(items, from + 1);
    }
}

/// The heading found before index `upto` is the last heading before it.
pub proof fn lemma_heading_before_is_last(items: Seq<FeedItemInfo>, upto: int)
    requires
        0 <= upto <= items.len(),
    ensures
        heading_before(items, upto) matches Some(i) ==> {
            &&& 0 <= i < upto
            &&& is_heading(items[i])
            &&& forall|k: int| i < k < upto ==> !is_heading(#[trigger] items[k])
        },
        heading_before(items, upto) is None ==> forall|k: int| 0 <= k < upto ==> !is_heading(#[trigger] items[k]),
    decreases upto,
{
    if upto <= 0 {
    } else if is_heading(items[upto - 1]) {
    } else {
        lemma_heading_before_is_last(items, upto - 1);
    }
}

/// On a tree as `update` builds it, "select next" never rests on the
/// separator, and neither does "select previous" when the tree starts with
/// a category (there are categories, or no Read Later section).
pub proof fn lemma_navigation_avoids_separator(cats: Seq<FeedCategory>, read_later_count: usize, sel: Option<usize>)
    requires
        tree_items(cats).len() + 2 <= usize::MAX,
    ensures
        ({
            let items = tree_items(cats) + read_later_items(read_later_count);
            &&& next_selection(items, sel) == sel || !on_separator(items, next_selection(items, sel))
            &&& (cats.len() > 0 || read_later_count == 0) ==> (previous_selection(items, sel) == sel || !on_separator(
                items,
                previous_selection(items, sel),
            ))
        }),
{
    let items = tree_items(cats) + read_later_items(read_later_count);
    lemma_built_tree_shape(cats, read_later_count);
    lemma_next_selection_lands_off_separators(items, sel);
    if cats.len() > 0 || read_later_count == 0 {
        if items.len() > 0 && cats.len() == 0 {
            assert(tree_items(cats).len() == 0);
            assert(read_later_items(read_later_count).len() == 0);
        }
        lemma_previous_selection_lands_off_separators(items, sel);
    }
}

} // verus!
