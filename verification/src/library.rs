//! The feed library: categories of feeds, the store that keeps their
//! entries, the background updater's progress, and the generation counter
//! that tells views when to rebuild.
use std::path::PathBuf;
use vstd::prelude::*;
use crate::paths::{clone_path, empty_path, path_text};
use crate::app::AppWorkStatus;

verus! {

/// A subscribed feed.
pub struct FeedItem {
    pub title: String,
    pub slug: String,
    pub feed_url: String,
    pub category: String,
}

/// A named category and the feeds filed under it.
pub struct FeedCategory {
    pub title: String,
    pub feeds: Vec<FeedItem>,
}

/// One article of a feed. `date` and `date_nanos` are the publication time
/// as seconds since the Unix epoch and the sub-second nanoseconds.
pub struct FeedEntry {
    pub title: String,
    pub date: i64,
    pub date_nanos: u32,
    pub author: String,
    pub url: String,
    pub text: String,
    pub seen: bool,
    pub filepath: PathBuf,
}

impl FeedItem {
    pub fn clone_item(&self) -> (r: FeedItem)
        ensures
            r == *self,
    {
        FeedItem {
            title: self.title.clone(),
            slug: self.slug.clone(),
            feed_url: self.feed_url.clone(),
            category: self.category.clone(),
        }
    }
}

impl Clone for FeedItem {
    fn clone(&self) -> (r: FeedItem)
        ensures
            r == *self,
    {
        self.clone_item()
    }
}

impl Default for FeedItem {
    fn default() -> (r: FeedItem)
        ensures
            r.title@.len() == 0,
            r.slug@.len() == 0,
            r.feed_url@.len() == 0,
            r.category@.len() == 0,
    {
        FeedItem { title: String::new(), slug: String::new(), feed_url: String::new(), category: String::new() }
    }
}

impl FeedCategory {
    pub fn clone_category(&self) -> (r: FeedCategory)
        ensures
            r.title == self.title,
            r.feeds@ == self.feeds@,
    {
        let mut feeds: Vec<FeedItem> = Vec::new();
        let mut i: usize = 0;
        while i < self.feeds.len()
            invariant
                i <= self.feeds.len(),
                feeds@ == self.feeds@.take(i as int),
            decreases self.feeds.len() - i,
        {
            feeds.push(self.feeds[i].clone_item());
            i = i + 1;
            assert(feeds@ =~= self.feeds@.take(i as int));
        }
        assert(self.feeds@.take(i as int) =~= self.feeds@);
        FeedCategory { title: self.title.clone(), feeds }
    }
}

impl Clone for FeedCategory {
    fn clone(&self) -> (r: FeedCategory)
        ensures
            r.title == self.title,
            r.feeds@ == self.feeds@,
    {
        self.clone_category()
    }
}

impl FeedEntry {
    pub fn clone_entry(&self) -> (r: FeedEntry)
        ensures
            r == *self,
    {
        FeedEntry {
            title: self.title.clone(),
            date: self.date,
            date_nanos: self.date_nanos,
            author: self.author.clone(),
            url: self.url.clone(),
            text: self.text.clone(),
            seen: self.seen,
            filepath: clone_path(&self.filepath),
        }
    }
}

impl Clone for FeedEntry {
    fn clone(&self) -> (r: FeedEntry)
        ensures
            r == *self,
    {
        self.clone_entry()
    }
}

impl Default for FeedEntry {
    fn default() -> (r: FeedEntry)
        ensures
            r.title@.len() == 0,
            r.date == 0,
            r.date_nanos == 0,
            r.author@.len() == 0,
            r.url@.len() == 0,
            r.text@.len() == 0,
            !r.seen,
    {
        FeedEntry {
            title: String::new(),
            date: 0,
            date_nanos: 0,
            author: String::new(),
            url: String::new(),
            text: String::new(),
            seen: false,
            filepath: empty_path(),
        }
    }
}

/// The text that identifies a stored entry: its file path, or the empty
/// text when the path is not valid Unicode.
pub open spec fn entry_path(e: FeedEntry) -> Seq<char> {
    match path_text(e.filepath) {
        Some(p) => p,
        None => Seq::empty(),
    }
}

/// The file paths of the entries of `s`.
pub open spec fn paths_of(s: Seq<FeedEntry>) -> Set<Seq<char>> {
    Set::new(|p: Seq<char>| exists|i: int| 0 <= i < s.len() && entry_path(#[trigger] s[i]) == p)
}

/// A set of marks with the mark of `path` flipped.
pub open spec fn toggled(marks: Set<Seq<char>>, path: Seq<char>) -> Set<Seq<char>> {
    if marks.contains(path) {
        marks.remove(path)
    } else {
        marks.insert(path)
    }
}

/// The persistent side of the library: the files in which feeds, entries,
/// seen marks and the read-later list are kept.
///
/// A store is seen through a model: the entries marked seen and those on
/// the read-later list (each known by its file path, see `entry_path`),
/// the entries it lists for the read-later list and for each feed (and
/// whether it can load them), the unread count of each feed, and the feeds
/// it stores, each known by its slug and category. Each operation says
/// what it does to the model; an operation that fails leaves the model as
/// it was. What a store answers is its own: any call may fail.
pub trait LibraryStore {
    type Error;

    /// The file paths of the entries marked seen.
    spec fn seen_paths(&self) -> Set<Seq<char>>;

    /// The file paths of the entries on the read-later list.
    spec fn read_later_paths(&self) -> Set<Seq<char>>;

    /// The entries on the read-later list, as the store lists them.
    spec fn read_later_entries(&self) -> Seq<FeedEntry>;

    /// The entries of the feed `slug` of `category`, as the store loads them.
    spec fn feed_entries(&self, category: Seq<char>, slug: Seq<char>) -> Seq<FeedEntry>;

    /// Whether the store can load the entries of the feed `slug` of
    /// `category`.
    spec fn loads(&self, category: Seq<char>, slug: Seq<char>) -> bool;

    /// The number of unread entries of the feed `slug` of `category`.
    spec fn unread_of(&self, category: Seq<char>, slug: Seq<char>) -> u16;

    /// The feeds the store holds, as (slug, category) pairs.
    spec fn feeds(&self) -> Set<(Seq<char>, Seq<char>)>;

    /// Whether the store can list the read-later entries.
    spec fn lists_read_later(&self) -> bool;

    /// Whether the store can count the unread entries of the feed `slug` of
    /// `category`. A store that says nothing else can count them for every
    /// feed.
    closed spec fn answers_unread(&self, category: Seq<char>, slug: Seq<char>) -> bool {
        true
    }

    /// The entries the store reads from the feed document `text` for the
    /// feed `slug` of `category`. A store that says nothing else reads none.
    closed spec fn document_entries(&self, category: Seq<char>, slug: Seq<char>, text: Seq<char>) -> Seq<FeedEntry> {
        Seq::empty()
    }

    /// Whether the store holds the feed `slug` of `category`.
    fn feed_exists(&self, slug: &str, category: &str) -> (r: bool)
        ensures
            r == self.feeds().contains((slug@, category@)),
    ;

    /// Stores `feed` (without entries) under its slug and category.
    fn feed_create(&mut self, feed: &FeedItem) -> (r: Result<(), Self::Error>)
        ensures
            final(self).feeds() == if r is Ok {
                old(self).feeds().insert((feed.slug@, feed.category@))
            } else {
                old(self).feeds()
            },
    ;

    /// Writes the entries of `feed` in `category`, parsed from the feed
    /// document `text`; the stored feeds stay as they are. After a
    /// successful write of a document, the feed's entries are those the
    /// store reads from it.
    fn update_feed_entries(&mut self, category: &str, feed: &FeedItem, text: Option<String>) -> (r: Result<
        (),
        Self::Error,
    >)
        ensures
            final(self).feeds() == old(self).feeds(),
            r is Ok ==> (text matches Some(t) ==> final(self).feed_entries(category@, feed.slug@)
                == final(self).document_entries(category@, feed.slug@, t@)),
    ;

    /// Deletes the feed `slug` of `category` and its entries.
    fn delete_feed(&mut self, slug: &str, category: &str) -> (r: Result<(), Self::Error>)
        ensures
            final(self).feeds() == if r is Ok {
                old(self).feeds().remove((slug@, category@))
            } else {
                old(self).feeds()
            },
    ;

    /// The entries of `feed` in `category`.
    fn load_feed_entries(&self, category: &FeedCategory, feed: &FeedItem) -> (r: Result<Vec<FeedEntry>, Self::Error>)
        ensures
            r is Ok <==> self.loads(category.title@, feed.slug@),
            r matches Ok(v) ==> v@ == self.feed_entries(category.title@, feed.slug@),
    ;

    /// Marks `entry` seen.
    fn set_entry_seen(&mut self, entry: &FeedEntry)
        ensures
            final(self).seen_paths() == old(self).seen_paths().insert(entry_path(*entry)),
            final(self).read_later_paths() == old(self).read_later_paths(),
            final(self).read_later_entries() == old(self).read_later_entries(),
    ;

    /// Flips the seen mark of `entry`.
    fn toggle_entry_seen(&mut self, entry: &FeedEntry)
        ensures
            final(self).seen_paths() == toggled(old(self).seen_paths(), entry_path(*entry)),
            final(self).read_later_paths() == old(self).read_later_paths(),
            final(self).read_later_entries() == old(self).read_later_entries(),
    ;

    /// The unread count of the feed `slug` of `category`.
    fn get_unread_feed(&self, category: &str, slug: &str) -> (r: Result<u16, Self::Error>)
        ensures
            r is Ok <==> self.answers_unread(category@, slug@),
            r matches Ok(n) ==> n == self.unread_of(category@, slug@),
    ;

    /// Puts `entry` on the read-later list.
    fn add_to_read_later(&mut self, entry: &FeedEntry) -> (r: Result<(), Self::Error>)
        ensures
            final(self).read_later_paths() == if r is Ok {
                old(self).read_later_paths().insert(entry_path(*entry))
            } else {
                old(self).read_later_paths()
            },
            r is Err ==> final(self).read_later_entries() == old(self).read_later_entries(),
            final(self).seen_paths() == old(self).seen_paths(),
    ;

    /// Takes the entry stored at `file_path` off the read-later list.
    fn remove_from_read_later(&mut self, file_path: &str) -> (r: Result<(), Self::Error>)
        ensures
            final(self).read_later_paths() == if r is Ok {
                old(self).read_later_paths().remove(file_path@)
            } else {
                old(self).read_later_paths()
            },
            r is Err ==> final(self).read_later_entries() == old(self).read_later_entries(),
            final(self).seen_paths() == old(self).seen_paths(),
    ;

    /// Whether the entry stored at `file_path` is on the read-later list.
    fn is_in_read_later(&mut self, file_path: &str) -> (r: Result<bool, Self::Error>)
        ensures
            r matches Ok(b) ==> b == old(self).read_later_paths().contains(file_path@),
            final(self).seen_paths() == old(self).seen_paths(),
            final(self).read_later_paths() == old(self).read_later_paths(),
            final(self).read_later_entries() == old(self).read_later_entries(),
    ;

    /// The entries on the read-later list.
    fn get_read_later_feed_entries(&mut self) -> (r: Result<Vec<FeedEntry>, Self::Error>)
        ensures
            r is Ok <==> old(self).lists_read_later(),
            r matches Ok(v) ==> v@ == old(self).read_later_entries(),
            final(self).seen_paths() == old(self).seen_paths(),
            final(self).read_later_paths() == old(self).read_later_paths(),
            final(self).read_later_entries() == old(self).read_later_entries(),
    ;
}

/// The background updater as the library observes it: how many feeds it has
/// refreshed so far, the feed it refreshed last, and whether it is done. The
/// answers change over time.
pub trait UpdateProgress {
    fn total_completed(&self) -> u16;

    fn last_completed(&self) -> String;

    fn finished(&self) -> bool;
}

/// The category a feed is added under when none is given.
pub const DATA_CATEGORY_DEFAULT: &'static str = "General";

/// The category a new feed goes under: the one given, else
/// `DATA_CATEGORY_DEFAULT`.
pub fn feed_category(category: &Option<String>) -> (r: String)
    ensures
        r@ == match category {
            Some(c) => c@,
            None => "General"@,
        },
{
    match category {
        Some(c) => c.clone(),
        None => String::from_str(DATA_CATEGORY_DEFAULT),
    }
}

/// Why a feed could not be added.
pub enum AddFeedError<E> {
    /// A feed with the same slug already exists in the category; holds the
    /// title of the refused feed.
    AlreadyExists(String),
    /// The store failed.
    Store(E),
}

pub struct FeedLibrary<D, U> {
    pub feedcategories: Vec<FeedCategory>,
    pub data: D,
    pub updater: Option<U>,
    pub generation: u64,
    pub last_updater_completed: u16,
}

/// The number of feeds in all categories.
pub open spec fn feed_total(cats: Seq<FeedCategory>) -> int
    decreases cats.len(),
{
    if cats.len() == 0 {
        0
    } else {
        feed_total(cats.drop_last()) + cats.last().feeds@.len()
    }
}

/// The number of feeds in all categories, capped at `usize::MAX`.
pub open spec fn capped_feed_total(cats: Seq<FeedCategory>) -> int {
    if feed_total(cats) <= usize::MAX {
        feed_total(cats)
    } else {
        usize::MAX as int
    }
}

/// `b` is the library `a` after taking in an updater's report that
/// `completed` feeds are refreshed and whether it has `finished`: a larger
/// count than the last one seen is recorded and changes the generation; a
/// finished updater is dropped, its count reset, with one more change of
/// generation; the categories and the store stay as they are.
pub open spec fn progress_applied<D, U>(a: FeedLibrary<D, U>, b: FeedLibrary<D, U>, completed: u16, finished: bool) -> bool {
    let g1 = if completed > a.last_updater_completed { a.generation + 1 } else { a.generation as int };
    let l1 = if completed > a.last_updater_completed { completed } else { a.last_updater_completed };
    &&& b.feedcategories@ == a.feedcategories@
    &&& b.data == a.data
    &&& if finished {
        &&& b.updater is None
        &&& b.last_updater_completed == 0
        &&& b.generation == g1 + 1
    } else {
        &&& b.updater == a.updater
        &&& b.last_updater_completed == l1
        &&& b.generation == g1
    }
}

/// Whether no category holds a feed.
pub open spec fn categories_empty(cats: Seq<FeedCategory>) -> bool {
    forall|i: int| 0 <= i < cats.len() ==> #[trigger] cats[i].feeds@.len() == 0
}

impl<D: LibraryStore, U: UpdateProgress> FeedLibrary<D, U> {
    /// A library over the given categories and store, with no updater
    /// running and generation zero.
    pub fn new(feedcategories: Vec<FeedCategory>, data: D) -> (r: Self)
        ensures
            r.feedcategories@ == feedcategories@,
            r.data == data,
            r.updater is None,
            r.generation == 0,
            r.last_updater_completed == 0,
    {
        FeedLibrary { feedcategories, data, updater: None, generation: 0, last_updater_completed: 0 }
    }

    /// Adds `feed` to the store, refusing a feed whose slug already exists
    /// in its category; the entries are written only when `text` is given.
    /// The outcome of the store's answers is `add_feed_outcome`.
    pub fn add_feed(&mut self, feed: FeedItem, text: Option<String>) -> (r: Result<FeedItem, AddFeedError<D::Error>>)
        ensures
            (r matches Err(AddFeedError::AlreadyExists(_))) <==> old(self).data.feeds().contains(
                (feed.slug@, feed.category@),
            ),
            r matches Err(AddFeedError::AlreadyExists(t)) ==> t == feed.title && final(self).data == old(self).data,
            r matches Ok(f) ==> f == feed && final(self).data.feeds() == old(self).data.feeds().insert(
                (feed.slug@, feed.category@),
            ),
            r is Ok ==> (text matches Some(t) ==> final(self).data.feed_entries(feed.category@, feed.slug@)
                == final(self).data.document_entries(feed.category@, feed.slug@, t@)),
            r matches Err(AddFeedError::Store(_)) ==> final(self).data.feeds() == old(self).data.feeds() || (text
                is Some && final(self).data.feeds() == old(self).data.feeds().insert((feed.slug@, feed.category@))),
            final(self).feedcategories@ == old(self).feedcategories@,
            final(self).generation == old(self).generation,
            final(self).updater == old(self).updater,
    {
        if self.data.feed_exists(feed.slug.as_str(), feed.category.as_str()) {
            return Err(AddFeedError::AlreadyExists(feed.title));
        }
        let created = self.data.feed_create(&feed);
        let written = if created.is_ok() && text.is_some() {
            Some(self.data.update_feed_entries(feed.category.as_str(), &feed, text))
        } else {
            None
        };
        add_feed_outcome(feed, created, written)
    }

    /// Deletes the feed `slug` of `category` from the store.
    pub fn delete_feed(&mut self, slug: &str, category: &str) -> (r: Result<(), D::Error>)
        ensures
            final(self).data.feeds() == if r is Ok {
                old(self).data.feeds().remove((slug@, category@))
            } else {
                old(self).data.feeds()
            },
            final(self).feedcategories@ == old(self).feedcategories@,
            final(self).generation == old(self).generation,
            final(self).updater == old(self).updater,
    {
        self.data.delete_feed(slug, category)
    }

    /// Installs a running updater.
    pub fn start_updater(&mut self, updater: U)
        ensures
            final(self).updater == Some(updater),
            final(self).feedcategories@ == old(self).feedcategories@,
            final(self).data == old(self).data,
            final(self).generation == old(self).generation,
            final(self).last_updater_completed == old(self).last_updater_completed,
    {
        self.updater = Some(updater);
    }

    /// Marks the library as changed.
    pub fn bump_generation(&mut self)
        requires
            old(self).generation < u64::MAX,
        ensures
            final(self).generation == old(self).generation + 1,
            final(self).feedcategories@ == old(self).feedcategories@,
            final(self).data == old(self).data,
            final(self).updater == old(self).updater,
            final(self).last_updater_completed == old(self).last_updater_completed,
    {
        self.generation = self.generation + 1;
    }

    /// Marks `entry` as seen in the store; the library changes generation.
    pub fn set_entry_seen(&mut self, entry: &FeedEntry)
        requires
            old(self).generation < u64::MAX,
        ensures
            final(self).data.seen_paths() == old(self).data.seen_paths().insert(entry_path(*entry)),
            final(self).data.read_later_paths() == old(self).data.read_later_paths(),
            final(self).data.read_later_entries() == old(self).data.read_later_entries(),
            final(self).generation == old(self).generation + 1,
            final(self).feedcategories@ == old(self).feedcategories@,
            final(self).updater == old(self).updater,
            final(self).last_updater_completed == old(self).last_updater_completed,
    {
        self.data.set_entry_seen(entry);
        self.generation = self.generation + 1;
    }

    /// Flips the seen mark of `entry` in the store; the library changes
    /// generation.
    pub fn toggle_entry_seen(&mut self, entry: &FeedEntry)
        requires
            old(self).generation < u64::MAX,
        ensures
            final(self).data.seen_paths() == toggled(old(self).data.seen_paths(), entry_path(*entry)),
            final(self).data.read_later_paths() == old(self).data.read_later_paths(),
            final(self).data.read_later_entries() == old(self).data.read_later_entries(),
            final(self).generation == old(self).generation + 1,
            final(self).feedcategories@ == old(self).feedcategories@,
            final(self).updater == old(self).updater,
            final(self).last_updater_completed == old(self).last_updater_completed,
    {
        self.data.toggle_entry_seen(entry);
        self.generation = self.generation + 1;
    }

    /// Takes the updater's latest progress into account: a larger count of
    /// refreshed feeds changes the generation, and a finished updater is
    /// dropped (with one more change of generation).
    pub fn apply_update_progress(&mut self, completed: u16, finished: bool)
        requires
            old(self).updater is Some,
            old(self).generation + (if completed > old(self).last_updater_completed { 1int } else { 0int })
                + (if finished { 1int } else { 0int }) <= u64::MAX,
        ensures
            progress_applied(*old(self), *final(self), completed, finished),
    {
        if completed > self.last_updater_completed {
            self.last_updater_completed = completed;
            self.generation = self.generation + 1;
        }
        if finished {
            self.updater = None;
            self.last_updater_completed = 0;
            self.generation = self.generation + 1;
        }
    }

    /// Polls the updater, if one is running, and applies its progress
    /// (see `apply_update_progress`). Without an updater nothing changes.
    pub fn update(&mut self)
        requires
            old(self).updater is Some ==> old(self).generation <= u64::MAX - 2,
        ensures
            old(self).updater is None ==> *final(self) == *old(self),
            old(self).updater is Some ==> exists|completed: u16, finished: bool|
                #[trigger] progress_applied(*old(self), *final(self), completed, finished),
            old(self).updater is Some ==> {
                &&& old(self).generation <= final(self).generation <= old(self).generation + 2
                &&& final(self).updater is None || final(self).updater == old(self).updater
            },
            final(self).feedcategories@ == old(self).feedcategories@,
            final(self).data == old(self).data,
    {
        let progress = match self.updater.as_ref() {
            Some(updater) => Some((updater.total_completed(), updater.finished())),
            None => None,
        };
        match progress {
            Some((completed, finished)) => self.apply_update_progress(completed, finished),
            None => {},
        }
    }

    /// The work of the running updater, if any: the feeds refreshed so far
    /// out of all the feeds of the library (see `total_feeds`), and the feed
    /// refreshed last.
    pub fn get_update_status(&self) -> (r: AppWorkStatus)
        ensures
            self.updater is None ==> r is Idle,
            self.updater is Some ==> (r matches AppWorkStatus::Working(_, total, _) && total == capped_feed_total(
                self.feedcategories@,
            )),
    {
        match self.updater.as_ref() {
            Some(updater) => {
                let total = self.total_feeds();
                AppWorkStatus::Working(updater.total_completed(), total, updater.last_completed())
            },
            None => AppWorkStatus::Idle,
        }
    }

    /// Whether the library holds no feed at all.
    pub fn is_empty(&self) -> (r: bool)
        ensures
            r == categories_empty(self.feedcategories@),
    {
        let n = self.feedcategories.len();
        if n == 0 {
            return true;
        }
        let mut i: usize = 0;
        while i < n
            invariant
                n == self.feedcategories@.len(),
                i <= n,
                forall|j: int| 0 <= j < i ==> #[trigger] self.feedcategories@[j].feeds@.len() == 0,
            decreases n - i,
        {
            if self.feedcategories[i].feeds.len() != 0 {
                return false;
            }
            i = i + 1;
        }
        true
    }

    /// The number of feeds in the library (capped at `usize::MAX`), the
    /// amount of work of a full update.
    pub fn total_feeds(&self) -> (r: usize)
        ensures
            r == if feed_total(self.feedcategories@) <= usize::MAX {
                feed_total(self.feedcategories@)
            } else {
                usize::MAX as int
            },
    {
        let mut total: usize = 0;
        let mut i: usize = 0;
        while i < self.feedcategories.len()
            invariant
                i <= self.feedcategories@.len(),
                total == if feed_total(self.feedcategories@.take(i as int)) <= usize::MAX {
                    feed_total(self.feedcategories@.take(i as int))
                } else {
                    usize::MAX as int
                },
            decreases self.feedcategories@.len() - i,
        {
            assert(self.feedcategories@.take(i + 1).drop_last() =~= self.feedcategories@.take(i as int));
            proof {
                lemma_feed_total_nonneg(self.feedcategories@.take(i as int));
            }
            total = total.saturating_add(self.feedcategories[i].feeds.len());
            i = i + 1;
        }
        assert(self.feedcategories@.take(i as int) =~= self.feedcategories@);
        total
    }

    /// Puts `entry` on the read-later list; on success the library changes
    /// generation.
    pub fn add_to_read_later(&mut self, entry: &FeedEntry) -> (r: Result<(), D::Error>)
        requires
            old(self).generation < u64::MAX,
        ensures
            final(self).data.read_later_paths() == if r is Ok {
                old(self).data.read_later_paths().insert(entry_path(*entry))
            } else {
                old(self).data.read_later_paths()
            },
            r is Err ==> final(self).data.read_later_entries() == old(self).data.read_later_entries(),
            final(self).data.seen_paths() == old(self).data.seen_paths(),
            r is Ok ==> final(self).generation == old(self).generation + 1,
            r is Err ==> final(self).generation == old(self).generation,
            final(self).feedcategories@ == old(self).feedcategories@,
            final(self).updater == old(self).updater,
    {
        match self.data.add_to_read_later(entry) {
            Ok(()) => {
                self.generation = self.generation + 1;
                Ok(())
            },
            Err(e) => Err(e),
        }
    }

    /// Takes the entry at `file_path` off the read-later list; on success
    /// the library changes generation.
    pub fn remove_from_read_later(&mut self, file_path: &str) -> (r: Result<(), D::Error>)
        requires
            old(self).generation < u64::MAX,
        ensures
            final(self).data.read_later_paths() == if r is Ok {
                old(self).data.read_later_paths().remove(file_path@)
            } else {
                old(self).data.read_later_paths()
            },
            r is Err ==> final(self).data.read_later_entries() == old(self).data.read_later_entries(),
            final(self).data.seen_paths() == old(self).data.seen_paths(),
            r is Ok ==> final(self).generation == old(self).generation + 1,
            r is Err ==> final(self).generation == old(self).generation,
            final(self).feedcategories@ == old(self).feedcategories@,
            final(self).updater == old(self).updater,
    {
        match self.data.remove_from_read_later(file_path) {
            Ok(()) => {
                self.generation = self.generation + 1;
                Ok(())
            },
            Err(e) => Err(e),
        }
    }

    /// The entries on the read-later list, as the store lists them.
    pub fn get_read_later_feed_entries(&mut self) -> (r: Result<Vec<FeedEntry>, D::Error>)
        ensures
            r is Ok <==> old(self).data.lists_read_later(),
            r matches Ok(v) ==> v@ == old(self).data.read_later_entries(),
            store_lists_kept(old(self).data, final(self).data),
            final(self).feedcategories@ == old(self).feedcategories@,
            final(self).generation == old(self).generation,
            final(self).updater == old(self).updater,
    {
        self.data.get_read_later_feed_entries()
    }

    /// Whether the read-later list has an entry; a store error counts as
    /// an empty list (see `read_later_nonempty`).
    pub fn has_read_later_entries(&mut self) -> (r: bool)
        ensures
            r == (old(self).data.lists_read_later() && old(self).data.read_later_entries().len() > 0),
            store_lists_kept(old(self).data, final(self).data),
            final(self).feedcategories@ == old(self).feedcategories@,
            final(self).generation == old(self).generation,
            final(self).updater == old(self).updater,
    {
        let entries = self.get_read_later_feed_entries();
        read_later_nonempty(&entries)
    }

    /// Whether the entry stored at `file_path` is on the read-later list:
    /// the store's answer, and `false` when the store cannot answer (see
    /// `read_later_answer`).
    pub fn is_in_read_later(&mut self, file_path: &str) -> (r: bool)
        ensures
            r ==> old(self).data.read_later_paths().contains(file_path@),
            store_lists_kept(old(self).data, final(self).data),
            final(self).feedcategories@ == old(self).feedcategories@,
            final(self).generation == old(self).generation,
            final(self).updater == old(self).updater,
    {
        let answer = self.data.is_in_read_later(file_path);
        read_later_answer(&answer)
    }
}

/// What adding `feed` comes to once the store has answered: the store's
/// error from creating it, else its error from writing the entries (when
/// they were written), else the feed.
pub fn add_feed_outcome<E>(feed: FeedItem, created: Result<(), E>, written: Option<Result<(), E>>) -> (r: Result<
    FeedItem,
    AddFeedError<E>,
>)
    ensures
        match created {
            Err(e) => r == Err::<FeedItem, AddFeedError<E>>(AddFeedError::Store(e)),
            Ok(()) => match written {
                Some(Err(e)) => r == Err::<FeedItem, AddFeedError<E>>(AddFeedError::Store(e)),
                _ => r == Ok::<FeedItem, AddFeedError<E>>(feed),
            },
        },
{
    match created {
        Err(e) => Err(AddFeedError::Store(e)),
        Ok(()) => match written {
            Some(Err(e)) => Err(AddFeedError::Store(e)),
            _ => Ok(feed),
        },
    }
}

/// What a read-later membership lookup comes to: the store's answer, and
/// `false` when the store could not answer.
pub fn read_later_answer<E>(lookup: &Result<bool, E>) -> (r: bool)
    ensures
        r == (*lookup matches Ok(b) && b),
{
    match lookup {
        Ok(b) => *b,
        Err(_) => false,
    }
}

/// Whether the store's seen marks and read-later list, and the entries it
/// lists for that list, are the same in `a` and `b`.
pub open spec fn store_lists_kept<D: LibraryStore>(a: D, b: D) -> bool {
    &&& b.seen_paths() == a.seen_paths()
    &&& b.read_later_paths() == a.read_later_paths()
    &&& b.read_later_entries() == a.read_later_entries()
}

/// Whether a read-later lookup found entries: `true` exactly when the lookup
/// succeeded with a non-empty list.
pub fn read_later_nonempty<E>(lookup: &Result<Vec<FeedEntry>, E>) -> (r: bool)
    ensures
        r == (lookup matches Ok(v) && v@.len() > 0),
{
    match lookup {
        Ok(v) => v.len() > 0,
        Err(_) => false,
    }
}

/// After `set_entry_seen` (from library `a` to `b`), the entry is seen in
/// the store, and every entry seen before still is.
pub proof fn lemma_marked_entry_is_seen<D: LibraryStore, U>(a: FeedLibrary<D, U>, b: FeedLibrary<D, U>, entry: FeedEntry)
    requires
        b.data.seen_paths() == a.data.seen_paths().insert(entry_path(entry)),
    ensures
        b.data.seen_paths().contains(entry_path(entry)),
        forall|p: Seq<char>| a.data.seen_paths().contains(p) ==> b.data.seen_paths().contains(p),
{
}

/// `toggle_entry_seen` called twice on an entry (from `a` to `b` to `c`)
/// restores the store's seen marks; the first call changed that entry's
/// mark.
pub proof fn lemma_toggle_seen_twice<D: LibraryStore, U>(
    a: FeedLibrary<D, U>,
    b: FeedLibrary<D, U>,
    c: FeedLibrary<D, U>,
    entry: FeedEntry,
)
    requires
        b.data.seen_paths() == toggled(a.data.seen_paths(), entry_path(entry)),
        c.data.seen_paths() == toggled(b.data.seen_paths(), entry_path(entry)),
    ensures
        c.data.seen_paths() == a.data.seen_paths(),
        b.data.seen_paths().contains(entry_path(entry)) != a.data.seen_paths().contains(entry_path(entry)),
{
    assert(c.data.seen_paths() =~= a.data.seen_paths());
}

/// After a successful `add_to_read_later` (from `a` to `b`), the entry's
/// path is on the store's read-later list, so the store's lookup of it
/// answers yes; the other paths keep their answer.
pub proof fn lemma_added_is_on_read_later<D: LibraryStore, U>(
    a: FeedLibrary<D, U>,
    b: FeedLibrary<D, U>,
    entry: FeedEntry,
    other: Seq<char>,
)
    requires
        b.data.read_later_paths() == a.data.read_later_paths().insert(entry_path(entry)),
    ensures
        b.data.read_later_paths().contains(entry_path(entry)),
        other != entry_path(entry) ==> b.data.read_later_paths().contains(other) == a.data.read_later_paths().contains(
            other,
        ),
{
}

/// After a successful `remove_from_read_later` of `path` (from `a` to `b`),
/// the path is off the store's read-later list, so the lookup answers no;
/// the other paths keep their answer.
pub proof fn lemma_removed_is_off_read_later<D: LibraryStore, U>(
    a: FeedLibrary<D, U>,
    b: FeedLibrary<D, U>,
    path: Seq<char>,
    other: Seq<char>,
)
    requires
        b.data.read_later_paths() == a.data.read_later_paths().remove(path),
    ensures
        !b.data.read_later_paths().contains(path),
        other != path ==> b.data.read_later_paths().contains(other) == a.data.read_later_paths().contains(other),
{
}

/// After a successful `add_feed` of `feed` (from `a` to `b`), the store
/// holds the feed, so a second `add_feed` of it is refused as already
/// existing; the other stored feeds are kept.
pub proof fn lemma_added_feed_is_stored<D: LibraryStore, U>(a: FeedLibrary<D, U>, b: FeedLibrary<D, U>, feed: FeedItem)
    requires
        b.data.feeds() == a.data.feeds().insert((feed.slug@, feed.category@)),
    ensures
        b.data.feeds().contains((feed.slug@, feed.category@)),
        forall|p: (Seq<char>, Seq<char>)| a.data.feeds().contains(p) ==> b.data.feeds().contains(p),
{
}

/// After a successful `delete_feed` of `slug` in `category` (from `b` to
/// `c`), the store no longer holds that feed; a feed added (from `a` to
/// `b`) and then deleted leaves the stored feeds as they were before the
/// add.
pub proof fn lemma_deleted_feed_is_gone<D: LibraryStore, U>(
    a: FeedLibrary<D, U>,
    b: FeedLibrary<D, U>,
    c: FeedLibrary<D, U>,
    slug: Seq<char>,
    category: Seq<char>,
)
    requires
        c.data.feeds() == b.data.feeds().remove((slug, category)),
    ensures
        !c.data.feeds().contains((slug, category)),
        b.data.feeds() == a.data.feeds().insert((slug, category)) && !a.data.feeds().contains((slug, category))
            ==> c.data.feeds() == a.data.feeds(),
{
    if b.data.feeds() == a.data.feeds().insert((slug, category)) && !a.data.feeds().contains((slug, category)) {
        assert(c.data.feeds() =~= a.data.feeds());
    }
}

proof fn lemma_feed_total_nonneg(cats: Seq<FeedCategory>)
    ensures
        feed_total(cats) >= 0,
    decreases cats.len(),
{
    if cats.len() > 0 {
        lemma_feed_total_nonneg(cats.drop_last());
    }
}

} // verus!
