use vreader::feedtree::{read_later_count_of, FeedItemInfo, FeedTreeState, ListSelection, TreeLineKind};
use vreader::text::decimal_string;
use vreader::library::{FeedCategory, FeedEntry, FeedItem, FeedLibrary, LibraryStore, UpdateProgress};

/// A store with a fixed read-later list and unread counts.
struct FixedStore {
    read_later: Vec<FeedEntry>,
    unread: u16,
}

impl LibraryStore for FixedStore {
    type Error = ();

    fn seen_paths(&self) -> vstd::set::Set<vstd::seq::Seq<char>> {
        vstd::set::Set::empty()
    }

    fn read_later_paths(&self) -> vstd::set::Set<vstd::seq::Seq<char>> {
        vstd::set::Set::empty()
    }

    fn read_later_entries(&self) -> vstd::seq::Seq<FeedEntry> {
        vstd::seq::Seq::empty()
    }

    fn feed_entries(&self, _category: vstd::seq::Seq<char>, _slug: vstd::seq::Seq<char>) -> vstd::seq::Seq<FeedEntry> {
        vstd::seq::Seq::empty()
    }

    fn unread_of(&self, _category: vstd::seq::Seq<char>, _slug: vstd::seq::Seq<char>) -> u16 {
        0
    }

    fn loads(&self, _category: vstd::seq::Seq<char>, _slug: vstd::seq::Seq<char>) -> bool {
        true
    }

    fn feeds(&self) -> vstd::set::Set<(vstd::seq::Seq<char>, vstd::seq::Seq<char>)> {
        vstd::set::Set::empty()
    }

    fn lists_read_later(&self) -> bool {
        true
    }

    fn feed_exists(&self, _slug: &str, _category: &str) -> bool {
        false
    }

    fn feed_create(&mut self, _feed: &FeedItem) -> Result<(), ()> {
        Ok(())
    }

    fn update_feed_entries(&mut self, _category: &str, _feed: &FeedItem, _text: Option<String>) -> Result<(), ()> {
        Ok(())
    }

    fn delete_feed(&mut self, _slug: &str, _category: &str) -> Result<(), ()> {
        Ok(())
    }

    fn load_feed_entries(&self, _category: &FeedCategory, _feed: &FeedItem) -> Result<Vec<FeedEntry>, ()> {
        Ok(vec![])
    }

    fn set_entry_seen(&mut self, _entry: &FeedEntry) {}

    fn toggle_entry_seen(&mut self, _entry: &FeedEntry) {}

    fn get_unread_feed(&self, _category: &str, slug: &str) -> Result<u16, ()> {
        if slug == "broken" {
            Err(())
        } else {
            Ok(self.unread)
        }
    }

    fn add_to_read_later(&mut self, _entry: &FeedEntry) -> Result<(), ()> {
        Ok(())
    }

    fn remove_from_read_later(&mut self, _file_path: &str) -> Result<(), ()> {
        Ok(())
    }

    fn is_in_read_later(&mut self, _file_path: &str) -> Result<bool, ()> {
        Ok(false)
    }

    fn get_read_later_feed_entries(&mut self) -> Result<Vec<FeedEntry>, ()> {
        Ok(self.read_later.clone())
    }
}

struct Idle;

impl UpdateProgress for Idle {
    fn total_completed(&self) -> u16 {
        0
    }

    fn last_completed(&self) -> String {
        String::new()
    }

    fn finished(&self) -> bool {
        false
    }
}

fn item(title: &str, slug: &str, category: &str) -> FeedItem {
    FeedItem { title: title.to_string(), slug: slug.to_string(), feed_url: String::new(), category: category.to_string() }
}

fn library(with_read_later: bool) -> FeedLibrary<FixedStore, Idle> {
    let cats = vec![
        FeedCategory { title: "News".to_string(), feeds: vec![item("A", "a", "News"), item("B", "broken", "News")] },
        FeedCategory { title: "Tech".to_string(), feeds: vec![item("C", "c", "Tech")] },
    ];
    let read_later = if with_read_later { vec![FeedEntry::default(), FeedEntry::default()] } else { vec![] };
    FeedLibrary::new(cats, FixedStore { read_later, unread: 4 })
}

fn kinds(tree: &FeedTreeState) -> Vec<String> {
    tree.treeitems
        .iter()
        .map(|i| match i {
            FeedItemInfo::Category(t) => format!("cat:{t}"),
            FeedItemInfo::Item(t, c, s) => format!("item:{t}:{c}:{s}"),
            FeedItemInfo::Separator => "sep".to_string(),
            FeedItemInfo::ReadLater => "later".to_string(),
        })
        .collect()
}

#[test]
fn tree_is_built_from_the_library() {
    let mut lib = library(true);
    let mut tree = FeedTreeState::new();
    tree.update(&mut lib);
    assert_eq!(
        kinds(&tree),
        vec!["cat:News", "item:A:News:a", "item:B:News:broken", "cat:Tech", "item:C:Tech:c", "sep", "later"]
    );
    assert_eq!(tree.read_later_count, 2);
    assert_eq!(tree.last_generation, 0);
    assert_eq!(tree.unread_count("News", "a"), 4);
    assert_eq!(tree.unread_count("News", "broken"), 0);
    assert_eq!(tree.unread_count("Tech", "zzz"), 0);

    // an unchanged library leaves the tree alone
    tree.treeitems.clear();
    tree.update(&mut lib);
    assert!(tree.treeitems.is_empty());
    lib.bump_generation();
    tree.update(&mut lib);
    assert_eq!(tree.treeitems.len(), 7);
}

#[test]
fn tree_without_read_later_has_no_separator() {
    let mut lib = library(false);
    let mut tree = FeedTreeState::new();
    tree.update(&mut lib);
    assert_eq!(tree.treeitems.len(), 5);
    assert_eq!(tree.read_later_count, 0);
}

#[test]
fn selection_skips_the_separator() {
    let mut lib = library(true);
    let mut tree = FeedTreeState::new();
    tree.update(&mut lib);
    tree.listatate.select(Some(4));
    tree.select_next();
    assert_eq!(tree.listatate.selected(), Some(6));
    tree.select_next();
    assert_eq!(tree.listatate.selected(), Some(6));
    tree.select_previous();
    assert_eq!(tree.listatate.selected(), Some(4));
    tree.select_first();
    assert_eq!(tree.listatate.selected(), Some(0));
    tree.select_previous();
    assert_eq!(tree.listatate.selected(), Some(0));
    tree.select_last();
    assert_eq!(tree.listatate.selected(), Some(6));
    tree.listatate.select(Some(100));
    tree.select_previous();
    assert_eq!(tree.listatate.selected(), Some(4));
    tree.listatate.select(None);
    tree.select_next();
    assert_eq!(tree.listatate.selected(), Some(0));
}

#[test]
fn category_jumps() {
    let mut lib = library(true);
    let mut tree = FeedTreeState::new();
    tree.update(&mut lib);
    tree.select_next_category();
    assert_eq!(tree.listatate.selected(), Some(3));
    tree.select_next_category();
    assert_eq!(tree.listatate.selected(), Some(6));
    tree.select_next_category();
    assert_eq!(tree.listatate.selected(), Some(6));
    tree.select_previous_category();
    assert_eq!(tree.listatate.selected(), Some(3));
    tree.select_previous_category();
    assert_eq!(tree.listatate.selected(), Some(0));
    tree.select_previous_category();
    assert_eq!(tree.listatate.selected(), Some(0));
}

#[test]
fn selected_line_is_clamped() {
    let mut lib = library(false);
    let mut tree = FeedTreeState::new();
    assert!(tree.get_selected().is_none());
    tree.update(&mut lib);
    tree.listatate.select(Some(99));
    assert!(matches!(tree.get_selected(), Some(FeedItemInfo::Item(t, _, _)) if t == "C"));
    tree.listatate.select(None);
    assert!(matches!(tree.get_selected(), Some(FeedItemInfo::Category(t)) if t == "News"));
}

#[test]
fn list_selection_steps() {
    let mut s = ListSelection::new();
    s.select_previous();
    assert_eq!(s.selected(), Some(usize::MAX));
    s.select_next();
    assert_eq!(s.selected(), Some(usize::MAX));
    s.select_first();
    s.select_previous();
    assert_eq!(s.selected(), Some(0));
    s.offset = 5;
    s.select(None);
    assert_eq!(s.offset, 0);
    s.select_last();
    assert_eq!(s.selected(), Some(usize::MAX));
}

#[test]
fn tree_lines_show_counts() {
    let mut lib = library(true);
    let mut tree = FeedTreeState::new();
    tree.update(&mut lib);
    let lines = tree.get_items();
    let texts: Vec<&str> = lines.iter().map(|l| l.text.as_str()).collect();
    assert_eq!(
        texts,
        vec![
            " \u{25CE} News",
            " \u{1F4E1}  A (4)",
            " \u{1F4E1}  B",
            " \u{25CE} Tech",
            " \u{1F4E1}  C (4)",
            "",
            "\u{1F516} Read Later (2)",
        ]
    );
    assert!(matches!(&lines[0].kind, TreeLineKind::Heading(c) if c == "News"));
    assert!(matches!(&lines[2].kind, TreeLineKind::Feed(c) if c == "News"));
    assert!(matches!(lines[5].kind, TreeLineKind::Blank));
    assert!(matches!(lines[6].kind, TreeLineKind::ReadLater));

    // without unread entries a feed line shows no count
    lib.data.unread = 0;
    lib.bump_generation();
    tree.update(&mut lib);
    assert_eq!(tree.get_item(1).text, " \u{1F4E1}  A");
}

#[test]
fn numbers_are_written_in_decimal() {
    assert_eq!(decimal_string(0), "0");
    assert_eq!(decimal_string(7), "7");
    assert_eq!(decimal_string(10), "10");
    assert_eq!(decimal_string(65535), "65535");
    assert_eq!(decimal_string(u64::MAX), u64::MAX.to_string());
}

#[test]
fn unread_counts_keep_one_record_per_feed() {
    let cats = vec![
        FeedCategory { title: "News".to_string(), feeds: vec![item("A", "a", "News")] },
        FeedCategory { title: "News".to_string(), feeds: vec![item("A again", "a", "News")] },
    ];
    let mut lib: FeedLibrary<FixedStore, Idle> = FeedLibrary::new(cats, FixedStore { read_later: vec![], unread: 3 });
    let mut tree = FeedTreeState::new();
    tree.update(&mut lib);
    assert_eq!(tree.unread_counts.len(), 1);
    assert_eq!(tree.unread_count("News", "a"), 3);
}

#[test]
fn read_later_count_of_a_lookup() {
    assert_eq!(read_later_count_of::<()>(&Ok(vec![FeedEntry::default(), FeedEntry::default()])), 2);
    assert_eq!(read_later_count_of::<()>(&Err(())), 0);
}
