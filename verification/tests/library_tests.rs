use std::cell::RefCell;

use vreader::app::AppWorkStatus;
use vreader::config::{LlmConfig, VReaderRole};
use vreader::llmdialog::{LlmDialog, LlmDialogState};
use vreader::keys::{KeyCode, KeyPress};
use vreader::screens::{toggle_read_later_given, MainCommand, MainEffect, MainInputState, MainScreen};

use vreader::entries::sort_newest_first;
use vreader::feedtree::FeedItemInfo;
use vreader::library::{
    add_feed_outcome, read_later_nonempty, AddFeedError, FeedCategory, FeedEntry, FeedItem, FeedLibrary, LibraryStore, UpdateProgress,
};

/// An in-memory store of feeds, seen marks and the read-later list.
#[derive(Default)]
struct MemoryStore {
    feeds: RefCell<Vec<FeedItem>>,
    entries: Vec<(String, FeedEntry)>,
    seen_marks: Vec<String>,
    read_later: Vec<FeedEntry>,
    fail_read_later: bool,
}

impl MemoryStore {
    fn generate_categories_tree(&self) -> Vec<FeedCategory> {
        let mut cats: Vec<FeedCategory> = Vec::new();
        for feed in self.feeds.borrow().iter() {
            match cats.iter_mut().find(|c| c.title == feed.category) {
                Some(c) => c.feeds.push(feed.clone()),
                None => cats.push(FeedCategory { title: feed.category.clone(), feeds: vec![feed.clone()] }),
            }
        }
        cats
    }
}

impl LibraryStore for MemoryStore {
    type Error = String;

    fn seen_paths(&self) -> vstd::set::Set<vstd::seq::Seq<char>> {
        vstd::set::Set::empty()
    }

    fn read_later_paths(&self) -> vstd::set::Set<vstd::seq::Seq<char>> {
        vstd::set::Set::empty()
    }

    fn read_later_entries(&self) -> vstd::seq::Seq<FeedEntry> {
        vstd::seq::Seq::empty()
    }

    fn feed_entries(&self, _category: vstd::seq::Seq<char>, _slug: vstd::seq::Seq<char>) -> vstd::seq::Seq<FeedEntry> {
        vstd::seq::Seq::empty()
    }

    fn unread_of(&self, _category: vstd::seq::Seq<char>, _slug: vstd::seq::Seq<char>) -> u16 {
        0
    }

    fn loads(&self, _category: vstd::seq::Seq<char>, _slug: vstd::seq::Seq<char>) -> bool {
        true
    }

    fn feeds(&self) -> vstd::set::Set<(vstd::seq::Seq<char>, vstd::seq::Seq<char>)> {
        vstd::set::Set::empty()
    }

    fn lists_read_later(&self) -> bool {
        !self.fail_read_later
    }

    fn feed_exists(&self, slug: &str, category: &str) -> bool {
        self.feeds.borrow().iter().any(|f| f.slug == slug && f.category == category)
    }

    fn feed_create(&mut self, feed: &FeedItem) -> Result<(), String> {
        self.feeds.borrow_mut().push(feed.clone());
        Ok(())
    }

    fn update_feed_entries(&mut self, _category: &str, _feed: &FeedItem, _text: Option<String>) -> Result<(), String> {
        Ok(())
    }

    fn delete_feed(&mut self, slug: &str, category: &str) -> Result<(), String> {
        self.feeds.borrow_mut().retain(|f| !(f.slug == slug && f.category == category));
        Ok(())
    }

    fn load_feed_entries(&self, _category: &FeedCategory, feed: &FeedItem) -> Result<Vec<FeedEntry>, String> {
        Ok(self.entries.iter().filter(|(s, _)| *s == feed.slug).map(|(_, e)| e.clone()).collect())
    }

    fn set_entry_seen(&mut self, entry: &FeedEntry) {
        self.seen_marks.push(entry.title.clone());
    }

    fn toggle_entry_seen(&mut self, entry: &FeedEntry) {
        self.seen_marks.push(entry.title.clone());
    }

    fn get_unread_feed(&self, _category: &str, slug: &str) -> Result<u16, String> {
        Ok(self.entries.iter().filter(|(s, e)| *s == slug && !e.seen).count() as u16)
    }

    fn add_to_read_later(&mut self, entry: &FeedEntry) -> Result<(), String> {
        self.read_later.push(entry.clone());
        Ok(())
    }

    fn remove_from_read_later(&mut self, file_path: &str) -> Result<(), String> {
        self.read_later.retain(|e| e.filepath.to_str() != Some(file_path));
        Ok(())
    }

    fn is_in_read_later(&mut self, file_path: &str) -> Result<bool, String> {
        if self.fail_read_later {
            Err("unreadable".to_string())
        } else {
            Ok(self.read_later.iter().any(|e| e.filepath.to_str() == Some(file_path)))
        }
    }

    fn get_read_later_feed_entries(&mut self) -> Result<Vec<FeedEntry>, String> {
        if self.fail_read_later {
            Err("unreadable".to_string())
        } else {
            Ok(self.read_later.clone())
        }
    }
}

struct Progress {
    completed: u16,
    finished: bool,
}

impl UpdateProgress for Progress {
    fn total_completed(&self) -> u16 {
        self.completed
    }

    fn last_completed(&self) -> String {
        format!("feed {}", self.completed)
    }

    fn finished(&self) -> bool {
        self.finished
    }
}

fn new_library() -> FeedLibrary<MemoryStore, Progress> {
    FeedLibrary::new(Vec::new(), MemoryStore::default())
}

fn feed(title: &str, slug: &str, url: &str, category: &str) -> FeedItem {
    FeedItem { title: title.to_string(), slug: slug.to_string(), feed_url: url.to_string(), category: category.to_string() }
}

fn entry(title: &str, date: i64) -> FeedEntry {
    FeedEntry { title: title.to_string(), date, ..Default::default() }
}

#[test]
fn test_add_and_delete_feed() {
    let mut library = new_library();

    let feed_to_add = FeedItem {
        title: "My Test Feed".to_string(),
        slug: "my-test-feed".to_string(),
        category: "testing".to_string(),
        ..Default::default()
    };

    assert!(library.add_feed(feed_to_add.clone(), None).is_ok());
    assert!(library.data.feed_exists("my-test-feed", "testing"));

    assert!(library.delete_feed(&feed_to_add.slug, &feed_to_add.category).is_ok());
    assert!(!library.data.feed_exists("my-test-feed", "testing"));
}

fn setup_test_library_for_matches() -> FeedLibrary<MemoryStore, Progress> {
    let mut library = new_library();

    let feed1 = feed("My Test Feed", "my-test-feed", "https://mytestfeed/rss", "testing");
    let feed2 = feed("New sports feed", "new-sports-feed", "https://sportsfeed/rss", "sports");
    let feed3 = feed("TechCrunch", "techcrunch", "https://techcrunch/feed", "tech");

    assert!(library.add_feed(feed1.clone(), None).is_ok());
    assert!(library.add_feed(feed2.clone(), None).is_ok());
    assert!(library.add_feed(feed3.clone(), None).is_ok());
    assert!(library.data.feed_exists("techcrunch", "tech"));
    assert!(library.data.feed_exists("new-sports-feed", "sports"));
    assert!(library.data.feed_exists("my-test-feed", "testing"));

    library.feedcategories = library.data.generate_categories_tree();

    library
}

#[test]
fn test_exact_slug_match() {
    let library = setup_test_library_for_matches();
    let ident = "my-test-feed";

    let matches = library.get_matching_feeds(ident);
    assert_eq!(matches.len(), 1, "Should find exactly one match for exact slug.");
    assert_eq!(matches[0].slug, ident);
}

#[test]
fn test_typo_in_title() {
    let library = setup_test_library_for_matches();
    let ident = "new spotfed";

    let matches = library.get_matching_feeds(ident);
    assert_ne!(matches.len(), 0, "Should not be empty for the typo title");
    assert_eq!(matches[0].title, "New sports feed");
}

#[test]
fn test_url_match() {
    let library = setup_test_library_for_matches();
    let ident = "http:/techrunch.com/fed";

    let matches = library.get_matching_feeds(ident);
    assert_eq!(matches.len(), 1, "Should find exactly one match for the url");
    assert_eq!(matches[0].feed_url, "https://techcrunch/feed");
}

#[test]
fn test_low_score_no_match() {
    let library = setup_test_library_for_matches();
    let ident = "mytest";

    let matches = library.get_matching_feeds(ident);
    assert_eq!(matches.len(), 0);
}

#[test]
fn test_multiple_matches() {
    let mut library = new_library();

    let feed1 = feed("TechCrunch", "techcrunch", "https://techcrunch/feed", "General");
    let feed2 = feed("TechCrunch", "techcrunch", "https://techcrunch/feed", "tech");

    assert!(library.add_feed(feed1.clone(), None).is_ok());
    assert!(library.add_feed(feed2.clone(), None).is_ok());
    library.feedcategories = library.data.generate_categories_tree();

    let ident = "techcrunch";
    let matches = library.get_matching_feeds(ident);

    assert!(library.data.feed_exists("techcrunch", "tech"));
    assert!(library.data.feed_exists("techcrunch", "General"));

    assert_eq!(matches.len(), 2);
    assert_eq!(matches[0].title, matches[1].title, "Titles should be equal since both are same feeds.");
    assert_ne!(matches[0].category, matches[1].category, "Category should be different for both the feeds.");
}

#[test]
fn add_feed_refuses_a_duplicate() {
    let mut library = new_library();
    let f = feed("Dup", "dup", "https://dup/rss", "General");
    assert!(library.add_feed(f.clone(), None).is_ok());
    match library.add_feed(f.clone(), Some("text".to_string())) {
        Err(AddFeedError::AlreadyExists(title)) => assert_eq!(title, "Dup"),
        _ => panic!("a duplicate feed must be refused"),
    }
}

#[test]
fn generation_counts_each_change() {
    let mut library = new_library();
    let e = entry("A", 1);
    library.bump_generation();
    library.set_entry_seen(&e);
    library.toggle_entry_seen(&e);
    assert_eq!(library.generation, 3);
    assert!(library.add_to_read_later(&e).is_ok());
    assert_eq!(library.generation, 4);
    assert_eq!(library.data.seen_marks, vec!["A".to_string(), "A".to_string()]);
}

#[test]
fn update_follows_the_updater() {
    let mut library = new_library();
    library.update();
    assert_eq!(library.generation, 0);

    library.start_updater(Progress { completed: 2, finished: false });
    library.update();
    assert_eq!(library.generation, 1);
    assert_eq!(library.last_updater_completed, 2);
    library.update();
    assert_eq!(library.generation, 1);

    library.updater = Some(Progress { completed: 3, finished: true });
    library.update();
    assert_eq!(library.generation, 3);
    assert!(library.updater.is_none());
    assert_eq!(library.last_updater_completed, 0);
}

#[test]
fn is_empty_needs_a_feed() {
    let mut library = new_library();
    assert!(library.is_empty());
    library.feedcategories = vec![FeedCategory { title: "General".to_string(), feeds: vec![] }];
    assert!(library.is_empty());
    library.feedcategories[0].feeds.push(feed("T", "t", "u", "General"));
    assert!(!library.is_empty());
    assert_eq!(library.total_feeds(), 1);
}

#[test]
fn read_later_lookups() {
    let mut library = new_library();
    assert!(!library.has_read_later_entries());
    let e = FeedEntry { filepath: "/tmp/a.md".into(), ..entry("A", 1) };
    assert!(library.add_to_read_later(&e).is_ok());
    assert!(library.has_read_later_entries());
    assert!(library.is_in_read_later("/tmp/a.md"));
    assert!(library.remove_from_read_later("/tmp/a.md").is_ok());
    assert!(!library.is_in_read_later("/tmp/a.md"));
    library.data.fail_read_later = true;
    assert!(!library.has_read_later_entries());
    let failed: Result<Vec<FeedEntry>, String> = Err("x".to_string());
    assert!(!read_later_nonempty(&failed));
}

#[test]
fn entries_come_newest_first_and_stable() {
    let v = vec![entry("a", 5), entry("b", 9), entry("c", 5), entry("d", 1), entry("e", 9)];
    let sorted = sort_newest_first(v);
    let titles: Vec<&str> = sorted.iter().map(|e| e.title.as_str()).collect();
    assert_eq!(titles, vec!["b", "e", "a", "c", "d"]);
}

#[test]
fn entries_by_category_and_slug() {
    let mut library = new_library();
    library.data.entries = vec![
        ("one".to_string(), entry("old", 1)),
        ("two".to_string(), entry("new", 7)),
        ("one".to_string(), entry("mid", 4)),
    ];
    library.feedcategories = vec![FeedCategory {
        title: "General".to_string(),
        feeds: vec![feed("One", "one", "u1", "General"), feed("Two", "two", "u2", "General")],
    }];
    let all = library.get_feed_entries_by_category("General").unwrap();
    let titles: Vec<&str> = all.iter().map(|e| e.title.as_str()).collect();
    assert_eq!(titles, vec!["new", "mid", "old"]);
    let one = library.get_feed_entries_by_item_slug("one").unwrap();
    let titles: Vec<&str> = one.iter().map(|e| e.title.as_str()).collect();
    assert_eq!(titles, vec!["mid", "old"]);
    assert!(library.get_feed_entries_by_item_slug("none").unwrap().is_empty());
    assert!(library.get_feed_entries_by_category("Other").unwrap().is_empty());
}

#[test]
fn read_later_toggles_by_file_path() {
    let mut library = new_library();
    let mut screen = MainScreen::new(VReaderRole::Parent, None);
    let e = FeedEntry { filepath: "/tmp/b.md".into(), ..entry("B", 2) };
    assert!(screen.toggle_read_later(&mut library, &e));
    assert!(library.data.is_in_read_later("/tmp/b.md").unwrap());
    assert_eq!(library.generation, 1);
    assert!(!screen.toggle_read_later(&mut library, &e));
    assert!(!library.data.is_in_read_later("/tmp/b.md").unwrap());
    assert_eq!(library.generation, 2);
}

#[test]
fn all_entries_of_the_selection_are_marked_read() {
    let mut library = new_library();
    library.data.entries = vec![("one".to_string(), entry("x", 1)), ("one".to_string(), entry("y", 2))];
    library.feedcategories =
        vec![FeedCategory { title: "General".to_string(), feeds: vec![feed("One", "one", "u1", "General")] }];
    let mut screen = MainScreen::new(VReaderRole::Parent, None);
    screen.feedtreestate.update(&mut library);
    // the category heading is selected
    screen.set_all_read(&mut library);
    assert_eq!(library.data.seen_marks, vec!["y".to_string(), "x".to_string()]);
    assert_eq!(library.generation, 1);
    // the feed line
    screen.feedtreestate.select_next();
    screen.set_all_read(&mut library);
    assert_eq!(library.data.seen_marks.len(), 4);
    assert_eq!(library.generation, 2);
}

#[test]
fn update_status_counts_all_feeds() {
    let mut library = new_library();
    assert!(library.get_update_status().is_none());
    library.feedcategories = vec![
        FeedCategory { title: "General".to_string(), feeds: vec![feed("One", "one", "u1", "General")] },
        FeedCategory {
            title: "News".to_string(),
            feeds: vec![feed("Two", "two", "u2", "News"), feed("Three", "three", "u3", "News")],
        },
    ];
    library.start_updater(Progress { completed: 2, finished: false });
    match library.get_update_status() {
        AppWorkStatus::Working(done, total, last) => {
            assert_eq!((done, total, last.as_str()), (2, 3, "feed 2"));
        }
        AppWorkStatus::Idle => panic!("an updater is running"),
    }
    let parent = MainScreen::new(VReaderRole::Parent, None);
    assert!(!parent.get_work_status(&library).is_none());
    let kid = MainScreen::new(VReaderRole::Kid, None);
    assert!(kid.get_work_status(&library).is_none());
}

#[test]
fn read_later_toggle_follows_the_lookup() {
    let mut library = new_library();
    let mut e = entry("a", 1);
    e.filepath = std::path::PathBuf::from("/tmp/c.md");
    assert!(toggle_read_later_given(&mut library, &e, "/tmp/c.md", false));
    assert!(library.data.is_in_read_later("/tmp/c.md").unwrap());
    assert_eq!(library.generation, 1);
    assert!(!toggle_read_later_given(&mut library, &e, "/tmp/c.md", true));
    assert!(!library.data.is_in_read_later("/tmp/c.md").unwrap());
    assert_eq!(library.generation, 2);
}

#[test]
fn roles_parse_through_from_str() {
    assert_eq!("Kids".parse::<VReaderRole>(), Ok(VReaderRole::Kid));
    assert_eq!("operator".parse::<VReaderRole>(), Ok(VReaderRole::Operator));
    assert_eq!(
        "boss".parse::<VReaderRole>(),
        Err("Invalid role: boss. Expected: operator, parent, kid".to_string())
    );
}

fn press(c: KeyCode) -> KeyPress {
    KeyPress { control: false, code: c }
}

#[test]
fn main_screen_focus_and_tree_width_keys() {
    let mut library = new_library();
    let mut entries: Vec<FeedEntry> = vec![];
    let mut width: u16 = 30;
    let mut screen = MainScreen::new(VReaderRole::Kid, None);
    let (cmd, effect) = screen.handle_keypress(&press(KeyCode::Right), &mut library, &mut entries, None, &mut width);
    assert!(cmd == MainCommand::FocusContent && matches!(effect, MainEffect::Nothing));
    assert!(screen.inputstate == MainInputState::Content);
    let (cmd, _) = screen.handle_keypress(&press(KeyCode::Char('>')), &mut library, &mut entries, None, &mut width);
    assert!(cmd == MainCommand::WidenTree);
    assert_eq!(width, 32);
    let (cmd, _) = screen.handle_keypress(&press(KeyCode::Char('h')), &mut library, &mut entries, None, &mut width);
    assert!(cmd == MainCommand::FocusMenu);
    assert!(screen.inputstate == MainInputState::Menu);
    let (_, effect) = screen.handle_keypress(&press(KeyCode::Char('?')), &mut library, &mut entries, None, &mut width);
    assert!(matches!(effect, MainEffect::OpenHelp(h) if h.categories[0].title == "Navigation"));
    let (_, effect) = screen.handle_keypress(&press(KeyCode::Char('L')), &mut library, &mut entries, None, &mut width);
    assert!(matches!(effect, MainEffect::OpenLlmDialog(d) if d.runtime.is_none()));
    assert_eq!(library.generation, 0);
}

#[test]
fn entry_keys_act_on_the_selected_entry() {
    let mut library = new_library();
    let mut screen = MainScreen::new(VReaderRole::Parent, None);
    screen.inputstate = MainInputState::Content;
    let mut width: u16 = 30;
    let mut a = entry("a", 1);
    a.url = "https://a".to_string();
    a.filepath = "/tmp/a.md".into();
    let mut entries = vec![a, entry("b", 2)];

    // without entries the entry keys do nothing, and a link cannot open
    let mut none: Vec<FeedEntry> = vec![];
    let (_, effect) = screen.handle_keypress(&press(KeyCode::Enter), &mut library, &mut none, None, &mut width);
    assert!(matches!(effect, MainEffect::Nothing));
    let (_, effect) = screen.handle_keypress(&press(KeyCode::Char('o')), &mut library, &mut none, None, &mut width);
    assert!(matches!(effect, MainEffect::Notify("Couldn't open link externally", true)));
    assert_eq!(library.generation, 0);

    // r flips the seen mark of the selected entry
    let (_, effect) = screen.handle_keypress(&press(KeyCode::Char('r')), &mut library, &mut entries, Some(0), &mut width);
    assert!(matches!(effect, MainEffect::Notify("Marked as Read", false)));
    assert_eq!(library.generation, 1);

    // o marks it seen and hands its link on
    let (_, effect) = screen.handle_keypress(&press(KeyCode::Char('o')), &mut library, &mut entries, Some(0), &mut width);
    assert!(matches!(effect, MainEffect::OpenUrl(u) if u == "https://a"));
    assert_eq!(library.generation, 2);

    // L files it on the read-later list, then takes it off again
    let (_, effect) = screen.handle_keypress(&press(KeyCode::Char('L')), &mut library, &mut entries, Some(0), &mut width);
    assert!(matches!(effect, MainEffect::Notify("Added to Read Later", false)));
    let (_, effect) = screen.handle_keypress(&press(KeyCode::Char('L')), &mut library, &mut entries, Some(0), &mut width);
    assert!(matches!(effect, MainEffect::Notify("Removed from Read Later", false)));
    assert_eq!(library.generation, 4);

    // Enter on a selection past the end reads the last entry
    let (_, effect) = screen.handle_keypress(&press(KeyCode::Enter), &mut library, &mut entries, Some(1), &mut width);
    assert!(entries[1].seen && !entries[0].seen);
    match effect {
        MainEffect::OpenReader(reader) => {
            assert_eq!(reader.current_index, 1);
            assert_eq!(reader.entries.len(), 2);
            assert!(reader.entries[1].seen);
        }
        _ => panic!("Enter opens the reader"),
    }
    assert_eq!(library.generation, 5);

    // R marks everything read with a notice
    let (_, effect) = screen.handle_keypress(&press(KeyCode::Char('R')), &mut library, &mut entries, Some(0), &mut width);
    assert!(matches!(effect, MainEffect::Notify("All marked as Read", false)));
    assert_eq!(library.generation, 6);
}

#[test]
fn a_store_that_cannot_answer_counts_as_not_on_the_list() {
    let mut library = new_library();
    let e = FeedEntry { filepath: "/tmp/d.md".into(), ..entry("D", 4) };
    assert!(library.add_to_read_later(&e).is_ok());
    assert!(library.is_in_read_later("/tmp/d.md"));
    library.data.fail_read_later = true;
    assert!(!library.is_in_read_later("/tmp/d.md"));
}

fn llm_config() -> LlmConfig {
    LlmConfig {
        provider: "deepseek".to_string(),
        api_url: Some("https://llm.example/".to_string()),
        api_key: Some("key".to_string()),
        model: None,
        kid_safe_filter: false,
    }
}

#[test]
fn smart_pick_gathers_the_library_feeds() {
    let mut library = new_library();
    let mut dialog = LlmDialog::new(Some(&llm_config()));
    assert!(dialog.start_smart_pick(&library).is_none());
    assert!(matches!(&dialog.state, LlmDialogState::Error(m) if m == "No feeds to analyze. Add some feeds first."));
    library.feedcategories =
        vec![FeedCategory { title: "General".to_string(), feeds: vec![feed("One", "one", "https://one", "General")] }];
    let call = dialog.start_smart_pick(&library).unwrap();
    assert!(call.messages[1].content.contains("One"));
    assert!(call.messages[1].content.contains("https://one"));
    assert_eq!(call.url, "https://llm.example/v1/chat/completions");
    dialog.finish_smart_pick(Err("timeout".to_string()));
    assert!(matches!(&dialog.state, LlmDialogState::Error(m) if m == "Smart Pick failed: timeout"));
    dialog.finish_smart_pick(Ok("feeds".to_string()));
    assert!(matches!(&dialog.state, LlmDialogState::Result(m) if m == "feeds"));
}

#[test]
fn digest_gathers_unread_articles() {
    let mut library = new_library();
    library.feedcategories =
        vec![FeedCategory { title: "General".to_string(), feeds: vec![feed("One", "one", "https://one", "General")] }];
    let mut dialog = LlmDialog::new(Some(&llm_config()));
    assert!(dialog.start_digest(&library).is_none());
    assert!(matches!(&dialog.state, LlmDialogState::Error(m) if m == "No unread articles to summarize."));
    let mut read = entry("Read one", 1);
    read.seen = true;
    library.data.entries = vec![("one".to_string(), entry("Fresh news", 2)), ("one".to_string(), read)];
    let call = dialog.start_digest(&library).unwrap();
    assert!(call.messages[1].content.contains("[General] Fresh news"));
    assert!(!call.messages[1].content.contains("Read one"));
    dialog.finish_digest(Err("down".to_string()));
    assert!(matches!(&dialog.state, LlmDialogState::Error(m) if m == "Digest failed: down"));
}

#[test]
fn add_feed_outcome_follows_the_store_answers() {
    let f = feed("T", "t", "u", "General");
    match add_feed_outcome::<String>(f.clone(), Err("create".to_string()), None) {
        Err(AddFeedError::Store(e)) => assert_eq!(e, "create"),
        _ => panic!("a failed create is a store error"),
    }
    match add_feed_outcome::<String>(f.clone(), Ok(()), Some(Err("write".to_string()))) {
        Err(AddFeedError::Store(e)) => assert_eq!(e, "write"),
        _ => panic!("a failed write is a store error"),
    }
    match add_feed_outcome::<String>(f.clone(), Ok(()), Some(Ok(()))) {
        Ok(added) => assert_eq!(added.slug, "t"),
        _ => panic!("a created and written feed is added"),
    }
    assert!(add_feed_outcome::<String>(f, Ok(()), None).is_ok());
}

#[test]
fn a_deleted_feed_can_be_added_again() {
    let mut library = new_library();
    let f = feed("Again", "again", "https://again/rss", "General");
    assert!(library.add_feed(f.clone(), None).is_ok());
    assert!(library.data.feed_exists("again", "General"));
    assert!(library.delete_feed("again", "General").is_ok());
    assert!(!library.data.feed_exists("again", "General"));
    assert!(library.add_feed(f, None).is_ok());
    assert!(library.data.feed_exists("again", "General"));
}

#[test]
fn nothing_is_marked_read_when_the_read_later_list_fails() {
    let mut library = new_library();
    library.data.read_later = vec![FeedEntry { filepath: "/tmp/r.md".into(), ..entry("r", 1) }];
    let mut screen = MainScreen::new(VReaderRole::Parent, None);
    screen.feedtreestate.update(&mut library);
    assert_eq!(screen.feedtreestate.read_later_count, 1);
    let last = screen.feedtreestate.treeitems.len() - 1;
    assert!(matches!(screen.feedtreestate.treeitems[last], FeedItemInfo::ReadLater));
    screen.feedtreestate.listatate.select(Some(last));
    library.data.fail_read_later = true;
    screen.set_all_read(&mut library);
    assert!(library.data.seen_marks.is_empty());
    assert_eq!(library.generation, 1);
    library.data.fail_read_later = false;
    screen.set_all_read(&mut library);
    assert_eq!(library.data.seen_marks, vec!["r".to_string()]);
    assert_eq!(library.generation, 2);
}
