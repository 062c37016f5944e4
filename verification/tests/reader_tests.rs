use vreader::app::AppScreen;
use vreader::keys::{KeyCode, KeyPress};
use vreader::library::{FeedCategory, FeedEntry, FeedItem, FeedLibrary, LibraryStore, UpdateProgress};
use vreader::reader::{narrow_width, reader_command, widen_width, wrapped_line_extra, ReaderCommand, ReaderScreen};

/// A store that records which entries were marked as seen.
#[derive(Default)]
struct SeenLog {
    seen: Vec<String>,
}

impl LibraryStore for SeenLog {
    type Error = ();

    fn seen_paths(&self) -> vstd::set::Set<vstd::seq::Seq<char>> {
        vstd::set::Set::empty()
    }

    fn read_later_paths(&self) -> vstd::set::Set<vstd::seq::Seq<char>> {
        vstd::set::Set::empty()
    }

    fn read_later_entries(&self) -> vstd::seq::Seq<FeedEntry> {
        vstd::seq::Seq::empty()
    }

    fn feed_entries(&self, _category: vstd::seq::Seq<char>, _slug: vstd::seq::Seq<char>) -> vstd::seq::Seq<FeedEntry> {
        vstd::seq::Seq::empty()
    }

    fn unread_of(&self, _category: vstd::seq::Seq<char>, _slug: vstd::seq::Seq<char>) -> u16 {
        0
    }

    fn loads(&self, _category: vstd::seq::Seq<char>, _slug: vstd::seq::Seq<char>) -> bool {
        true
    }

    fn feeds(&self) -> vstd::set::Set<(vstd::seq::Seq<char>, vstd::seq::Seq<char>)> {
        vstd::set::Set::empty()
    }

    fn lists_read_later(&self) -> bool {
        true
    }

    fn feed_exists(&self, _slug: &str, _category: &str) -> bool {
        false
    }

    fn feed_create(&mut self, _feed: &FeedItem) -> Result<(), ()> {
        Ok(())
    }

    fn update_feed_entries(&mut self, _category: &str, _feed: &FeedItem, _text: Option<String>) -> Result<(), ()> {
        Ok(())
    }

    fn delete_feed(&mut self, _slug: &str, _category: &str) -> Result<(), ()> {
        Ok(())
    }

    fn load_feed_entries(&self, _category: &FeedCategory, _feed: &FeedItem) -> Result<Vec<FeedEntry>, ()> {
        Ok(vec![])
    }

    fn set_entry_seen(&mut self, entry: &FeedEntry) {
        self.seen.push(entry.title.clone());
    }

    fn toggle_entry_seen(&mut self, _entry: &FeedEntry) {}

    fn get_unread_feed(&self, _category: &str, _slug: &str) -> Result<u16, ()> {
        Ok(0)
    }

    fn add_to_read_later(&mut self, _entry: &FeedEntry) -> Result<(), ()> {
        Ok(())
    }

    fn remove_from_read_later(&mut self, _file_path: &str) -> Result<(), ()> {
        Ok(())
    }

    fn is_in_read_later(&mut self, _file_path: &str) -> Result<bool, ()> {
        Ok(false)
    }

    fn get_read_later_feed_entries(&mut self) -> Result<Vec<FeedEntry>, ()> {
        Ok(vec![])
    }
}

struct Idle;

impl UpdateProgress for Idle {
    fn total_completed(&self) -> u16 {
        0
    }

    fn last_completed(&self) -> String {
        String::new()
    }

    fn finished(&self) -> bool {
        false
    }
}

fn create_test_entries() -> Vec<FeedEntry> {
    vec![
        FeedEntry { title: "Entry 1".to_string(), ..Default::default() },
        FeedEntry { title: "Entry 2".to_string(), ..Default::default() },
        FeedEntry { title: "Entry 3".to_string(), ..Default::default() },
    ]
}

fn key(code: KeyCode) -> KeyPress {
    KeyPress { control: false, code }
}

fn ctrl(c: char) -> KeyPress {
    KeyPress { control: true, code: KeyCode::Char(c) }
}

#[test]
fn test_navigation() {
    let mut library: FeedLibrary<SeenLog, Idle> = FeedLibrary::new(Vec::new(), SeenLog::default());
    let entries = create_test_entries();
    let mut reader_screen = ReaderScreen::new(entries, 0);

    assert_eq!(reader_screen.current_index, 0);
    reader_screen.next_entry(&mut library);
    assert_eq!(reader_screen.current_index, 1);
    reader_screen.next_entry(&mut library);
    assert_eq!(reader_screen.current_index, 2);
    reader_screen.next_entry(&mut library);
    assert_eq!(reader_screen.current_index, 2);

    reader_screen.previous_entry(&mut library);
    assert_eq!(reader_screen.current_index, 1);
    reader_screen.previous_entry(&mut library);
    assert_eq!(reader_screen.current_index, 0);
    reader_screen.previous_entry(&mut library);
    assert_eq!(reader_screen.current_index, 0);
}

#[test]
fn moving_between_entries_marks_them_seen() {
    let mut library: FeedLibrary<SeenLog, Idle> = FeedLibrary::new(Vec::new(), SeenLog::default());
    let mut reader = ReaderScreen::new(create_test_entries(), 0);
    reader.scroll = 1;
    reader.next_entry(&mut library);
    assert_eq!(reader.scroll, 0);
    reader.next_entry(&mut library);
    reader.previous_entry(&mut library);
    assert_eq!(library.data.seen, vec!["Entry 2", "Entry 3", "Entry 2"]);
    assert_eq!(library.generation, 3);
}

#[test]
fn scrolling_stays_within_the_article() {
    let mut reader = ReaderScreen::new(create_test_entries(), 0);
    reader.set_content_size(30, 2, 10);
    assert_eq!(reader.scrollmax, 26);
    assert_eq!(reader.viewport_height, 10);
    reader.scrollup();
    assert_eq!(reader.scroll, 0);
    reader.scrolldown();
    assert_eq!(reader.scroll, 1);
    reader.scroll_half_down();
    assert_eq!(reader.scroll, 6);
    reader.scroll = 25;
    reader.scroll_half_down();
    assert_eq!(reader.scroll, 26);
    reader.scrolldown();
    assert_eq!(reader.scroll, 26);
    reader.scroll_half_up();
    assert_eq!(reader.scroll, 21);
    reader.scroll = 3;
    reader.scroll_half_up();
    assert_eq!(reader.scroll, 0);
    reader.set_content_size(2, 0, 10);
    assert_eq!(reader.scrollmax, 0);
}

#[test]
fn reader_keys() {
    assert!(reader_command(&key(KeyCode::Esc)) == ReaderCommand::Leave);
    assert!(reader_command(&key(KeyCode::Char('q'))) == ReaderCommand::Leave);
    assert!(reader_command(&ctrl('c')) == ReaderCommand::Leave);
    assert!(reader_command(&key(KeyCode::Char('c'))) == ReaderCommand::Ignore);
    assert!(reader_command(&key(KeyCode::Char('j'))) == ReaderCommand::ScrollDown);
    assert!(reader_command(&ctrl('j')) == ReaderCommand::ScrollDown);
    assert!(reader_command(&key(KeyCode::Char('d'))) == ReaderCommand::Ignore);
    assert!(reader_command(&ctrl('d')) == ReaderCommand::HalfPageDown);
    assert!(reader_command(&ctrl('U')) == ReaderCommand::HalfPageUp);
    assert!(reader_command(&key(KeyCode::Char('G'))) == ReaderCommand::Bottom);
    assert!(reader_command(&key(KeyCode::Home)) == ReaderCommand::Top);
    assert!(reader_command(&key(KeyCode::Char('>'))) == ReaderCommand::WidenReader);
    assert!(reader_command(&key(KeyCode::Char('?'))) == ReaderCommand::HelpDialog);
}

#[test]
fn reader_keypress_moves() {
    let mut library: FeedLibrary<SeenLog, Idle> = FeedLibrary::new(Vec::new(), SeenLog::default());
    let mut reader = ReaderScreen::new(create_test_entries(), 0);
    reader.set_content_size(40, 0, 20);
    let mut width: u16 = 60;
    assert!(reader.handle_keypress(&key(KeyCode::End), &mut library, &mut width) == ReaderCommand::Bottom);
    assert_eq!(reader.scroll, 24);
    assert!(reader.handle_keypress(&key(KeyCode::Char('g')), &mut library, &mut width) == ReaderCommand::Top);
    assert_eq!(reader.scroll, 0);
    assert!(reader.handle_keypress(&key(KeyCode::Char('n')), &mut library, &mut width) == ReaderCommand::NextEntry);
    assert_eq!(reader.current_index, 1);
    assert!(reader.handle_keypress(&key(KeyCode::Char('o')), &mut library, &mut width) == ReaderCommand::OpenLink);
    assert_eq!(reader.current_index, 1);
    assert_eq!(width, 60);
    assert!(reader.handle_keypress(&key(KeyCode::Char('>')), &mut library, &mut width) == ReaderCommand::WidenReader);
    assert_eq!(width, 62);
    assert!(reader.handle_keypress(&key(KeyCode::Char('<')), &mut library, &mut width) == ReaderCommand::NarrowReader);
    assert!(reader.handle_keypress(&key(KeyCode::Char('<')), &mut library, &mut width) == ReaderCommand::NarrowReader);
    assert_eq!(width, 58);
    let mut wide: u16 = 99;
    reader.handle_keypress(&key(KeyCode::Char('>')), &mut library, &mut wide);
    assert_eq!(wide, 100);
}

#[test]
fn reader_width_steps() {
    assert_eq!(widen_width(50), 52);
    assert_eq!(widen_width(99), 100);
    assert_eq!(widen_width(u16::MAX), 100);
    assert_eq!(narrow_width(50), 48);
    assert_eq!(narrow_width(1), 0);
    assert_eq!(narrow_width(200), 100);
}

#[test]
fn wrapped_rows_are_counted() {
    assert_eq!(wrapped_line_extra(&vec![0, 10, 11, 25], 10), 3);
    assert_eq!(wrapped_line_extra(&vec![], 7), 0);
}

#[test]
fn reader_texts() {
    let reader = ReaderScreen::new(create_test_entries(), 0);
    assert_eq!(reader.get_title(), "Reader");
    assert!(reader.get_work_status().is_none());
    assert_eq!(reader.get_instructions(), "?: Help | j/k/\u{2193}/\u{2191}: scroll | n/p: next/prev | o: open | Esc/q: leave");
    let help = reader.get_full_instructions();
    let titles: Vec<&str> = help.categories.iter().map(|c| c.title.as_str()).collect();
    assert_eq!(titles, vec!["Navigation", "Actions", "App"]);
    assert_eq!(help.categories[0].details.len(), 5);
    assert_eq!(help.categories[0].details[1].key, "Ctrl+d/u");
}
