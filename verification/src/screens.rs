//! The smaller screens and widgets: the URL dialog, the loading spinner,
//! the main screen's key bindings and texts, and category accents.
use vstd::prelude::*;
use crate::config::{LlmConfig, VReaderRole};
use crate::feedtree::{FeedItemInfo, FeedTreeState};
use crate::app::{AppScreen, AppWorkStatus};
use crate::llmdialog::{is_dialog_for, LlmDialog};
use crate::reader::{narrow_width, narrowed, widen_width, widened, ReaderScreen};
use crate::help::{
    instructions_text, main_full_instructions, main_help, url_dialog_full_instructions, url_dialog_help,
    ScreenInstructions,
};
use crate::library::{
    capped_feed_total, entry_path, paths_of, toggled, FeedEntry, FeedLibrary, LibraryStore, UpdateProgress,
};
use crate::entries::{category_entries, category_loads, lemma_newest_first_same_paths, slug_entries, slug_loads};
use crate::paths::path_to_str;
use crate::keys::{is_char, is_leave_key, key_is_char, key_is_leave, KeyCode, KeyPress};
use crate::text::{find_str, first_occurrence};

verus! {

/// The length of a string in bytes (UTF-8), as `str::len` reports it.
pub open spec fn byte_len(s: Seq<char>) -> usize {
    vstd::utf8::encode_utf8(s).len() as usize
}

/// Shows a link that could not be opened in a browser.
pub struct UrlDialog {
    pub url: String,
}

/// What opening a link outside the application comes to.
pub enum LinkOutcome {
    /// Opened: a low-priority notification with this message.
    Notify(String),
    /// Not opened: the link is shown in a dialog instead.
    ShowUrl(UrlDialog),
}

/// The outcome of opening `url`: the user's hook is tried first, and the
/// system browser only when the hook did not run; a link that neither
/// opened is shown in a dialog.
pub fn link_outcome(url: String, hook_ran: bool, browser_opened: bool) -> (r: LinkOutcome)
    ensures
        hook_ran ==> (r matches LinkOutcome::Notify(m) && m@ == "Link opened externally with user hook"@),
        !hook_ran && browser_opened ==> (r matches LinkOutcome::Notify(m) && m@ == "Link opened externally"@),
        !hook_ran && !browser_opened ==> (r matches LinkOutcome::ShowUrl(d) && d.url == url),
{
    if hook_ran {
        LinkOutcome::Notify(String::from_str("Link opened externally with user hook"))
    } else if browser_opened {
        LinkOutcome::Notify(String::from_str("Link opened externally"))
    } else {
        LinkOutcome::ShowUrl(UrlDialog::new(url))
    }
}

impl UrlDialog {
    pub fn new(url: String) -> (r: UrlDialog)
        ensures
            r.url == url,
    {
        UrlDialog { url }
    }

    /// The dialog's width and height: ten columns more than the URL's
    /// length in bytes (taken modulo 2^16), seven rows.
    pub fn get_size(&self) -> (r: (u16, u16))
        requires
            #[verifier::truncate] (byte_len(self.url@) as u16) + 10 <= u16::MAX,
        ensures
            r.0 == #[verifier::truncate] (byte_len(self.url@) as u16) + 10,
            r.1 == 7,
    {
        let w = #[verifier::truncate] (self.url.as_str().len() as u16);
        (w + 10, 7)
    }

    pub fn get_title(&self) -> (r: &'static str)
        ensures
            r@ == "Couldn't open browser automatically"@,
    {
        "Couldn't open browser automatically"
    }

    pub fn get_instructions(&self) -> (r: &'static str)
        ensures
            r@ == "Esc/q: close url"@,
    {
        "Esc/q: close url"
    }

    /// The dialog's full key help.
    pub fn get_full_instructions(&self) -> (r: ScreenInstructions)
        ensures
            instructions_text(r) == url_dialog_help(),
    {
        url_dialog_full_instructions()
    }

    /// Whether a key press closes the dialog: the leave keys do, others are
    /// ignored.
    pub fn handle_keypress(&self, key: &KeyPress) -> (r: bool)
        ensures
            r == is_leave_key(*key),
    {
        key_is_leave(key)
    }
}

/// A loading spinner: four frames shown in turn.
pub struct Spinner {
    frames: Vec<&'static str>,
    tick: usize,
}

impl Spinner {
    #[verifier::type_invariant]
    spec fn wf(self) -> bool {
        self.frames@.len() > 0 && self.tick < self.frames@.len()
    }

    /// The number of frames.
    pub closed spec fn frame_count(self) -> nat {
        self.frames@.len()
    }

    /// The frames, in the order they are shown.
    pub closed spec fn frames_text(self) -> Seq<Seq<char>> {
        self.frames@.map_values(|f: &'static str| f@)
    }

    /// The index of the frame shown.
    pub closed spec fn position(self) -> nat {
        self.tick as nat
    }

    /// The frame shown.
    pub closed spec fn shown(self) -> Seq<char> {
        self.frames@[self.tick as int]@
    }

    /// Shows the next frame, after the last one the first again.
    pub fn advance(&mut self)
        ensures
            final(self).frame_count() == old(self).frame_count(),
            final(self).frames_text() == old(self).frames_text(),
            final(self).position() == (old(self).position() + 1) % old(self).frame_count(),
    {
        proof {
            use_type_invariant(&*self);
        }
        let n = self.frames.len();
        let next = (self.tick + 1) % n;
        self.tick = next;
    }

    /// The frame shown.
    pub fn frame(&self) -> (r: &'static str)
        ensures
            r@ == self.shown(),
            self.position() < self.frame_count(),
            r@ == self.frames_text()[self.position() as int],
    {
        proof {
            use_type_invariant(self);
        }
        self.frames[self.tick]
    }
}

impl Default for Spinner {
    fn default() -> (r: Spinner)
        ensures
            r.frame_count() == 4,
            r.frames_text() == seq!["\u{2598}"@, "\u{259D}"@, "\u{2597}"@, "\u{2596}"@],
            r.position() == 0,
    {
        let mut frames: Vec<&'static str> = Vec::new();
        frames.push("\u{2598}");
        frames.push("\u{259D}");
        frames.push("\u{2597}");
        frames.push("\u{2596}");
        let r = Spinner { frames, tick: 0 };
        assert(r.frames_text() =~= seq!["\u{2598}"@, "\u{259D}"@, "\u{2597}"@, "\u{2596}"@]);
        r
    }
}

/// The frame position after `n` advances from position `p` of `count`.
pub open spec fn position_after(p: nat, n: nat, count: nat) -> nat
    decreases n,
{
    if n == 0 {
        p
    } else {
        (position_after(p, (n - 1) as nat, count) + 1) % count
    }
}

/// After as many advances as there are frames, the spinner shows the frame
/// it started from.
pub proof fn lemma_spinner_cycles(p: nat, count: nat)
    requires
        p < count,
    ensures
        position_after(p, count, count) == p,
{
    lemma_position_after(p, count, count);
    vstd::arithmetic::div_mod::lemma_mod_add_multiples_vanish(p as int, count as int);
    vstd::arithmetic::div_mod::lemma_small_mod(p, count);
}

proof fn lemma_position_after(p: nat, n: nat, count: nat)
    requires
        p < count,
        n <= count,
    ensures
        position_after(p, n, count) == (p + n) % count,
    decreases n,
{
    if n > 0 {
        lemma_position_after(p, (n - 1) as nat, count);
        let m = (p + n - 1) as int;
        vstd::arithmetic::div_mod::lemma_add_mod_noop_right(1, m, count as int);
        assert(position_after(p, n, count) == (position_after(p, (n - 1) as nat, count) + 1) % count);
        assert((1 + m % (count as int)) % (count as int) == (1 + m) % (count as int));
    } else {
        vstd::arithmetic::div_mod::lemma_small_mod(p, count);
    }
}

/// Where the main screen's keys go: the feed tree or the entry list.
#[derive(Clone, Copy, PartialEq, Eq, Structural)]
pub enum MainInputState {
    Menu,
    Content,
}

/// What a key press asks of the main screen.
#[derive(Clone, Copy, PartialEq, Eq, Structural)]
pub enum MainCommand {
    ExitApp,
    TreeNext,
    TreePrevious,
    TreeFirst,
    TreeLast,
    NextCategory,
    PreviousCategory,
    FocusContent,
    FocusMenu,
    EntryNext,
    EntryPrevious,
    EntryFirst,
    EntryLast,
    ReadEntry,
    ToggleSeen,
    MarkAllRead,
    WidenTree,
    NarrowTree,
    OpenLink,
    ToggleReadLater,
    ThemeDialog,
    LlmDialog,
    HelpDialog,
    Ignore,
}

/// The main screen's key bindings while the feed tree has the keys.
pub open spec fn menu_command_of(k: KeyPress) -> MainCommand {
    if is_leave_key(k) {
        MainCommand::ExitApp
    } else if k.code == KeyCode::Down || is_char(k, 'j') {
        MainCommand::TreeNext
    } else if k.code == KeyCode::Up || is_char(k, 'k') {
        MainCommand::TreePrevious
    } else if k.code == KeyCode::Home || is_char(k, 'g') {
        MainCommand::TreeFirst
    } else if k.code == KeyCode::End || is_char(k, 'G') {
        MainCommand::TreeLast
    } else if k.code == KeyCode::Right || k.code == KeyCode::Enter || k.code == KeyCode::Tab || is_char(k, 'l') {
        MainCommand::FocusContent
    } else if is_char(k, 'R') {
        MainCommand::MarkAllRead
    } else if is_char(k, '>') {
        MainCommand::WidenTree
    } else if is_char(k, '<') {
        MainCommand::NarrowTree
    } else if is_char(k, 'n') {
        MainCommand::NextCategory
    } else if is_char(k, 'p') {
        MainCommand::PreviousCategory
    } else if is_char(k, 't') {
        MainCommand::ThemeDialog
    } else if is_char(k, 'L') {
        MainCommand::LlmDialog
    } else if is_char(k, '?') {
        MainCommand::HelpDialog
    } else {
        MainCommand::Ignore
    }
}

/// The main screen's key bindings while the entry list has the keys.
pub open spec fn content_command_of(k: KeyPress) -> MainCommand {
    if is_char(k, 'q') || (k.control && (is_char(k, 'c') || is_char(k, 'C'))) {
        MainCommand::ExitApp
    } else if k.code == KeyCode::Down || is_char(k, 'j') {
        MainCommand::EntryNext
    } else if k.code == KeyCode::Up || is_char(k, 'k') {
        MainCommand::EntryPrevious
    } else if k.code == KeyCode::Home || is_char(k, 'g') {
        MainCommand::EntryFirst
    } else if k.code == KeyCode::End || is_char(k, 'G') {
        MainCommand::EntryLast
    } else if k.code == KeyCode::Esc || k.code == KeyCode::Left || is_char(k, 'h') {
        MainCommand::FocusMenu
    } else if k.code == KeyCode::Enter {
        MainCommand::ReadEntry
    } else if is_char(k, 'r') {
        MainCommand::ToggleSeen
    } else if is_char(k, 'R') {
        MainCommand::MarkAllRead
    } else if is_char(k, '>') {
        MainCommand::WidenTree
    } else if is_char(k, '<') {
        MainCommand::NarrowTree
    } else if is_char(k, 'o') {
        MainCommand::OpenLink
    } else if is_char(k, 'L') {
        MainCommand::ToggleReadLater
    } else if is_char(k, 't') {
        MainCommand::ThemeDialog
    } else if is_char(k, '?') {
        MainCommand::HelpDialog
    } else {
        MainCommand::Ignore
    }
}

/// The main screen's key bindings.
pub open spec fn main_command_of(state: MainInputState, k: KeyPress) -> MainCommand {
    match state {
        MainInputState::Menu => menu_command_of(k),
        MainInputState::Content => content_command_of(k),
    }
}

/// Down and `j` move down, Up and `k` move up, whatever modifier is held:
/// in the feed tree to the next and previous line, in the entry list to the
/// next and previous entry.
pub proof fn lemma_arrow_keys_move(k: KeyPress)
    ensures
        k.code == KeyCode::Down || k.code == KeyCode::Char('j') ==> main_command_of(MainInputState::Menu, k)
            == MainCommand::TreeNext && main_command_of(MainInputState::Content, k) == MainCommand::EntryNext,
        k.code == KeyCode::Up || k.code == KeyCode::Char('k') ==> main_command_of(MainInputState::Menu, k)
            == MainCommand::TreePrevious && main_command_of(MainInputState::Content, k) == MainCommand::EntryPrevious,
{
}

/// The other keys of the feed tree, whatever modifier is held (but for
/// Control with `c`): Escape, `q` and Control-`c` quit; Home/`g` and End/`G`
/// go to the first and last line; Right, Enter, Tab and `l` give the keys to
/// the entry list; `R` marks all read; `>`/`<` widen and narrow the tree;
/// `n`/`p` go to the next and previous category; `t`, `L` and `?` open the
/// theme picker, the AI assistant and the key help.
pub proof fn lemma_menu_keys(k: KeyPress)
    ensures
        k.code == KeyCode::Esc || k.code == KeyCode::Char('q') || (k.control && k.code == KeyCode::Char('c'))
            ==> main_command_of(MainInputState::Menu, k) == MainCommand::ExitApp,
        k.code == KeyCode::Home || k.code == KeyCode::Char('g') ==> main_command_of(MainInputState::Menu, k)
            == MainCommand::TreeFirst,
        k.code == KeyCode::End || k.code == KeyCode::Char('G') ==> main_command_of(MainInputState::Menu, k)
            == MainCommand::TreeLast,
        k.code == KeyCode::Right || k.code == KeyCode::Enter || k.code == KeyCode::Tab || k.code == KeyCode::Char('l')
            ==> main_command_of(MainInputState::Menu, k) == MainCommand::FocusContent,
        k.code == KeyCode::Char('R') ==> main_command_of(MainInputState::Menu, k) == MainCommand::MarkAllRead,
        k.code == KeyCode::Char('>') ==> main_command_of(MainInputState::Menu, k) == MainCommand::WidenTree,
        k.code == KeyCode::Char('<') ==> main_command_of(MainInputState::Menu, k) == MainCommand::NarrowTree,
        k.code == KeyCode::Char('n') ==> main_command_of(MainInputState::Menu, k) == MainCommand::NextCategory,
        k.code == KeyCode::Char('p') ==> main_command_of(MainInputState::Menu, k) == MainCommand::PreviousCategory,
        k.code == KeyCode::Char('t') ==> main_command_of(MainInputState::Menu, k) == MainCommand::ThemeDialog,
        k.code == KeyCode::Char('L') ==> main_command_of(MainInputState::Menu, k) == MainCommand::LlmDialog,
        k.code == KeyCode::Char('?') ==> main_command_of(MainInputState::Menu, k) == MainCommand::HelpDialog,
{
}

/// The other keys of the entry list, whatever modifier is held (but for
/// Control with `c`): `q` and Control-`c` quit; Home/`g` and End/`G` go to
/// the first and last entry; Escape, Left and `h` give the keys back to the
/// tree; Enter reads the entry; `r` flips its seen mark; `R` marks all read;
/// `o` opens its link; `L` puts it on or off the read-later list; `>`/`<`
/// widen and narrow the tree; `t` and `?` open the theme picker and the key
/// help.
pub proof fn lemma_content_keys(k: KeyPress)
    ensures
        k.code == KeyCode::Char('q') || (k.control && k.code == KeyCode::Char('c')) ==> main_command_of(
            MainInputState::Content,
            k,
        ) == MainCommand::ExitApp,
        k.code == KeyCode::Home || k.code == KeyCode::Char('g') ==> main_command_of(MainInputState::Content, k)
            == MainCommand::EntryFirst,
        k.code == KeyCode::End || k.code == KeyCode::Char('G') ==> main_command_of(MainInputState::Content, k)
            == MainCommand::EntryLast,
        k.code == KeyCode::Esc || k.code == KeyCode::Left || k.code == KeyCode::Char('h') ==> main_command_of(
            MainInputState::Content,
            k,
        ) == MainCommand::FocusMenu,
        k.code == KeyCode::Enter ==> main_command_of(MainInputState::Content, k) == MainCommand::ReadEntry,
        k.code == KeyCode::Char('r') ==> main_command_of(MainInputState::Content, k) == MainCommand::ToggleSeen,
        k.code == KeyCode::Char('R') ==> main_command_of(MainInputState::Content, k) == MainCommand::MarkAllRead,
        k.code == KeyCode::Char('o') ==> main_command_of(MainInputState::Content, k) == MainCommand::OpenLink,
        k.code == KeyCode::Char('L') ==> main_command_of(MainInputState::Content, k) == MainCommand::ToggleReadLater,
        k.code == KeyCode::Char('>') ==> main_command_of(MainInputState::Content, k) == MainCommand::WidenTree,
        k.code == KeyCode::Char('<') ==> main_command_of(MainInputState::Content, k) == MainCommand::NarrowTree,
        k.code == KeyCode::Char('t') ==> main_command_of(MainInputState::Content, k) == MainCommand::ThemeDialog,
        k.code == KeyCode::Char('?') ==> main_command_of(MainInputState::Content, k) == MainCommand::HelpDialog,
{
}

/// The main screen's key bindings (see `main_command_of`).
pub fn main_command(state: MainInputState, k: &KeyPress) -> (r: MainCommand)
    ensures
        r == main_command_of(state, *k),
{
    match state {
        MainInputState::Menu => {
            if key_is_leave(k) {
                MainCommand::ExitApp
            } else if k.code == KeyCode::Down || key_is_char(k, 'j') {
                MainCommand::TreeNext
            } else if k.code == KeyCode::Up || key_is_char(k, 'k') {
                MainCommand::TreePrevious
            } else if k.code == KeyCode::Home || key_is_char(k, 'g') {
                MainCommand::TreeFirst
            } else if k.code == KeyCode::End || key_is_char(k, 'G') {
                MainCommand::TreeLast
            } else if k.code == KeyCode::Right || k.code == KeyCode::Enter || k.code == KeyCode::Tab || key_is_char(
                k,
                'l',
            ) {
                MainCommand::FocusContent
            } else if key_is_char(k, 'R') {
                MainCommand::MarkAllRead
            } else if key_is_char(k, '>') {
                MainCommand::WidenTree
            } else if key_is_char(k, '<') {
                MainCommand::NarrowTree
            } else if key_is_char(k, 'n') {
                MainCommand::NextCategory
            } else if key_is_char(k, 'p') {
                MainCommand::PreviousCategory
            } else if key_is_char(k, 't') {
                MainCommand::ThemeDialog
            } else if key_is_char(k, 'L') {
                MainCommand::LlmDialog
            } else if key_is_char(k, '?') {
                MainCommand::HelpDialog
            } else {
                MainCommand::Ignore
            }
        },
        MainInputState::Content => {
            if key_is_char(k, 'q') || (k.control && (key_is_char(k, 'c') || key_is_char(k, 'C'))) {
                MainCommand::ExitApp
            } else if k.code == KeyCode::Down || key_is_char(k, 'j') {
                MainCommand::EntryNext
            } else if k.code == KeyCode::Up || key_is_char(k, 'k') {
                MainCommand::EntryPrevious
            } else if k.code == KeyCode::Home || key_is_char(k, 'g') {
                MainCommand::EntryFirst
            } else if k.code == KeyCode::End || key_is_char(k, 'G') {
                MainCommand::EntryLast
            } else if k.code == KeyCode::Esc || k.code == KeyCode::Left || key_is_char(k, 'h') {
                MainCommand::FocusMenu
            } else if k.code == KeyCode::Enter {
                MainCommand::ReadEntry
            } else if key_is_char(k, 'r') {
                MainCommand::ToggleSeen
            } else if key_is_char(k, 'R') {
                MainCommand::MarkAllRead
            } else if key_is_char(k, '>') {
                MainCommand::WidenTree
            } else if key_is_char(k, '<') {
                MainCommand::NarrowTree
            } else if key_is_char(k, 'o') {
                MainCommand::OpenLink
            } else if key_is_char(k, 'L') {
                MainCommand::ToggleReadLater
            } else if key_is_char(k, 't') {
                MainCommand::ThemeDialog
            } else if key_is_char(k, '?') {
                MainCommand::HelpDialog
            } else {
                MainCommand::Ignore
            }
        },
    }
}

/// The notification that follows a command of the main screen, as its
/// message and whether it is of high priority. `selected` says whether an
/// entry was selected; `flag` is, for `ToggleSeen`, whether that entry was
/// seen before, and for `ToggleReadLater`, whether it was put on the list.
/// Opening the link of a selected entry is notified by `link_outcome`.
pub fn command_notice(cmd: MainCommand, selected: bool, flag: bool) -> (r: Option<(&'static str, bool)>)
    ensures
        cmd == MainCommand::MarkAllRead ==> (r matches Some((m, high)) && m@ == "All marked as Read"@ && !high),
        cmd == MainCommand::ToggleSeen ==> if selected {
            r matches Some((m, high)) && !high && m@ == if flag {
                "Marked as Unread"@
            } else {
                "Marked as Read"@
            }
        } else {
            r is None
        },
        cmd == MainCommand::OpenLink ==> if selected {
            r is None
        } else {
            r matches Some((m, high)) && m@ == "Couldn't open link externally"@ && high
        },
        cmd == MainCommand::ToggleReadLater ==> if selected {
            r matches Some((m, high)) && !high && m@ == if flag {
                "Added to Read Later"@
            } else {
                "Removed from Read Later"@
            }
        } else {
            r is None
        },
        cmd != MainCommand::MarkAllRead && cmd != MainCommand::ToggleSeen && cmd != MainCommand::OpenLink && cmd
            != MainCommand::ToggleReadLater ==> r is None,
{
    match cmd {
        MainCommand::MarkAllRead => Some(("All marked as Read", false)),
        MainCommand::ToggleSeen => {
            if !selected {
                None
            } else if flag {
                Some(("Marked as Unread", false))
            } else {
                Some(("Marked as Read", false))
            }
        },
        MainCommand::OpenLink => {
            if selected {
                None
            } else {
                Some(("Couldn't open link externally", true))
            }
        },
        MainCommand::ToggleReadLater => {
            if !selected {
                None
            } else if flag {
                Some(("Added to Read Later", false))
            } else {
                Some(("Removed from Read Later", false))
            }
        },
        _ => None,
    }
}

/// Whether the read-later list went from `a` to `b` as the store was asked
/// to change it to `wanted`: either the store did, and the generation
/// moved on by one, or it failed and nothing changed.
pub open spec fn list_changed<D: LibraryStore, U>(a: FeedLibrary<D, U>, b: FeedLibrary<D, U>, wanted: Set<Seq<char>>) -> bool {
    ||| b.data.read_later_paths() == wanted && b.generation == a.generation + 1
    ||| b.data.read_later_paths() == a.data.read_later_paths() && b.generation == a.generation
}

/// Toggles `entry` on the read-later list once the store has said whether
/// it is `on_list`: an entry on the list is taken off (by `file_path`) and
/// `false` returned; otherwise it is put on and `true` returned. A store
/// that fails to change the list leaves it, and the generation, as they are.
pub fn toggle_read_later_given<D: LibraryStore, U: UpdateProgress>(
    library: &mut FeedLibrary<D, U>,
    entry: &FeedEntry,
    file_path: &str,
    on_list: bool,
) -> (r: bool)
    requires
        old(library).generation < u64::MAX,
    ensures
        r == !on_list,
        on_list ==> list_changed(*old(library), *final(library), old(library).data.read_later_paths().remove(
            file_path@,
        )),
        !on_list ==> list_changed(*old(library), *final(library), old(library).data.read_later_paths().insert(
            entry_path(*entry),
        )),
        final(library).data.seen_paths() == old(library).data.seen_paths(),
        final(library).feedcategories@ == old(library).feedcategories@,
        final(library).updater == old(library).updater,
{
    if on_list {
        match library.remove_from_read_later(file_path) {
            Ok(()) => {},
            Err(_) => {},
        }
        false
    } else {
        match library.add_to_read_later(entry) {
            Ok(()) => {},
            Err(_) => {},
        }
        true
    }
}

/// The tree selection after a command of the main screen: the tree
/// movements move it (see `next_selection`, `previous_selection`,
/// `heading_from`, `heading_before`), other commands keep it.
pub open spec fn tree_selection_after(cmd: MainCommand, items: Seq<FeedItemInfo>, sel: Option<usize>) -> Option<usize> {
    match cmd {
        MainCommand::TreeNext => crate::feedtree::next_selection(
            items,
            sel,
        ),
        MainCommand::TreePrevious => crate::feedtree::previous_selection(
            items,
            sel,
        ),
        MainCommand::TreeFirst => if items.len() == 0 {
            sel
        } else {
            Some(0usize)
        },
        MainCommand::TreeLast => if items.len() == 0 {
            sel
        } else {
            Some((items.len() - 1) as usize)
        },
        MainCommand::NextCategory => match crate::feedtree::heading_from(
            items,
            crate::feedtree::sel_index(sel) + 1,
        ) {
            Some(i) => Some(i as usize),
            None => sel,
        },
        MainCommand::PreviousCategory => match crate::feedtree::heading_before(
            items,
            if crate::feedtree::sel_index(sel) < items.len() {
                crate::feedtree::sel_index(sel)
            } else {
                items.len() as int
            },
        ) {
            Some(i) => Some(i as usize),
            None => sel,
        },
        _ => sel,
    }
}

/// What the application is to do after a key press on the main screen.
pub enum MainEffect {
    /// Nothing more.
    Nothing,
    /// Show a notification: its message, and whether it is of high
    /// priority.
    Notify(&'static str, bool),
    /// Show the reader.
    OpenReader(ReaderScreen),
    /// Open this link outside the application (see `link_outcome`).
    OpenUrl(String),
    /// Show the AI assistant dialog.
    OpenLlmDialog(LlmDialog),
    /// Show this key help.
    OpenHelp(ScreenInstructions),
}

/// The commands that change the library's generation when they act on an
/// entry (or, for `MarkAllRead`, always).
pub open spec fn bumps_generation(cmd: MainCommand) -> bool {
    cmd == MainCommand::ReadEntry || cmd == MainCommand::ToggleSeen || cmd == MainCommand::MarkAllRead || cmd
        == MainCommand::OpenLink || cmd == MainCommand::ToggleReadLater
}

/// The index of the entry that the entry list's selection stands for: no
/// selection counts as the first entry, a selection past the end as the
/// last; none in an empty list.
pub open spec fn selected_entry_index(len: nat, selected: Option<usize>) -> Option<int> {
    if len == 0 {
        None
    } else {
        let i = crate::feedtree::sel_index(selected);
        Some(if i < len { i } else { len - 1 })
    }
}

/// The entry marked as seen.
pub open spec fn seen_copy(e: FeedEntry) -> FeedEntry {
    FeedEntry {
        title: e.title,
        date: e.date,
        date_nanos: e.date_nanos,
        author: e.author,
        url: e.url,
        text: e.text,
        seen: true,
        filepath: e.filepath,
    }
}

/// Whether a notice has the given message and priority.
pub open spec fn is_notice(effect: MainEffect, message: Seq<char>, high: bool) -> bool {
    effect matches MainEffect::Notify(m, h) && m@ == message && h == high
}

/// What a command of the main screen does to the library (from `lib0` to
/// `lib1`) and to the entry list (from `es0` to `es1`), and what it asks of
/// the application, with the entry list's `selected` index:
/// - Enter marks the selected entry seen in the store and in the list, and
///   opens the reader over a copy of the list at the selected index;
/// - `r` flips the entry's seen mark in the store, with "Marked as Unread"
///   for an entry that was seen and "Marked as Read" otherwise;
/// - `R` marks all entries of the tree selection (`tree`) read, "All marked
///   as Read" (see `set_all_read`);
/// - `o` marks the entry seen in the store and opens its link; with no
///   entry, "Couldn't open link externally" at high priority;
/// - `L` takes the entry off the read-later list, "Removed from Read
///   Later", when the store says it is on it, and otherwise puts it on,
///   "Added to Read Later" (the list and the generation change only when
///   the store made the change);
/// - `L` on the tree opens the AI assistant, `?` the key help;
/// - without a selected entry the entry commands do nothing; every other
///   command leaves the library and the list alone.
/// Notices other than the link's are of low priority. The categories and
/// the updater of the library never change.
pub open spec fn entry_effect<D: LibraryStore, U>(
    cmd: MainCommand,
    effect: MainEffect,
    lib0: FeedLibrary<D, U>,
    lib1: FeedLibrary<D, U>,
    es0: Seq<FeedEntry>,
    es1: Seq<FeedEntry>,
    selected: Option<usize>,
    role: VReaderRole,
    llm_config: Option<LlmConfig>,
    tree: FeedTreeState,
) -> bool {
    let idx = selected_entry_index(es0.len(), selected);
    let unchanged = lib1 == lib0 && es1 == es0;
    let seen0 = lib0.data.seen_paths();
    let seen1 = lib1.data.seen_paths();
    let later0 = lib0.data.read_later_paths();
    &&& lib1.feedcategories@ == lib0.feedcategories@
    &&& lib1.updater == lib0.updater
    &&& match cmd {
        MainCommand::ReadEntry => match idx {
            Some(i) => {
                &&& seen1 == seen0.insert(entry_path(es0[i]))
                &&& lib1.data.read_later_paths() == later0
                &&& lib1.generation == lib0.generation + 1
                &&& es1 == es0.update(i, seen_copy(es0[i]))
                &&& effect matches MainEffect::OpenReader(rd) && rd.entries@ == es1 && rd.current_index
                    == crate::feedtree::sel_index(selected) && rd.scroll == 0
            },
            None => unchanged && effect is Nothing,
        },
        MainCommand::ToggleSeen => match idx {
            Some(i) => {
                &&& seen1 == toggled(seen0, entry_path(es0[i]))
                &&& lib1.data.read_later_paths() == later0
                &&& lib1.generation == lib0.generation + 1
                &&& es1 == es0
                &&& is_notice(effect, if es0[i].seen { "Marked as Unread"@ } else { "Marked as Read"@ }, false)
            },
            None => unchanged && effect is Nothing,
        },
        MainCommand::MarkAllRead => {
            &&& seen1 == if line_loads(lib0, selected_line(tree)) {
                seen0.union(paths_of(line_entries(lib0, selected_line(tree))))
            } else {
                seen0
            }
            &&& lib1.data.read_later_paths() == later0
            &&& lib1.generation == lib0.generation + 1
            &&& es1 == es0
            &&& is_notice(effect, "All marked as Read"@, false)
        },
        MainCommand::OpenLink => match idx {
            Some(i) => {
                &&& seen1 == seen0.insert(entry_path(es0[i]))
                &&& lib1.data.read_later_paths() == later0
                &&& lib1.generation == lib0.generation + 1
                &&& es1 == es0
                &&& effect matches MainEffect::OpenUrl(u) && u@ == es0[i].url@
            },
            None => unchanged && is_notice(effect, "Couldn't open link externally"@, true),
        },
        MainCommand::ToggleReadLater => match idx {
            Some(i) => {
                &&& seen1 == seen0
                &&& es1 == es0
                &&& {
                    ||| is_notice(effect, "Added to Read Later"@, false) && list_changed(
                        lib0,
                        lib1,
                        later0.insert(entry_path(es0[i])),
                    )
                    ||| is_notice(effect, "Removed from Read Later"@, false) && later0.contains(entry_path(es0[i]))
                        && list_changed(lib0, lib1, later0.remove(entry_path(es0[i])))
                }
            },
            None => unchanged && effect is Nothing,
        },
        MainCommand::LlmDialog => unchanged && (effect matches MainEffect::OpenLlmDialog(d) && is_dialog_for(
            d,
            llm_config,
        )),
        MainCommand::HelpDialog => unchanged && (effect matches MainEffect::OpenHelp(h) && instructions_text(h)
            == main_help(role)),
        _ => unchanged && effect is Nothing,
    }
}

/// The effect of a notice, if any.
fn notice(n: Option<(&'static str, bool)>) -> (r: MainEffect)
    ensures
        n matches Some((m, h)) ==> is_notice(r, m@, h),
        n is None ==> r is Nothing,
{
    match n {
        Some((m, h)) => MainEffect::Notify(m, h),
        None => MainEffect::Nothing,
    }
}

/// A copy of the entries.
fn copy_entries(v: &Vec<FeedEntry>) -> (r: Vec<FeedEntry>)
    ensures
        r@ == v@,
{
    let mut r: Vec<FeedEntry> = Vec::new();
    let mut i: usize = 0;
    while i < v.len()
        invariant
            i <= v@.len(),
            r@ == v@.take(i as int),
        decreases v@.len() - i,
    {
        r.push(v[i].clone_entry());
        assert(v@.take(i + 1) =~= v@.take(i as int).push(v@[i as int]));
        i = i + 1;
    }
    assert(v@.take(i as int) =~= v@);
    r
}

/// The main screen: the feed tree and which part has the keys.
pub struct MainScreen {
    pub role: VReaderRole,
    pub llm_config: Option<LlmConfig>,
    pub feedtreestate: FeedTreeState,
    pub inputstate: MainInputState,
}

impl MainScreen {
    /// The main screen of `role`, with the keys on the feed tree.
    pub fn new(role: VReaderRole, llm_config: Option<LlmConfig>) -> (r: MainScreen)
        ensures
            r.role == role,
            r.llm_config == llm_config,
            r.inputstate == MainInputState::Menu,
            r.feedtreestate.treeitems@.len() == 0,
            r.feedtreestate.listatate.selected == Some(0usize),
            r.feedtreestate.last_generation == u64::MAX,
    {
        MainScreen { role, llm_config, feedtreestate: FeedTreeState::new(), inputstate: MainInputState::Menu }
    }

    /// Whether this screen keeps the feeds updating in the background: not
    /// for a kid.
    pub fn runs_updater(&self) -> (r: bool)
        ensures
            r == (self.role != VReaderRole::Kid),
    {
        self.role != VReaderRole::Kid
    }

    /// Carries out the key press on the feed tree and the focus, and returns
    /// what was asked.
    fn move_in_tree(&mut self, key: &KeyPress) -> (r: MainCommand)
        ensures
            r == main_command_of(old(self).inputstate, *key),
            final(self).inputstate == match r {
                MainCommand::FocusContent => MainInputState::Content,
                MainCommand::FocusMenu => MainInputState::Menu,
                _ => old(self).inputstate,
            },
            final(self).feedtreestate.listatate.selected == tree_selection_after(
                r,
                old(self).feedtreestate.treeitems@,
                old(self).feedtreestate.listatate.selected,
            ),
            final(self).feedtreestate.treeitems@ == old(self).feedtreestate.treeitems@,
            final(self).role == old(self).role,
            final(self).llm_config == old(self).llm_config,
            final(self).feedtreestate.unread_counts@ == old(self).feedtreestate.unread_counts@,
            final(self).feedtreestate.read_later_count == old(self).feedtreestate.read_later_count,
            final(self).feedtreestate.last_generation == old(self).feedtreestate.last_generation,
    {
        let cmd = main_command(self.inputstate, key);
        match cmd {
            MainCommand::TreeNext => self.feedtreestate.select_next(),
            MainCommand::TreePrevious => self.feedtreestate.select_previous(),
            MainCommand::TreeFirst => self.feedtreestate.select_first(),
            MainCommand::TreeLast => self.feedtreestate.select_last(),
            MainCommand::NextCategory => self.feedtreestate.select_next_category(),
            MainCommand::PreviousCategory => self.feedtreestate.select_previous_category(),
            MainCommand::FocusContent => { self.inputstate = MainInputState::Content; },
            MainCommand::FocusMenu => { self.inputstate = MainInputState::Menu; },
            _ => {},
        }
        cmd
    }

    /// Carries out a key press: moves in the feed tree or changes the focus;
    /// on the entry list (`entries`, with the list's `selected` index) reads,
    /// marks, opens or files the selected entry; changes the tree width; and
    /// returns the command with what the application is to do next. Moving
    /// in the entry list, the theme picker and saving the width are left to
    /// the caller.
    pub fn handle_keypress<D: LibraryStore, U: UpdateProgress>(
        &mut self,
        key: &KeyPress,
        library: &mut FeedLibrary<D, U>,
        entries: &mut Vec<FeedEntry>,
        selected: Option<usize>,
        tree_width: &mut u16,
    ) -> (r: (MainCommand, MainEffect))
        requires
            bumps_generation(main_command_of(old(self).inputstate, *key)) ==> old(library).generation < u64::MAX,
        ensures
            r.0 == main_command_of(old(self).inputstate, *key),
            final(self).inputstate == match r.0 {
                MainCommand::FocusContent => MainInputState::Content,
                MainCommand::FocusMenu => MainInputState::Menu,
                _ => old(self).inputstate,
            },
            final(self).feedtreestate.listatate.selected == tree_selection_after(
                r.0,
                old(self).feedtreestate.treeitems@,
                old(self).feedtreestate.listatate.selected,
            ),
            final(self).feedtreestate.treeitems@ == old(self).feedtreestate.treeitems@,
            final(self).role == old(self).role,
            final(self).llm_config == old(self).llm_config,
            *final(tree_width) == match r.0 {
                MainCommand::WidenTree => widened(*old(tree_width)),
                MainCommand::NarrowTree => narrowed(*old(tree_width)),
                _ => *old(tree_width),
            },
            entry_effect(
                r.0,
                r.1,
                *old(library),
                *final(library),
                old(entries)@,
                final(entries)@,
                selected,
                old(self).role,
                old(self).llm_config,
                old(self).feedtreestate,
            ),
    {
        let cmd = self.move_in_tree(key);
        match cmd {
            MainCommand::WidenTree => { *tree_width = widen_width(*tree_width); },
            MainCommand::NarrowTree => { *tree_width = narrow_width(*tree_width); },
            _ => {},
        }
        let len = entries.len();
        let idx: Option<usize> = if len == 0 {
            None
        } else {
            let i = match selected {
                Some(i) => i,
                None => 0,
            };
            Some(if i < len { i } else { len - 1 })
        };
        let effect = match cmd {
            MainCommand::ReadEntry => match idx {
                Some(i) => {
                    library.set_entry_seen(&entries[i]);
                    let mut e = entries[i].clone();
                    e.seen = true;
                    entries.set(i, e);
                    let copy = copy_entries(entries);
                    let at = match selected {
                        Some(s) => s,
                        None => 0,
                    };
                    MainEffect::OpenReader(ReaderScreen::new(copy, at))
                },
                None => MainEffect::Nothing,
            },
            MainCommand::ToggleSeen => match idx {
                Some(i) => {
                    let was_seen = entries[i].seen;
                    library.toggle_entry_seen(&entries[i]);
                    notice(command_notice(cmd, true, was_seen))
                },
                None => MainEffect::Nothing,
            },
            MainCommand::MarkAllRead => {
                self.set_all_read(library);
                notice(command_notice(cmd, true, false))
            },
            MainCommand::OpenLink => match idx {
                Some(i) => {
                    library.set_entry_seen(&entries[i]);
                    MainEffect::OpenUrl(entries[i].url.clone())
                },
                None => notice(command_notice(cmd, false, false)),
            },
            MainCommand::ToggleReadLater => match idx {
                Some(i) => {
                    let added = self.toggle_read_later(library, &entries[i]);
                    notice(command_notice(cmd, true, added))
                },
                None => MainEffect::Nothing,
            },
            MainCommand::LlmDialog => MainEffect::OpenLlmDialog(LlmDialog::new(self.llm_config.as_ref())),
            MainCommand::HelpDialog => MainEffect::OpenHelp(self.get_full_instructions()),
            _ => MainEffect::Nothing,
        };
        (cmd, effect)
    }

    /// The screen's title: the role's badge and "Main".
    pub fn get_title(&self) -> (r: &'static str)
        ensures
            r@ == match self.role {
                VReaderRole::Operator => "\u{1F512} Main"@,
                VReaderRole::Parent => "\u{1F464} Main"@,
                VReaderRole::Kid => "\u{1F476} Main"@,
            },
    {
        match self.role {
            VReaderRole::Operator => "\u{1F512} Main",
            VReaderRole::Parent => "\u{1F464} Main",
            VReaderRole::Kid => "\u{1F476} Main",
        }
    }

    /// The key help for the role and the part that has the keys.
    pub fn get_instructions(&self) -> (r: &'static str)
        ensures
            r@ == match (self.role, self.inputstate) {
                (VReaderRole::Kid, MainInputState::Menu) =>
                    "?: Help | j/k/\u{2193}/\u{2191}: move | n/p: category | Enter: select | Esc: quit"@,
                (VReaderRole::Kid, MainInputState::Content) =>
                    "?: Help | j/k/\u{2193}/\u{2191}: move | Enter: read | Esc: back"@,
                (_, MainInputState::Menu) =>
                    "?: Help | j/k/\u{2193}/\u{2191}: move | n/p: next/prev category | Enter: select | Esc: quit"@,
                (_, MainInputState::Content) =>
                    "?: Help | j/k/\u{2193}/\u{2191}: move | o: open | L: add/remove read later | Enter: read | Esc: back"@,
            },
    {
        match (self.role, self.inputstate) {
            (VReaderRole::Kid, MainInputState::Menu) =>
                "?: Help | j/k/\u{2193}/\u{2191}: move | n/p: category | Enter: select | Esc: quit",
            (VReaderRole::Kid, MainInputState::Content) => "?: Help | j/k/\u{2193}/\u{2191}: move | Enter: read | Esc: back",
            (_, MainInputState::Menu) =>
                "?: Help | j/k/\u{2193}/\u{2191}: move | n/p: next/prev category | Enter: select | Esc: quit",
            (_, MainInputState::Content) =>
                "?: Help | j/k/\u{2193}/\u{2191}: move | o: open | L: add/remove read later | Enter: read | Esc: back",
        }
    }
}

impl MainScreen {
    /// The screen's full key help, which depends on the role.
    pub fn get_full_instructions(&self) -> (r: ScreenInstructions)
        ensures
            instructions_text(r) == main_help(self.role),
    {
        main_full_instructions(self.role)
    }

    /// The background work shown while this screen is up: the library's
    /// update, which a kid does not see.
    pub fn get_work_status<D: LibraryStore, U: UpdateProgress>(&self, library: &FeedLibrary<D, U>) -> (r: AppWorkStatus)
        ensures
            self.role == VReaderRole::Kid ==> r is Idle,
            self.role != VReaderRole::Kid ==> {
                &&& library.updater is None ==> r is Idle
                &&& library.updater is Some ==> (r matches AppWorkStatus::Working(_, total, _) && total
                    == capped_feed_total(library.feedcategories@))
            },
    {
        if self.role == VReaderRole::Kid {
            return AppWorkStatus::Idle;
        }
        library.get_update_status()
    }

    /// Puts the entry on the read-later list, or takes it off when it is
    /// on it; returns whether it was put on. The entry is known by its file
    /// path (empty when the path is not valid Unicode); a store that fails
    /// to change the list leaves it as it is.
    pub fn toggle_read_later<D: LibraryStore, U: UpdateProgress>(
        &mut self,
        library: &mut FeedLibrary<D, U>,
        entry: &FeedEntry,
    ) -> (r: bool)
        requires
            old(library).generation < u64::MAX,
        ensures
            !r ==> old(library).data.read_later_paths().contains(entry_path(*entry)) && list_changed(
                *old(library),
                *final(library),
                old(library).data.read_later_paths().remove(entry_path(*entry)),
            ),
            r ==> list_changed(
                *old(library),
                *final(library),
                old(library).data.read_later_paths().insert(entry_path(*entry)),
            ),
            final(library).data.seen_paths() == old(library).data.seen_paths(),
            final(library).feedcategories@ == old(library).feedcategories@,
            final(library).updater == old(library).updater,
            *final(self) == *old(self),
    {
        proof {
            reveal_strlit("");
        }
        let file_path = match path_to_str(&entry.filepath) {
            Some(p) => p,
            None => "",
        };
        assert(file_path@ =~= entry_path(*entry));
        let on_list = library.is_in_read_later(file_path);
        toggle_read_later_given(library, entry, file_path, on_list)
    }

    /// Marks as seen every entry that the selected tree line stands for (a
    /// category, a feed, or the read-later list; nothing for a separator or
    /// an empty tree), then changes the library's generation once. When the
    /// store cannot give the entries, none is marked.
    pub fn set_all_read<D: LibraryStore, U: UpdateProgress>(&self, library: &mut FeedLibrary<D, U>)
        requires
            old(library).generation < u64::MAX,
        ensures
            final(library).data.seen_paths() == if line_loads(*old(library), selected_line(self.feedtreestate)) {
                old(library).data.seen_paths().union(
                    paths_of(line_entries(*old(library), selected_line(self.feedtreestate))),
                )
            } else {
                old(library).data.seen_paths()
            },
            final(library).data.read_later_paths() == old(library).data.read_later_paths(),
            final(library).generation == old(library).generation + 1,
            final(library).feedcategories@ == old(library).feedcategories@,
            final(library).updater == old(library).updater,
    {
        let ghost target = paths_of(line_entries(*library, selected_line(self.feedtreestate)));
        let ghost loads = line_loads(*library, selected_line(self.feedtreestate));
        let ghost seen0 = library.data.seen_paths();
        let ghost later0 = library.data.read_later_paths();
        let entries: Vec<FeedEntry> = match self.feedtreestate.get_selected() {
            Some(FeedItemInfo::Category(t)) => match library.get_feed_entries_by_category(t.as_str()) {
                Ok(e) => {
                    proof {
                        lemma_newest_first_same_paths(e@, category_entries(library.data, library.feedcategories@, t@));
                    }
                    e
                },
                Err(_) => Vec::new(),
            },
            Some(FeedItemInfo::Item(_, _, s)) => match library.get_feed_entries_by_item_slug(s.as_str()) {
                Ok(e) => {
                    proof {
                        lemma_newest_first_same_paths(e@, slug_entries(library.data, library.feedcategories@, s@));
                    }
                    e
                },
                Err(_) => Vec::new(),
            },
            Some(FeedItemInfo::ReadLater) => match library.get_read_later_feed_entries() {
                Ok(e) => e,
                Err(_) => Vec::new(),
            },
            _ => Vec::new(),
        };
        assert(if loads { paths_of(entries@) == target } else { entries@.len() == 0 });
        let ghost cats = library.feedcategories@;
        let ghost generation = library.generation;
        let ghost updater = library.updater;
        let mut i: usize = 0;
        assert(paths_of(entries@.take(0)) =~= Set::<Seq<char>>::empty());
        assert(seen0.union(Set::<Seq<char>>::empty()) =~= seen0);
        while i < entries.len()
            invariant
                i <= entries@.len(),
                library.feedcategories@ == cats,
                library.generation == generation,
                library.updater == updater,
                library.data.seen_paths() == seen0.union(paths_of(entries@.take(i as int))),
                library.data.read_later_paths() == later0,
            decreases entries@.len() - i,
        {
            library.data.set_entry_seen(&entries[i]);
            proof {
                let pre = entries@.take(i as int);
                let post = entries@.take(i + 1);
                assert forall|p: Seq<char>| paths_of(post).contains(p) <==> paths_of(pre).insert(
                    entry_path(entries@[i as int]),
                ).contains(p) by {
                    if paths_of(post).contains(p) {
                        let k = choose|k: int| 0 <= k < post.len() && entry_path(#[trigger] post[k]) == p;
                        if k < i {
                            assert(pre[k] == post[k]);
                        }
                    }
                    if paths_of(pre).contains(p) {
                        let k = choose|k: int| 0 <= k < pre.len() && entry_path(#[trigger] pre[k]) == p;
                        assert(post[k] == pre[k]);
                    }
                    if p == entry_path(entries@[i as int]) {
                        assert(post[i as int] == entries@[i as int]);
                    }
                }
                assert(paths_of(post) =~= paths_of(pre).insert(entry_path(entries@[i as int])));
                assert(seen0.union(paths_of(post)) =~= seen0.union(paths_of(pre)).insert(
                    entry_path(entries@[i as int]),
                ));
            }
            i = i + 1;
        }
        assert(entries@.take(i as int) =~= entries@);
        proof {
            if entries@.len() == 0 {
                assert(paths_of(entries@) =~= Set::<Seq<char>>::empty());
            }
        }
        library.bump_generation();
    }
}

/// The tree line that the selection stands for, as `get_selected` gives it.
pub open spec fn selected_line(t: FeedTreeState) -> Option<FeedItemInfo> {
    let n = t.treeitems@.len();
    let i = crate::feedtree::sel_index(t.listatate.selected);
    if n == 0 {
        None
    } else {
        Some(t.treeitems@[if i < n { i } else { n - 1 }])
    }
}

/// The entries the store holds for a tree line: those of every feed of a
/// category, of a feed, or of the read-later list; none for a separator or
/// no line.
pub open spec fn line_entries<D: LibraryStore, U>(lib: FeedLibrary<D, U>, line: Option<FeedItemInfo>) -> Seq<FeedEntry> {
    match line {
        Some(FeedItemInfo::Category(t)) => category_entries(lib.data, lib.feedcategories@, t@),
        Some(FeedItemInfo::Item(_, _, s)) => slug_entries(lib.data, lib.feedcategories@, s@),
        Some(FeedItemInfo::ReadLater) => lib.data.read_later_entries(),
        _ => Seq::empty(),
    }
}

/// Whether the store can give the entries of a tree line: it can load
/// every feed of the category, or the feed, or list the read-later entries;
/// a separator or no line needs nothing of it.
pub open spec fn line_loads<D: LibraryStore, U>(lib: FeedLibrary<D, U>, line: Option<FeedItemInfo>) -> bool {
    match line {
        Some(FeedItemInfo::Category(t)) => category_loads(lib.data, lib.feedcategories@, t@),
        Some(FeedItemInfo::Item(_, _, s)) => slug_loads(lib.data, lib.feedcategories@, s@),
        Some(FeedItemInfo::ReadLater) => lib.data.lists_read_later(),
        _ => true,
    }
}

/// Which entries "mark all as read" marks, by the selected tree line.
pub enum EntrySource {
    /// All entries of the category with this title.
    Category(String),
    /// All entries of the feed with this slug.
    Feed(String),
    ReadLater,
    Nothing,
}

/// Which entries the selected tree line stands for.
pub fn entry_source(selected: Option<&FeedItemInfo>) -> (r: EntrySource)
    ensures
        match selected {
            Some(FeedItemInfo::Category(t)) => r == EntrySource::Category(*t),
            Some(FeedItemInfo::Item(_, _, s)) => r == EntrySource::Feed(*s),
            Some(FeedItemInfo::ReadLater) => r is ReadLater,
            _ => r is Nothing,
        },
{
    match selected {
        Some(FeedItemInfo::Category(t)) => EntrySource::Category(t.clone()),
        Some(FeedItemInfo::Item(_, _, s)) => EntrySource::Feed(s.clone()),
        Some(FeedItemInfo::ReadLater) => EntrySource::ReadLater,
        _ => EntrySource::Nothing,
    }
}

/// Whether `pat` occurs in `s`.
pub open spec fn contains(s: Seq<char>, pat: Seq<char>) -> bool {
    first_occurrence(s, pat, 0) is Some
}

/// The theme color slot of a category's accent, by the topic its name
/// mentions.
pub open spec fn accent_slot(category: Seq<char>) -> usize {
    if contains(category, "Science"@) {
        0x8
    } else if contains(category, "Space"@) {
        0x9
    } else if contains(category, "Nature"@) {
        0xA
    } else if contains(category, "History"@) {
        0xB
    } else if contains(category, "World"@) {
        0xC
    } else if contains(category, "Technology"@) || contains(category, "Tech"@) {
        0xD
    } else if contains(category, "Arts"@) {
        0xE
    } else {
        0xF
    }
}

/// The theme color slot of a category's accent (see `accent_slot`).
pub fn category_accent_slot(category: &str) -> (r: usize)
    ensures
        r == accent_slot(category@),
{
    if find_str(category, "Science").is_some() {
        0x8
    } else if find_str(category, "Space").is_some() {
        0x9
    } else if find_str(category, "Nature").is_some() {
        0xA
    } else if find_str(category, "History").is_some() {
        0xB
    } else if find_str(category, "World").is_some() {
        0xC
    } else if find_str(category, "Technology").is_some() || find_str(category, "Tech").is_some() {
        0xD
    } else if find_str(category, "Arts").is_some() {
        0xE
    } else {
        0xF
    }
}

/// The lifecycle of the dialog: showing, covering, uncovering and closing it
/// changes nothing, and it reports no background work.
impl AppScreen for UrlDialog {
    open spec fn started(self) -> Self {
        self
    }

    open spec fn paused(self) -> Self {
        self
    }

    open spec fn unpaused(self) -> Self {
        self
    }

    fn start(&mut self) {
    }

    fn pause(&mut self) {
    }

    fn unpause(&mut self) {
    }

    fn quit(&mut self) {
    }

    open spec fn work_status_spec(&self) -> AppWorkStatus {
        AppWorkStatus::Idle
    }

    fn get_work_status(&self) -> (r: AppWorkStatus) {
        AppWorkStatus::Idle
    }
}

} // verus!
