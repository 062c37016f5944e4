//! The article reader: which entry of a list is shown, and how far it is
//! scrolled.
use vstd::prelude::*;
use crate::app::{AppScreen, AppWorkStatus};
use crate::help::{instructions_text, reader_full_instructions, reader_help, ScreenInstructions};
use crate::keys::{is_char, is_leave_key, key_is_char, key_is_leave, KeyCode, KeyPress};
use crate::library::{entry_path, FeedEntry, FeedLibrary, LibraryStore, UpdateProgress};

verus! {

pub struct ReaderScreen {
    pub entries: Vec<FeedEntry>,
    pub current_index: usize,
    pub scroll: usize,
    pub scrollmax: usize,
    pub viewport_height: usize,
}

/// What a key press asks of the reader.
#[derive(Clone, Copy, PartialEq, Eq, Structural)]
pub enum ReaderCommand {
    Leave,
    ScrollDown,
    ScrollUp,
    Top,
    Bottom,
    OpenLink,
    NextEntry,
    PreviousEntry,
    WidenReader,
    NarrowReader,
    HalfPageDown,
    HalfPageUp,
    ThemeDialog,
    HelpDialog,
    Ignore,
}

/// The reader's key bindings.
pub open spec fn reader_command_of(k: KeyPress) -> ReaderCommand {
    if is_leave_key(k) {
        ReaderCommand::Leave
    } else if k.code == KeyCode::Down || is_char(k, 'j') {
        ReaderCommand::ScrollDown
    } else if k.code == KeyCode::Up || is_char(k, 'k') {
        ReaderCommand::ScrollUp
    } else if k.code == KeyCode::Home || is_char(k, 'g') {
        ReaderCommand::Top
    } else if k.code == KeyCode::End || is_char(k, 'G') {
        ReaderCommand::Bottom
    } else if is_char(k, 'o') {
        ReaderCommand::OpenLink
    } else if is_char(k, 'n') {
        ReaderCommand::NextEntry
    } else if is_char(k, 'p') {
        ReaderCommand::PreviousEntry
    } else if is_char(k, '>') {
        ReaderCommand::WidenReader
    } else if is_char(k, '<') {
        ReaderCommand::NarrowReader
    } else if k.control && (is_char(k, 'd') || is_char(k, 'D')) {
        ReaderCommand::HalfPageDown
    } else if k.control && (is_char(k, 'u') || is_char(k, 'U')) {
        ReaderCommand::HalfPageUp
    } else if is_char(k, 't') {
        ReaderCommand::ThemeDialog
    } else if is_char(k, '?') {
        ReaderCommand::HelpDialog
    } else {
        ReaderCommand::Ignore
    }
}

/// The reader's key bindings.
pub fn reader_command(k: &KeyPress) -> (r: ReaderCommand)
    ensures
        r == reader_command_of(*k),
{
    if key_is_leave(k) {
        ReaderCommand::Leave
    } else if k.code == KeyCode::Down || key_is_char(k, 'j') {
        ReaderCommand::ScrollDown
    } else if k.code == KeyCode::Up || key_is_char(k, 'k') {
        ReaderCommand::ScrollUp
    } else if k.code == KeyCode::Home || key_is_char(k, 'g') {
        ReaderCommand::Top
    } else if k.code == KeyCode::End || key_is_char(k, 'G') {
        ReaderCommand::Bottom
    } else if key_is_char(k, 'o') {
        ReaderCommand::OpenLink
    } else if key_is_char(k, 'n') {
        ReaderCommand::NextEntry
    } else if key_is_char(k, 'p') {
        ReaderCommand::PreviousEntry
    } else if key_is_char(k, '>') {
        ReaderCommand::WidenReader
    } else if key_is_char(k, '<') {
        ReaderCommand::NarrowReader
    } else if k.control && (key_is_char(k, 'd') || key_is_char(k, 'D')) {
        ReaderCommand::HalfPageDown
    } else if k.control && (key_is_char(k, 'u') || key_is_char(k, 'U')) {
        ReaderCommand::HalfPageUp
    } else if key_is_char(k, 't') {
        ReaderCommand::ThemeDialog
    } else if key_is_char(k, '?') {
        ReaderCommand::HelpDialog
    } else {
        ReaderCommand::Ignore
    }
}

/// Half a page of the viewport, at least one line.
pub open spec fn half_page(viewport_height: usize) -> int {
    if viewport_height / 2 >= 1 { (viewport_height / 2) as int } else { 1 }
}

/// The reader width one step wider: two more percent, at most 100.
pub open spec fn widened(w: u16) -> u16 {
    let s: int = if w as int + 2 <= u16::MAX { w + 2 } else { u16::MAX as int };
    if s <= 100 { s as u16 } else { 100 }
}

/// The reader width one step narrower: two percent less (not below zero),
/// at most 100.
pub open spec fn narrowed(w: u16) -> u16 {
    let s: int = if w >= 2 { w - 2 } else { 0 };
    if s <= 100 { s as u16 } else { 100 }
}

/// One step wider (see `widened`).
pub fn widen_width(w: u16) -> (r: u16)
    ensures
        r == widened(w),
{
    let s = w.saturating_add(2);
    if s <= 100 { s } else { 100 }
}

/// One step narrower (see `narrowed`).
pub fn narrow_width(w: u16) -> (r: u16)
    ensures
        r == narrowed(w),
{
    let s = w.saturating_sub(2);
    if s <= 100 { s } else { 100 }
}

/// The extra lines that wrapping adds: a line of width `w` takes
/// `ceil(w / width)` rows, one more than it would unwrapped for each row
/// past the first.
pub open spec fn wrapped_extra(widths: Seq<usize>, width: usize) -> int
    decreases widths.len(),
{
    if widths.len() == 0 || width == 0 {
        0
    } else {
        let w = widths.last() as int;
        let rows = (w + width - 1) / (width as int);
        wrapped_extra(widths.drop_last(), width) + (if rows >= 1 { rows - 1 } else { 0 })
    }
}

/// The number of extra rows that wrapping the lines of the given widths to
/// `width` columns adds.
pub fn wrapped_line_extra(widths: &Vec<usize>, width: usize) -> (r: usize)
    requires
        width > 0,
        wrapped_extra(widths@, width) <= usize::MAX,
    ensures
        r == wrapped_extra(widths@, width),
{
    let mut total: usize = 0;
    let mut i: usize = 0;
    while i < widths.len()
        invariant
            width > 0,
            i <= widths@.len(),
            total == wrapped_extra(widths@.take(i as int), width),
            wrapped_extra(widths@, width) <= usize::MAX,
        decreases widths@.len() - i,
    {
        let w = widths[i];
        let q = w / width;
        assert(w % width != 0 ==> q < usize::MAX) by (nonlinear_arith)
            requires
                width > 0,
                q == w / width,
        {
            if w % width != 0 {
                assert(width != 1);
                assert(q * 2 <= q * width);
                assert(q * width <= w);
            }
        }
        let rows = if w % width == 0 { q } else { q + 1 };
        assert(widths@.take(i + 1).drop_last() =~= widths@.take(i as int));
        assert(rows as int == (w as int + width - 1) / (width as int)) by (nonlinear_arith)
            requires
                width > 0,
                rows as int == w as int / width as int + if w as int % width as int == 0 { 0int } else { 1int },
        {
        }
        proof {
            lemma_wrapped_extra_prefix(widths@, width, i + 1);
        }
        let extra = if rows >= 1 { rows - 1 } else { 0 };
        total = total + extra;
        i = i + 1;
    }
    assert(widths@.take(i as int) =~= widths@);
    total
}

/// The extra rows of a prefix are no more than those of the whole.
proof fn lemma_wrapped_extra_prefix(widths: Seq<usize>, width: usize, n: int)
    requires
        0 <= n <= widths.len(),
    ensures
        wrapped_extra(widths.take(n), width) <= wrapped_extra(widths, width),
    decreases widths.len(),
{
    if n < widths.len() {
        assert(widths.drop_last().take(n) =~= widths.take(n));
        lemma_wrapped_extra_prefix(widths.drop_last(), width, n);
        assert(wrapped_extra(widths.drop_last(), width) <= wrapped_extra(widths, width)) by {
            if widths.len() > 0 && width > 0 {
                let w = widths.last() as int;
                assert((w + width - 1) / (width as int) >= 0) by (nonlinear_arith)
                    requires
                        w >= 0,
                        width > 0,
                {
                }
            }
        }
    } else {
        assert(widths.take(n) =~= widths);
    }
}

/// The scroll position after a command, in an article scrolled to
/// `scroll` of at most `scrollmax`, showing entry `index` of `len`.
pub open spec fn scroll_after(
    cmd: ReaderCommand,
    scroll: usize,
    scrollmax: usize,
    viewport_height: usize,
    index: usize,
    len: nat,
) -> int {
    let half = half_page(viewport_height);
    match cmd {
        ReaderCommand::ScrollDown => if scroll + 1 <= scrollmax { scroll + 1 } else { scrollmax as int },
        ReaderCommand::ScrollUp => if scroll > 0 { scroll - 1 } else { 0 },
        ReaderCommand::Top => 0,
        ReaderCommand::Bottom => scrollmax as int,
        ReaderCommand::HalfPageDown => if scroll + half <= scrollmax { scroll + half } else { scrollmax as int },
        ReaderCommand::HalfPageUp => if scroll >= half { scroll - half } else { 0 },
        ReaderCommand::NextEntry => if index + 1 < len { 0 } else { scroll as int },
        ReaderCommand::PreviousEntry => if index > 0 { 0 } else { scroll as int },
        _ => scroll as int,
    }
}

/// The shown entry after a command, from entry `index` of `len`.
pub open spec fn index_after(cmd: ReaderCommand, index: usize, len: nat) -> int {
    match cmd {
        ReaderCommand::NextEntry => if index + 1 < len { index + 1 } else { index as int },
        ReaderCommand::PreviousEntry => if index > 0 { index - 1 } else { index as int },
        _ => index as int,
    }
}

impl ReaderScreen {
    /// A reader on `entries`, showing the one at `current_index`, scrolled
    /// to the top.
    pub fn new(entries: Vec<FeedEntry>, current_index: usize) -> (r: ReaderScreen)
        ensures
            r.entries@ == entries@,
            r.current_index == current_index,
            r.scroll == 0,
            r.scrollmax == 1,
            r.viewport_height == 24,
    {
        ReaderScreen { entries, current_index, scroll: 0, scrollmax: 1, viewport_height: 24 }
    }

    pub fn get_title(&self) -> (r: &'static str)
        ensures
            r@ == "Reader"@,
    {
        "Reader"
    }

    pub fn get_instructions(&self) -> (r: &'static str)
        ensures
            r@ == "?: Help | j/k/\u{2193}/\u{2191}: scroll | n/p: next/prev | o: open | Esc/q: leave"@,
    {
        "?: Help | j/k/\u{2193}/\u{2191}: scroll | n/p: next/prev | o: open | Esc/q: leave"
    }

    /// The reader's full key help.
    pub fn get_full_instructions(&self) -> (r: ScreenInstructions)
        ensures
            instructions_text(r) == reader_help(),
    {
        reader_full_instructions()
    }

    /// One line up, unless at the top.
    pub fn scrollup(&mut self)
        ensures
            final(self).scroll == if old(self).scroll > 0 { old(self).scroll - 1 } else { 0 },
            final(self).entries@ == old(self).entries@,
            final(self).current_index == old(self).current_index,
            final(self).scrollmax == old(self).scrollmax,
            final(self).viewport_height == old(self).viewport_height,
    {
        if self.scroll > 0 {
            self.scroll = self.scroll - 1;
        }
    }

    /// One line down, not past the end.
    pub fn scrolldown(&mut self)
        requires
            old(self).scroll < usize::MAX,
        ensures
            final(self).scroll == if old(self).scroll + 1 <= old(self).scrollmax {
                old(self).scroll + 1
            } else {
                old(self).scrollmax as int
            },
            final(self).entries@ == old(self).entries@,
            final(self).current_index == old(self).current_index,
            final(self).scrollmax == old(self).scrollmax,
            final(self).viewport_height == old(self).viewport_height,
    {
        let next = self.scroll + 1;
        self.scroll = if next <= self.scrollmax { next } else { self.scrollmax };
    }

    /// Half a page down, not past the end.
    pub fn scroll_half_down(&mut self)
        requires
            old(self).scroll + half_page(old(self).viewport_height) <= usize::MAX,
        ensures
            final(self).scroll == if old(self).scroll + half_page(old(self).viewport_height) <= old(self).scrollmax {
                old(self).scroll + half_page(old(self).viewport_height)
            } else {
                old(self).scrollmax as int
            },
            final(self).entries@ == old(self).entries@,
            final(self).current_index == old(self).current_index,
            final(self).scrollmax == old(self).scrollmax,
            final(self).viewport_height == old(self).viewport_height,
    {
        let h = self.viewport_height / 2;
        let half = if h >= 1 { h } else { 1 };
        let next = self.scroll + half;
        self.scroll = if next <= self.scrollmax { next } else { self.scrollmax };
    }

    /// Half a page up, not past the top.
    pub fn scroll_half_up(&mut self)
        ensures
            final(self).scroll == if old(self).scroll >= half_page(old(self).viewport_height) {
                old(self).scroll - half_page(old(self).viewport_height)
            } else {
                0
            },
            final(self).entries@ == old(self).entries@,
            final(self).current_index == old(self).current_index,
            final(self).scrollmax == old(self).scrollmax,
            final(self).viewport_height == old(self).viewport_height,
    {
        let h = self.viewport_height / 2;
        let half = if h >= 1 { h } else { 1 };
        self.scroll = self.scroll.saturating_sub(half);
    }

    /// Shows the next entry, scrolled to the top, and marks it as seen;
    /// nothing happens on the last entry.
    pub fn next_entry<D: LibraryStore, U: UpdateProgress>(&mut self, library: &mut FeedLibrary<D, U>)
        requires
            old(self).current_index + 1 < old(self).entries@.len() ==> old(library).generation < u64::MAX,
        ensures
            old(self).current_index + 1 < old(self).entries@.len() ==> {
                &&& final(self).current_index == old(self).current_index + 1
                &&& final(self).scroll == 0
                &&& final(library).data.seen_paths() == old(library).data.seen_paths().insert(
                    entry_path(old(self).entries@[old(self).current_index + 1]),
                )
                &&& final(library).data.read_later_paths() == old(library).data.read_later_paths()
                &&& final(library).generation == old(library).generation + 1
            },
            !(old(self).current_index + 1 < old(self).entries@.len()) ==> {
                &&& final(self).current_index == old(self).current_index
                &&& final(self).scroll == old(self).scroll
                &&& *final(library) == *old(library)
            },
            final(self).entries@ == old(self).entries@,
            final(self).scrollmax == old(self).scrollmax,
            final(self).viewport_height == old(self).viewport_height,
            final(library).feedcategories@ == old(library).feedcategories@,
            final(library).updater == old(library).updater,
    {
        let last = if self.entries.len() > 0 { self.entries.len() - 1 } else { 0 };
        if self.current_index < last {
            self.current_index = self.current_index + 1;
            self.scroll = 0;
            library.set_entry_seen(&self.entries[self.current_index]);
        }
    }

    /// Shows the previous entry, scrolled to the top, and marks it as seen;
    /// nothing happens on the first entry.
    pub fn previous_entry<D: LibraryStore, U: UpdateProgress>(&mut self, library: &mut FeedLibrary<D, U>)
        requires
            old(self).current_index > 0 ==> old(self).current_index <= old(self).entries@.len()
                && old(library).generation < u64::MAX,
        ensures
            old(self).current_index > 0 ==> {
                &&& final(self).current_index == old(self).current_index - 1
                &&& final(self).scroll == 0
                &&& final(library).data.seen_paths() == old(library).data.seen_paths().insert(
                    entry_path(old(self).entries@[old(self).current_index - 1]),
                )
                &&& final(library).data.read_later_paths() == old(library).data.read_later_paths()
                &&& final(library).generation == old(library).generation + 1
            },
            old(self).current_index == 0 ==> {
                &&& final(self).current_index == 0
                &&& final(self).scroll == old(self).scroll
                &&& *final(library) == *old(library)
            },
            final(self).entries@ == old(self).entries@,
            final(self).scrollmax == old(self).scrollmax,
            final(self).viewport_height == old(self).viewport_height,
            final(library).feedcategories@ == old(library).feedcategories@,
            final(library).updater == old(library).updater,
    {
        if self.current_index > 0 {
            self.current_index = self.current_index - 1;
            self.scroll = 0;
            library.set_entry_seen(&self.entries[self.current_index]);
        }
    }

    /// Takes the size of the rendered article into account: `text_height`
    /// lines, `wrapped_extra` more rows once wrapped, and four rows of
    /// margin, shown in a viewport of `area_height` rows; the scroll limit is
    /// what does not fit.
    pub fn set_content_size(&mut self, text_height: usize, wrapped_extra: usize, area_height: usize)
        requires
            text_height + wrapped_extra + 4 <= usize::MAX,
        ensures
            ({
                let total = text_height + wrapped_extra + 4;
                final(self).scrollmax == if area_height <= total { total - area_height } else { 0 }
            }),
            final(self).viewport_height == area_height,
            final(self).scroll == old(self).scroll,
            final(self).current_index == old(self).current_index,
            final(self).entries@ == old(self).entries@,
    {
        let total = text_height + wrapped_extra + 4;
        let shown = if area_height <= total { area_height } else { total };
        self.scrollmax = total - shown;
        self.viewport_height = area_height;
    }

    /// Carries out a key press: moves within the article or between
    /// entries, steps the reader width (`reader_width`, in percent), and
    /// returns what was asked of the reader; leaving, opening the link,
    /// saving the width and opening dialogs are left to the caller.
    pub fn handle_keypress<D: LibraryStore, U: UpdateProgress>(
        &mut self,
        key: &KeyPress,
        library: &mut FeedLibrary<D, U>,
        reader_width: &mut u16,
    ) -> (r: ReaderCommand)
        requires
            reader_command_of(*key) == ReaderCommand::ScrollDown ==> old(self).scroll < usize::MAX,
            reader_command_of(*key) == ReaderCommand::HalfPageDown ==> old(self).scroll + half_page(
                old(self).viewport_height,
            ) <= usize::MAX,
            reader_command_of(*key) == ReaderCommand::NextEntry ==> (old(self).current_index + 1 < old(
                self,
            ).entries@.len() ==> old(library).generation < u64::MAX),
            reader_command_of(*key) == ReaderCommand::PreviousEntry ==> (old(self).current_index > 0 ==> old(
                self,
            ).current_index <= old(self).entries@.len() && old(library).generation < u64::MAX),
        ensures
            r == reader_command_of(*key),
            final(self).scroll == scroll_after(
                r,
                old(self).scroll,
                old(self).scrollmax,
                old(self).viewport_height,
                old(self).current_index,
                old(self).entries@.len(),
            ),
            final(self).current_index == index_after(r, old(self).current_index, old(self).entries@.len()),
            r != ReaderCommand::NextEntry && r != ReaderCommand::PreviousEntry ==> *final(library) == *old(library),
            r == ReaderCommand::NextEntry || r == ReaderCommand::PreviousEntry ==> if final(self).current_index
                != old(self).current_index {
                &&& final(library).data.seen_paths() == old(library).data.seen_paths().insert(
                    entry_path(old(self).entries@[final(self).current_index as int]),
                )
                &&& final(library).data.read_later_paths() == old(library).data.read_later_paths()
                &&& final(library).generation == old(library).generation + 1
            } else {
                *final(library) == *old(library)
            },
            final(self).entries@ == old(self).entries@,
            final(self).scrollmax == old(self).scrollmax,
            final(self).viewport_height == old(self).viewport_height,
            *final(reader_width) == match r {
                ReaderCommand::WidenReader => widened(*old(reader_width)),
                ReaderCommand::NarrowReader => narrowed(*old(reader_width)),
                _ => *old(reader_width),
            },
    {
        let cmd = reader_command(key);
        match cmd {
            ReaderCommand::ScrollDown => self.scrolldown(),
            ReaderCommand::ScrollUp => self.scrollup(),
            ReaderCommand::Top => { self.scroll = 0; },
            ReaderCommand::Bottom => { self.scroll = self.scrollmax; },
            ReaderCommand::NextEntry => self.next_entry(library),
            ReaderCommand::PreviousEntry => self.previous_entry(library),
            ReaderCommand::HalfPageDown => self.scroll_half_down(),
            ReaderCommand::HalfPageUp => self.scroll_half_up(),
            ReaderCommand::WidenReader => { *reader_width = widen_width(*reader_width); },
            ReaderCommand::NarrowReader => { *reader_width = narrow_width(*reader_width); },
            _ => {},
        }
        cmd
    }
}

/// `n` shows the next entry and `p` the previous one, whatever modifier is
/// held: from entry `index` of `len`, `p` goes to `index - 1` when there is
/// one and `n` to `index + 1` when there is one, each scrolled to the top.
pub proof fn lemma_entry_keys(k: KeyPress, index: usize, len: nat, scroll: usize, scrollmax: usize, viewport_height: usize)
    ensures
        k.code == KeyCode::Char('n') ==> reader_command_of(k) == ReaderCommand::NextEntry,
        k.code == KeyCode::Char('p') ==> reader_command_of(k) == ReaderCommand::PreviousEntry,
        k.code == KeyCode::Char('p') && 0 < index <= len ==> index_after(reader_command_of(k), index, len) == index
            - 1 && scroll_after(reader_command_of(k), scroll, scrollmax, viewport_height, index, len) == 0,
        k.code == KeyCode::Char('n') && index + 1 < len ==> index_after(reader_command_of(k), index, len) == index
            + 1 && scroll_after(reader_command_of(k), scroll, scrollmax, viewport_height, index, len) == 0,
{
}

/// The reader's other keys, whatever modifier is held unless said:
/// Escape, `q` and Control-`c` leave; Down/`j` and Up/`k` scroll a line;
/// Home/`g` and End/`G` go to the top and the bottom; `o` opens the link;
/// `>`/`<` widen and narrow the reader; Control-`d` and Control-`u` scroll
/// half a page; `t` and `?` open the theme picker and the key help.
pub proof fn lemma_reader_keys(k: KeyPress)
    ensures
        k.code == KeyCode::Esc || k.code == KeyCode::Char('q') || (k.control && k.code == KeyCode::Char('c'))
            ==> reader_command_of(k) == ReaderCommand::Leave,
        k.code == KeyCode::Down || k.code == KeyCode::Char('j') ==> reader_command_of(k) == ReaderCommand::ScrollDown,
        k.code == KeyCode::Up || k.code == KeyCode::Char('k') ==> reader_command_of(k) == ReaderCommand::ScrollUp,
        k.code == KeyCode::Home || k.code == KeyCode::Char('g') ==> reader_command_of(k) == ReaderCommand::Top,
        k.code == KeyCode::End || k.code == KeyCode::Char('G') ==> reader_command_of(k) == ReaderCommand::Bottom,
        k.code == KeyCode::Char('o') ==> reader_command_of(k) == ReaderCommand::OpenLink,
        k.code == KeyCode::Char('>') ==> reader_command_of(k) == ReaderCommand::WidenReader,
        k.code == KeyCode::Char('<') ==> reader_command_of(k) == ReaderCommand::NarrowReader,
        k.control && k.code == KeyCode::Char('d') ==> reader_command_of(k) == ReaderCommand::HalfPageDown,
        k.control && k.code == KeyCode::Char('u') ==> reader_command_of(k) == ReaderCommand::HalfPageUp,
        k.code == KeyCode::Char('t') ==> reader_command_of(k) == ReaderCommand::ThemeDialog,
        k.code == KeyCode::Char('?') ==> reader_command_of(k) == ReaderCommand::HelpDialog,
{
}

/// Scrolling never passes the end: from a position within the limit, every
/// command leaves the position within the limit.
pub proof fn lemma_scroll_stays_within_limit(
    cmd: ReaderCommand,
    scroll: usize,
    scrollmax: usize,
    viewport_height: usize,
    index: usize,
    len: nat,
)
    requires
        scroll <= scrollmax,
    ensures
        0 <= scroll_after(cmd, scroll, scrollmax, viewport_height, index, len) <= scrollmax,
{
}

/// Moving to the next entry and back returns to the same entry, scrolled
/// to the top, whenever there is a next entry.
pub proof fn lemma_next_then_previous(index: usize, len: nat, scroll: usize, scrollmax: usize, viewport_height: usize)
    requires
        index + 1 < len,
        index + 1 <= usize::MAX,
    ensures
        index_after(ReaderCommand::PreviousEntry, (index + 1) as usize, len) == index,
        index_after(ReaderCommand::NextEntry, index, len) == index + 1,
        scroll_after(ReaderCommand::PreviousEntry, scroll, scrollmax, viewport_height, (index + 1) as usize, len) == 0,
{
}

/// The shown entry stays within the list: from a valid entry, every
/// command leaves a valid entry.
pub proof fn lemma_index_stays_valid(cmd: ReaderCommand, index: usize, len: nat)
    requires
        index < len,
    ensures
        0 <= index_after(cmd, index, len) < len,
{
}

/// The reader width never exceeds 100 percent after a step either way,
/// and a step from within the range moves by at most two.
pub proof fn lemma_width_steps_bounded(w: u16)
    ensures
        widened(w) <= 100,
        narrowed(w) <= 100,
        w <= 98 ==> widened(w) == w + 2,
        2 <= w <= 100 ==> narrowed(w) == w - 2,
{
}

/// The lifecycle of the reader: showing, covering, uncovering and closing it
/// changes nothing, and it reports no background work.
impl AppScreen for ReaderScreen {
    open spec fn started(self) -> Self {
        self
    }

    open spec fn paused(self) -> Self {
        self
    }

    open spec fn unpaused(self) -> Self {
        self
    }

    fn start(&mut self) {
    }

    fn pause(&mut self) {
    }

    fn unpause(&mut self) {
    }

    fn quit(&mut self) {
    }

    open spec fn work_status_spec(&self) -> AppWorkStatus {
        AppWorkStatus::Idle
    }

    fn get_work_status(&self) -> (r: AppWorkStatus) {
        AppWorkStatus::Idle
    }
}

} // verus!
