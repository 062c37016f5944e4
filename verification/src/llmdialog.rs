//! The AI assistant dialog: its menu, the kid-safe switch, and the states
//! of a Smart Pick or Daily Digest request.
use vstd::prelude::*;
use crate::app::{AppScreen, AppWorkStatus};
use crate::config::LlmConfig;
use crate::help::{instructions_text, llm_dialog_full_instructions, llm_dialog_help, ScreenInstructions};
use crate::keys::{is_char, is_leave_key, key_is_char, key_is_leave, KeyPress};
use crate::library::{FeedCategory, FeedEntry, FeedItem, FeedLibrary, LibraryStore, UpdateProgress};
use crate::llm::{
    article_views, completions_url_of, digest_prompt_of, feed_pair_views, generate_digest, is_runtime_of,
    lemma_digest_prompt_of, lemma_smart_pick_prompt_of, smart_pick, smart_pick_prompt_of, ChatCall, LlmRuntime,
};
use crate::text::concat2;

verus! {

pub enum LlmDialogState {
    Menu,
    /// A request is running; holds its label ("Smart Pick" or "Daily Digest").
    Loading(String),
    /// The model's answer.
    Result(String),
    /// What went wrong.
    Error(String),
}

pub struct LlmDialog {
    pub runtime: Option<LlmRuntime>,
    pub kid_safe: bool,
    pub state: LlmDialogState,
}

/// What a key press asks of the dialog.
#[derive(PartialEq, Eq, Structural)]
pub enum LlmKeyAction {
    Close,
    RunSmartPick,
    RunDigest,
    /// The kid-safe filter was switched; holds its new setting.
    KidSafeToggled(bool),
    Ignore,
}

/// The dialog's key bindings in a state; `true` for the menu,
/// `has_output` for a shown result or error.
pub open spec fn llm_key_action_of(k: KeyPress, in_menu: bool, has_output: bool, kid_safe: bool) -> LlmKeyAction {
    if is_leave_key(k) {
        LlmKeyAction::Close
    } else if in_menu && is_char(k, '1') {
        LlmKeyAction::RunSmartPick
    } else if in_menu && is_char(k, '2') {
        LlmKeyAction::RunDigest
    } else if in_menu && is_char(k, '3') {
        LlmKeyAction::KidSafeToggled(!kid_safe)
    } else {
        LlmKeyAction::Ignore
    }
}

/// The message of an error state.
pub open spec fn error_text(s: LlmDialogState) -> Option<Seq<char>> {
    match s {
        LlmDialogState::Error(m) => Some(m@),
        _ => None,
    }
}

/// The label of a waiting state.
pub open spec fn loading_label(s: LlmDialogState) -> Option<Seq<char>> {
    match s {
        LlmDialogState::Loading(l) => Some(l@),
        _ => None,
    }
}

pub open spec fn in_menu(s: LlmDialogState) -> bool {
    s is Menu
}

pub open spec fn has_output(s: LlmDialogState) -> bool {
    s is Result || s is Error
}

/// The first 80 characters of a title.
pub open spec fn preview_of(title: Seq<char>) -> Seq<char> {
    if title.len() <= 80 {
        title
    } else {
        title.subrange(0, 80)
    }
}

/// Whether an entry is still unread.
pub open spec fn unseen() -> spec_fn(FeedEntry) -> bool {
    |e: FeedEntry| !e.seen
}

/// The (title, category, preview) of an entry of the given category.
pub open spec fn digest_triple(category: Seq<char>) -> spec_fn(FeedEntry) -> (Seq<char>, Seq<char>, Seq<char>) {
    |e: FeedEntry| (e.title@, category, preview_of(e.title@))
}

/// The (title, URL) of every feed of the categories, category by category.
pub open spec fn library_feed_views(cats: Seq<FeedCategory>) -> Seq<(Seq<char>, Seq<char>)>
    decreases cats.len(),
{
    if cats.len() == 0 {
        Seq::empty()
    } else {
        library_feed_views(cats.drop_last()) + cats.last().feeds@.map_values(|f: FeedItem| (f.title@, f.feed_url@))
    }
}

/// The articles of one feed that the digest covers: its unread ones among
/// its first five.
pub open spec fn feed_digest_articles(category: Seq<char>, entries: Seq<FeedEntry>) -> Seq<(Seq<char>, Seq<char>, Seq<char>)> {
    let first = if entries.len() <= 5 { entries } else { entries.subrange(0, 5) };
    first.filter(unseen()).map_values(digest_triple(category))
}

/// The articles that the digest covers, feed by feed.
pub open spec fn digest_articles(feeds: Seq<(String, Vec<FeedEntry>)>) -> Seq<(Seq<char>, Seq<char>, Seq<char>)>
    decreases feeds.len(),
{
    if feeds.len() == 0 {
        Seq::empty()
    } else {
        digest_articles(feeds.drop_last()) + feed_digest_articles(feeds.last().0@, feeds.last().1@)
    }
}

/// The (category title, entries) of each of `feeds`, feeds of the category
/// titled `title`, whose entries the store loads.
pub open spec fn feed_sources<D: LibraryStore>(data: D, title: Seq<char>, feeds: Seq<FeedItem>) -> Seq<
    (Seq<char>, Seq<FeedEntry>),
>
    decreases feeds.len(),
{
    if feeds.len() == 0 {
        Seq::empty()
    } else {
        feed_sources(data, title, feeds.drop_last()) + if data.loads(title, feeds.last().slug@) {
            seq![(title, data.feed_entries(title, feeds.last().slug@))]
        } else {
            Seq::empty()
        }
    }
}

/// The (category title, entries) of every feed of the categories whose
/// entries the store loads, category by category; feeds that fail to load
/// are left out.
pub open spec fn digest_sources<D: LibraryStore>(data: D, cats: Seq<FeedCategory>) -> Seq<(Seq<char>, Seq<FeedEntry>)>
    decreases cats.len(),
{
    if cats.len() == 0 {
        Seq::empty()
    } else {
        digest_sources(data, cats.drop_last()) + feed_sources(data, cats.last().title@, cats.last().feeds@)
    }
}

/// The articles that the digest covers, source by source.
pub open spec fn digest_views(sources: Seq<(Seq<char>, Seq<FeedEntry>)>) -> Seq<(Seq<char>, Seq<char>, Seq<char>)>
    decreases sources.len(),
{
    if sources.len() == 0 {
        Seq::empty()
    } else {
        digest_views(sources.drop_last()) + feed_digest_articles(sources.last().0, sources.last().1)
    }
}

/// The (category title, entries) pairs as character sequences and entries.
pub open spec fn source_views(feeds: Seq<(String, Vec<FeedEntry>)>) -> Seq<(Seq<char>, Seq<FeedEntry>)> {
    feeds.map_values(|f: (String, Vec<FeedEntry>)| (f.0@, f.1@))
}

/// The digest's articles depend on the sources' texts and entries only.
proof fn lemma_digest_articles_of_views(feeds: Seq<(String, Vec<FeedEntry>)>)
    ensures
        digest_articles(feeds) == digest_views(source_views(feeds)),
    decreases feeds.len(),
{
    if feeds.len() > 0 {
        assert(source_views(feeds).drop_last() =~= source_views(feeds.drop_last()));
        lemma_digest_articles_of_views(feeds.drop_last());
    }
}

/// The triples of strings as character sequences.
pub open spec fn triples_view(v: Seq<(String, String, String)>) -> Seq<(Seq<char>, Seq<char>, Seq<char>)> {
    v.map_values(|t: (String, String, String)| (t.0@, t.1@, t.2@))
}

/// The first 80 characters of a title.
pub fn preview(title: &str) -> (r: String)
    ensures
        r@ == preview_of(title@),
{
    let n = title.unicode_len();
    if n <= 80 {
        String::from_str(title)
    } else {
        String::from_str(title.substring_char(0, 80))
    }
}

/// The (title, category, preview) of each unread entry among the first five
/// of each feed, given as (category title, the feed's entries).
pub fn collect_digest_articles(feeds: &Vec<(String, Vec<FeedEntry>)>) -> (r: Vec<(String, String, String)>)
    ensures
        triples_view(r@) == digest_articles(feeds@),
{
    let mut out: Vec<(String, String, String)> = Vec::new();
    let mut i: usize = 0;
    while i < feeds.len()
        invariant
            i <= feeds@.len(),
            triples_view(out@) == digest_articles(feeds@.take(i as int)),
        decreases feeds@.len() - i,
    {
        let category = &feeds[i].0;
        let entries = &feeds[i].1;
        let limit = if entries.len() <= 5 { entries.len() } else { 5 };
        let ghost before = triples_view(out@);
        let ghost first = if entries@.len() <= 5 { entries@ } else { entries@.subrange(0, 5) };
        let mut j: usize = 0;
        while j < limit
            invariant
                limit == first.len(),
                j <= limit,
                first == (if entries@.len() <= 5 { entries@ } else { entries@.subrange(0, 5) }),
                limit <= entries@.len(),
                triples_view(out@) == before + first.take(j as int).filter(unseen()).map_values(digest_triple(category@)),
            decreases limit - j,
        {
            let e = &entries[j];
            let ghost tk = first.take(j + 1);
            assert(tk.drop_last() =~= first.take(j as int));
            assert(tk.last() == *e);
            reveal_with_fuel(Seq::filter, 1);
            assert(tk.filter(unseen()) == if unseen()(tk.last()) {
                tk.drop_last().filter(unseen()).push(tk.last())
            } else {
                tk.drop_last().filter(unseen())
            });
            if !e.seen {
                let ghost old_out = out@;
                let t = (e.title.clone(), category.clone(), preview(e.title.as_str()));
                assert((t.0@, t.1@, t.2@) == digest_triple(category@)(*e));
                out.push(t);
                assert(out@ == old_out.push(t));
                assert(triples_view(out@) =~= triples_view(old_out).push(digest_triple(category@)(*e)));
                assert(unseen()(tk.last()));
                assert(tk.filter(unseen()) == first.take(j as int).filter(unseen()).push(*e));
                assert(tk.filter(unseen()).map_values(digest_triple(category@)) =~= first.take(j as int).filter(unseen()).map_values(digest_triple(category@)).push(digest_triple(category@)(*e)));
            }
            j = j + 1;
        }
        assert(first.take(j as int) =~= first);
        assert(feeds@.take(i + 1).drop_last() =~= feeds@.take(i as int));
        assert(triples_view(out@) =~= digest_articles(feeds@.take(i + 1)));
        i = i + 1;
    }
    assert(feeds@.take(i as int) =~= feeds@);
    out
}

/// The message that reports the kid-safe filter's setting.
pub fn kid_safe_message(on: bool) -> (r: &'static str)
    ensures
        r@ == if on { "Kid-safe filter: ON"@ } else { "Kid-safe filter: OFF"@ },
{
    if on { "Kid-safe filter: ON" } else { "Kid-safe filter: OFF" }
}

/// Whether `d` is the dialog as opened for an optional LLM configuration:
/// on its menu, with a runtime exactly when the configuration has an API
/// key (the runtime of that configuration), and the configured kid-safe
/// filter (off without a configuration).
pub open spec fn is_dialog_for(d: LlmDialog, cfg: Option<LlmConfig>) -> bool {
    &&& d.runtime is Some <==> (cfg matches Some(c) && c.api_key is Some)
    &&& d.runtime matches Some(rt) ==> (cfg matches Some(c) && is_runtime_of(rt, c))
    &&& d.kid_safe == match cfg {
        Some(c) => c.kid_safe_filter,
        None => false,
    }
    &&& d.state is Menu
}

impl LlmDialog {
    /// The dialog for an optional LLM configuration: a runtime only when the
    /// configuration has an API key, and the configured kid-safe filter.
    pub fn new(llm_cfg: Option<&LlmConfig>) -> (r: LlmDialog)
        ensures
            is_dialog_for(r, match llm_cfg {
                Some(c) => Some(*c),
                None => None,
            }),
    {
        let runtime = match llm_cfg {
            Some(c) => if c.api_key.is_some() { LlmRuntime::from_config(c) } else { None },
            None => None,
        };
        let kid_safe = match llm_cfg {
            Some(c) => c.kid_safe_filter,
            None => false,
        };
        LlmDialog { runtime, kid_safe, state: LlmDialogState::Menu }
    }

    /// The menu's text: the three actions with the kid-safe setting, or a
    /// hint to configure the LLM when there is no runtime.
    pub fn menu_text(&self) -> (r: String)
        ensures
            self.runtime is Some ==> r@ == "\n\n  [1] Smart Pick \u{2014} suggest new feeds\n  [2] Daily Digest \u{2014} summarize articles\n  [3] Toggle kid-safe filter (currently "@
                + (if self.kid_safe { "ON"@ } else { "OFF"@ }) + ")\n\n  Esc to close\n"@,
            self.runtime is None ==> r@ == "\n\n  LLM not configured.\n  Add [llm] section to config.toml.\n\n  Esc to close\n"@,
    {
        if self.runtime.is_some() {
            let mut t = String::from_str(
                "\n\n  [1] Smart Pick \u{2014} suggest new feeds\n  [2] Daily Digest \u{2014} summarize articles\n  [3] Toggle kid-safe filter (currently ",
            );
            t.append(if self.kid_safe { "ON" } else { "OFF" });
            t.append(")\n\n  Esc to close\n");
            t
        } else {
            String::from_str("\n\n  LLM not configured.\n  Add [llm] section to config.toml.\n\n  Esc to close\n")
        }
    }

    /// The dialog's width and height in the current state.
    pub fn get_size(&self) -> (r: (u16, u16))
        ensures
            r == match self.state {
                LlmDialogState::Menu => (45u16, 14u16),
                LlmDialogState::Loading(_) => (40u16, 8u16),
                LlmDialogState::Result(_) => (65u16, 28u16),
                LlmDialogState::Error(_) => (50u16, 10u16),
            },
    {
        match &self.state {
            LlmDialogState::Menu => (45, 14),
            LlmDialogState::Loading(_) => (40, 8),
            LlmDialogState::Result(_) => (65, 28),
            LlmDialogState::Error(_) => (50, 10),
        }
    }

    /// The dialog's full key help.
    pub fn get_full_instructions(&self) -> (r: ScreenInstructions)
        ensures
            instructions_text(r) == llm_dialog_help(),
    {
        llm_dialog_full_instructions()
    }

    /// The dialog's title in the current state.
    pub fn get_title(&self) -> (r: String)
        ensures
            r@ == match self.state {
                LlmDialogState::Menu => "AI Assistant"@,
                LlmDialogState::Loading(l) => "\u{1F916} "@ + l@ + "..."@,
                LlmDialogState::Result(_) => "AI Result"@,
                LlmDialogState::Error(_) => "AI Error"@,
            },
    {
        match &self.state {
            LlmDialogState::Menu => String::from_str("AI Assistant"),
            LlmDialogState::Loading(l) => {
                let mut t = String::from_str("\u{1F916} ");
                t.append(l.as_str());
                t.append("...");
                t
            },
            LlmDialogState::Result(_) => String::from_str("AI Result"),
            LlmDialogState::Error(_) => String::from_str("AI Error"),
        }
    }

    /// The key help of the current state.
    pub fn get_instructions(&self) -> (r: &'static str)
        ensures
            r@ == match self.state {
                LlmDialogState::Menu => "1: Smart Pick | 2: Digest | 3: Kid-safe | Esc: close"@,
                LlmDialogState::Loading(_) => "Waiting for response..."@,
                LlmDialogState::Result(_) => "Press any key to return"@,
                LlmDialogState::Error(_) => "Press any key to return"@,
            },
    {
        match &self.state {
            LlmDialogState::Menu => "1: Smart Pick | 2: Digest | 3: Kid-safe | Esc: close",
            LlmDialogState::Loading(_) => "Waiting for response...",
            LlmDialogState::Result(_) => "Press any key to return",
            LlmDialogState::Error(_) => "Press any key to return",
        }
    }

    /// Carries out a key press: the leave keys close the dialog from any
    /// state; in the menu `1` and `2` ask for a request and `3` switches the
    /// kid-safe filter; any other key brings a shown result or error back to
    /// the menu.
    pub fn handle_keypress(&mut self, key: &KeyPress) -> (r: LlmKeyAction)
        ensures
            r == llm_key_action_of(*key, in_menu(old(self).state), has_output(old(self).state), old(self).kid_safe),
            final(self).kid_safe == if r is KidSafeToggled { !old(self).kid_safe } else { old(self).kid_safe },
            (r is Ignore && has_output(old(self).state)) ==> final(self).state is Menu,
            !(r is Ignore && has_output(old(self).state)) ==> final(self).state == old(self).state,
            final(self).runtime == old(self).runtime,
    {
        if key_is_leave(key) {
            return LlmKeyAction::Close;
        }
        let menu = matches!(self.state, LlmDialogState::Menu);
        if menu && key_is_char(key, '1') {
            return LlmKeyAction::RunSmartPick;
        }
        if menu && key_is_char(key, '2') {
            return LlmKeyAction::RunDigest;
        }
        if menu && key_is_char(key, '3') {
            self.kid_safe = !self.kid_safe;
            return LlmKeyAction::KidSafeToggled(self.kid_safe);
        }
        if matches!(self.state, LlmDialogState::Result(_)) || matches!(self.state, LlmDialogState::Error(_)) {
            self.state = LlmDialogState::Menu;
        }
        LlmKeyAction::Ignore
    }

    /// Starts a Smart Pick on the library's feeds (title, URL): without a
    /// runtime, or without feeds, the dialog shows an error and nothing is
    /// sent; otherwise the dialog waits and the request to send is returned.
    pub fn begin_smart_pick(&mut self, feeds: &[(&str, &str)]) -> (r: Option<ChatCall>)
        ensures
            old(self).runtime is None ==> r is None && error_text(final(self).state) == Some("LLM not configured"@),
            old(self).runtime is Some && feeds@.len() == 0 ==> r is None && error_text(final(self).state) == Some("No feeds to analyze. Add some feeds first."@),
            old(self).runtime is Some && feeds@.len() > 0 ==> r is Some && loading_label(final(self).state) == Some("Smart Pick"@),
            r matches Some(call) ==> call.messages@[1].content@ == crate::llm::smart_pick_user_prompt(feeds@, old(self).kid_safe)
                && call.url@ == crate::llm::completions_url_of(old(self).runtime->Some_0.api_url@),
            final(self).runtime == old(self).runtime,
            final(self).kid_safe == old(self).kid_safe,
    {
        match &self.runtime {
            None => {
                self.state = LlmDialogState::Error(String::from_str("LLM not configured"));
                None
            },
            Some(runtime) => {
                if feeds.len() == 0 {
                    self.state = LlmDialogState::Error(String::from_str("No feeds to analyze. Add some feeds first."));
                    return None;
                }
                let call = smart_pick(runtime, self.kid_safe, feeds);
                self.state = LlmDialogState::Loading(String::from_str("Smart Pick"));
                Some(call)
            },
        }
    }

    /// Starts a Daily Digest of the articles (title, category, preview):
    /// without a runtime, or without articles, the dialog shows an error and
    /// nothing is sent; otherwise the dialog waits and the request to send is
    /// returned.
    pub fn begin_digest(&mut self, articles: &[(&str, &str, &str)]) -> (r: Option<ChatCall>)
        ensures
            old(self).runtime is None ==> r is None && error_text(final(self).state) == Some("LLM not configured"@),
            old(self).runtime is Some && articles@.len() == 0 ==> r is None && error_text(final(self).state) == Some("No unread articles to summarize."@),
            old(self).runtime is Some && articles@.len() > 0 ==> r is Some && loading_label(final(self).state) == Some("Daily Digest"@),
            r matches Some(call) ==> call.messages@[1].content@ == crate::llm::digest_user_prompt(articles@, old(self).kid_safe)
                && call.url@ == crate::llm::completions_url_of(old(self).runtime->Some_0.api_url@),
            final(self).runtime == old(self).runtime,
            final(self).kid_safe == old(self).kid_safe,
    {
        match &self.runtime {
            None => {
                self.state = LlmDialogState::Error(String::from_str("LLM not configured"));
                None
            },
            Some(runtime) => {
                if articles.len() == 0 {
                    self.state = LlmDialogState::Error(String::from_str("No unread articles to summarize."));
                    return None;
                }
                let call = generate_digest(runtime, articles, self.kid_safe);
                self.state = LlmDialogState::Loading(String::from_str("Daily Digest"));
                Some(call)
            },
        }
    }

    /// Starts a Smart Pick on the library's feeds (see `begin_smart_pick`):
    /// the (title, URL) of every feed, category by category.
    pub fn start_smart_pick<D: LibraryStore, U: UpdateProgress>(&mut self, library: &FeedLibrary<D, U>) -> (r: Option<
        ChatCall,
    >)
        ensures
            ({
                let feeds = library_feed_views(library.feedcategories@);
                &&& old(self).runtime is None ==> r is None && error_text(final(self).state) == Some(
                    "LLM not configured"@,
                )
                &&& old(self).runtime is Some && feeds.len() == 0 ==> r is None && error_text(final(self).state)
                    == Some("No feeds to analyze. Add some feeds first."@)
                &&& old(self).runtime is Some && feeds.len() > 0 ==> r is Some && loading_label(final(self).state)
                    == Some("Smart Pick"@)
                &&& r matches Some(call) ==> call.messages@[1].content@ == smart_pick_prompt_of(feeds, old(self).kid_safe)
                    && call.url@ == completions_url_of(old(self).runtime->Some_0.api_url@)
            }),
            final(self).runtime == old(self).runtime,
            final(self).kid_safe == old(self).kid_safe,
    {
        let cats = &library.feedcategories;
        let mut feeds: Vec<(&str, &str)> = Vec::new();
        let mut i: usize = 0;
        while i < cats.len()
            invariant
                i <= cats@.len(),
                feed_pair_views(feeds@) == library_feed_views(cats@.take(i as int)),
            decreases cats@.len() - i,
        {
            let cat = &cats[i];
            let ghost base = feeds@;
            let mut j: usize = 0;
            while j < cat.feeds.len()
                invariant
                    j <= cat.feeds@.len(),
                    feeds@.len() == base.len() + j,
                    feeds@.take(base.len() as int) == base,
                    feed_pair_views(feeds@) == feed_pair_views(base) + cat.feeds@.take(j as int).map_values(
                        |f: FeedItem| (f.title@, f.feed_url@),
                    ),
                decreases cat.feeds@.len() - j,
            {
                let f = &cat.feeds[j];
                let ghost old_feeds = feeds@;
                feeds.push((f.title.as_str(), f.feed_url.as_str()));
                assert(feed_pair_views(feeds@) =~= feed_pair_views(old_feeds).push((f.title@, f.feed_url@)));
                assert(cat.feeds@.take(j + 1).map_values(|f: FeedItem| (f.title@, f.feed_url@)) =~= cat.feeds@.take(
                    j as int,
                ).map_values(|f: FeedItem| (f.title@, f.feed_url@)).push((f.title@, f.feed_url@)));
                assert(feed_pair_views(feeds@) =~= feed_pair_views(base) + cat.feeds@.take(j + 1).map_values(
                    |f: FeedItem| (f.title@, f.feed_url@),
                ));
                assert(feeds@.take(base.len() as int) =~= base);
                j = j + 1;
            }
            assert(cat.feeds@.take(j as int) =~= cat.feeds@);
            assert(cats@.take(i + 1).drop_last() =~= cats@.take(i as int));
            i = i + 1;
        }
        assert(cats@.take(i as int) =~= cats@);
        proof {
            lemma_smart_pick_prompt_of(feeds@, self.kid_safe);
        }
        self.begin_smart_pick(feeds.as_slice())
    }

    /// Starts a Daily Digest of the library (see `begin_digest`): the
    /// unread articles among the first five entries of every feed whose
    /// entries the store loads, feed by feed (see `digest_sources`).
    pub fn start_digest<D: LibraryStore, U: UpdateProgress>(&mut self, library: &FeedLibrary<D, U>) -> (r: Option<
        ChatCall,
    >)
        ensures
            ({
                let articles = digest_views(digest_sources(library.data, library.feedcategories@));
                &&& old(self).runtime is None ==> r is None && error_text(final(self).state) == Some(
                    "LLM not configured"@,
                )
                &&& old(self).runtime is Some && articles.len() == 0 ==> r is None && error_text(final(self).state)
                    == Some("No unread articles to summarize."@)
                &&& old(self).runtime is Some && articles.len() > 0 ==> r is Some && loading_label(final(self).state)
                    == Some("Daily Digest"@)
                &&& r matches Some(call) ==> call.messages@[1].content@ == digest_prompt_of(articles, old(self).kid_safe)
                    && call.url@ == completions_url_of(old(self).runtime->Some_0.api_url@)
            }),
            final(self).runtime == old(self).runtime,
            final(self).kid_safe == old(self).kid_safe,
    {
        let cats = &library.feedcategories;
        let mut sources: Vec<(String, Vec<FeedEntry>)> = Vec::new();
        let mut i: usize = 0;
        while i < cats.len()
            invariant
                i <= cats@.len(),
                source_views(sources@) == digest_sources(library.data, cats@.take(i as int)),
            decreases cats@.len() - i,
        {
            let cat = &cats[i];
            let ghost base = source_views(sources@);
            let mut j: usize = 0;
            while j < cat.feeds.len()
                invariant
                    j <= cat.feeds@.len(),
                    base == digest_sources(library.data, cats@.take(i as int)),
                    source_views(sources@) == base + feed_sources(library.data, cat.title@, cat.feeds@.take(j as int)),
                decreases cat.feeds@.len() - j,
            {
                let ghost before = sources@;
                assert(cat.feeds@.take(j + 1).drop_last() =~= cat.feeds@.take(j as int));
                match library.data.load_feed_entries(cat, &cat.feeds[j]) {
                    Ok(entries) => {
                        sources.push((cat.title.clone(), entries));
                        assert(source_views(sources@) =~= source_views(before).push(
                            (cat.title@, library.data.feed_entries(cat.title@, cat.feeds@[j as int].slug@)),
                        ));
                    },
                    Err(_) => {},
                }
                assert(source_views(sources@) =~= base + feed_sources(library.data, cat.title@, cat.feeds@.take(j + 1)));
                j = j + 1;
            }
            assert(cat.feeds@.take(j as int) =~= cat.feeds@);
            assert(cats@.take(i + 1).drop_last() =~= cats@.take(i as int));
            i = i + 1;
        }
        assert(cats@.take(i as int) =~= cats@);
        let articles = collect_digest_articles(&sources);
        proof {
            lemma_digest_articles_of_views(sources@);
        }
        let mut refs: Vec<(&str, &str, &str)> = Vec::new();
        let mut k: usize = 0;
        while k < articles.len()
            invariant
                k <= articles@.len(),
                article_views(refs@) == triples_view(articles@).take(k as int),
            decreases articles@.len() - k,
        {
            let a = &articles[k];
            let ghost before = refs@;
            refs.push((a.0.as_str(), a.1.as_str(), a.2.as_str()));
            assert(article_views(refs@) =~= article_views(before).push((a.0@, a.1@, a.2@)));
            assert(triples_view(articles@).take(k + 1) =~= triples_view(articles@).take(k as int).push(
                (a.0@, a.1@, a.2@),
            ));
            k = k + 1;
        }
        assert(triples_view(articles@).take(k as int) =~= triples_view(articles@));
        proof {
            lemma_digest_prompt_of(refs@, self.kid_safe);
        }
        self.begin_digest(refs.as_slice())
    }

    /// Shows the outcome of a Smart Pick: the answer, or "Smart Pick
    /// failed: " and the failure.
    pub fn finish_smart_pick(&mut self, outcome: Result<String, String>)
        ensures
            outcome matches Ok(text) ==> final(self).state == LlmDialogState::Result(text),
            outcome matches Err(e) ==> error_text(final(self).state) == Some("Smart Pick failed: "@ + e@),
            final(self).runtime == old(self).runtime,
            final(self).kid_safe == old(self).kid_safe,
    {
        self.finish_request(outcome, "Smart Pick failed: ")
    }

    /// Shows the outcome of a Daily Digest: the answer, or "Digest failed: "
    /// and the failure.
    pub fn finish_digest(&mut self, outcome: Result<String, String>)
        ensures
            outcome matches Ok(text) ==> final(self).state == LlmDialogState::Result(text),
            outcome matches Err(e) ==> error_text(final(self).state) == Some("Digest failed: "@ + e@),
            final(self).runtime == old(self).runtime,
            final(self).kid_safe == old(self).kid_safe,
    {
        self.finish_request(outcome, "Digest failed: ")
    }

    /// Shows the outcome of a request: the answer, or the failure prefixed
    /// with `prefix` (such as "Smart Pick failed: ").
    pub fn finish_request(&mut self, outcome: Result<String, String>, prefix: &str)
        ensures
            outcome matches Ok(text) ==> final(self).state == LlmDialogState::Result(text),
            outcome matches Err(e) ==> error_text(final(self).state) == Some(prefix@ + e@),
            final(self).runtime == old(self).runtime,
            final(self).kid_safe == old(self).kid_safe,
    {
        match outcome {
            Ok(text) => { self.state = LlmDialogState::Result(text); },
            Err(e) => { self.state = LlmDialogState::Error(concat2(prefix, e.as_str())); },
        }
    }
}

/// The lifecycle of the dialog: showing, covering, uncovering and closing it
/// changes nothing, and it reports no background work (a request runs in the foreground).
impl AppScreen for LlmDialog {
    open spec fn started(self) -> Self {
        self
    }

    open spec fn paused(self) -> Self {
        self
    }

    open spec fn unpaused(self) -> Self {
        self
    }

    fn start(&mut self) {
    }

    fn pause(&mut self) {
    }

    fn unpause(&mut self) {
    }

    fn quit(&mut self) {
    }

    open spec fn work_status_spec(&self) -> AppWorkStatus {
        AppWorkStatus::Idle
    }

    fn get_work_status(&self) -> (r: AppWorkStatus) {
        AppWorkStatus::Idle
    }
}

} // verus!
