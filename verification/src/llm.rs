//! The LLM integration: the runtime settings, the chat requests of Smart
//! Pick and Daily Digest, and the reading of a chat response.
use vstd::prelude::*;
use crate::config::LlmConfig;
use crate::text::{trim_end_char, trim_end_matches_char};

verus! {

/// Runtime configuration for the LLM client.
pub struct LlmRuntime {
    pub api_url: String,
    pub api_key: String,
    pub model: String,
}

/// A single message in the chat conversation.
pub struct ChatMessage {
    pub role: String,
    pub content: String,
}

/// Response from /v1/chat/completions.
pub struct ChatResponse {
    pub choices: Vec<Choice>,
}

pub struct Choice {
    pub message: ChatResponseMessage,
}

pub struct ChatResponseMessage {
    pub content: String,
}

/// Everything of a chat-completion call but its sampling temperature
/// (0.7, a float the caller adds): where to post, with which key, and the
/// request's model, messages and token limit.
pub struct ChatCall {
    pub url: String,
    pub api_key: String,
    pub model: String,
    pub messages: Vec<ChatMessage>,
    pub max_tokens: u32,
}

pub open spec fn default_api_url() -> Seq<char> {
    "https://api.deepseek.com"@
}

pub open spec fn default_model() -> Seq<char> {
    "deepseek-chat"@
}

/// Whether `rt` is the runtime of a configuration with an API key: that
/// key, the configured URL and model, or the DeepSeek endpoint and model
/// when none is configured.
pub open spec fn is_runtime_of(rt: LlmRuntime, cfg: LlmConfig) -> bool {
    &&& cfg.api_key == Some(rt.api_key)
    &&& rt.api_url@ == match cfg.api_url {
        Some(u) => u@,
        None => default_api_url(),
    }
    &&& rt.model@ == match cfg.model {
        Some(m) => m@,
        None => default_model(),
    }
}

impl LlmRuntime {
    /// The runtime of a configuration that has an API key, with the
    /// DeepSeek endpoint and model as defaults; `None` without a key.
    pub fn from_config(cfg: &LlmConfig) -> (r: Option<LlmRuntime>)
        ensures
            cfg.api_key is None ==> r is None,
            cfg.api_key is Some ==> (r matches Some(rt) && is_runtime_of(rt, *cfg)),
    {
        let api_key = match &cfg.api_key {
            Some(k) => k.clone(),
            None => return None,
        };
        let api_url = match &cfg.api_url {
            Some(u) => u.clone(),
            None => String::from_str("https://api.deepseek.com"),
        };
        let model = match &cfg.model {
            Some(m) => m.clone(),
            None => String::from_str("deepseek-chat"),
        };
        Some(LlmRuntime { api_url, api_key, model })
    }
}

/// The chat-completions endpoint of an API URL.
pub open spec fn completions_url_of(api_url: Seq<char>) -> Seq<char> {
    trim_end_char(api_url, '/') + "/v1/chat/completions"@
}

/// The chat-completions endpoint of the runtime's API URL (trailing slashes
/// of the URL dropped).
pub fn completions_url(runtime: &LlmRuntime) -> (r: String)
    ensures
        r@ == completions_url_of(runtime.api_url@),
{
    let mut url = trim_end_matches_char(runtime.api_url.as_str(), '/');
    url.append("/v1/chat/completions");
    url
}

/// A system message followed by a user message.
pub fn chat_messages(system_prompt: &str, user_prompt: &str) -> (r: Vec<ChatMessage>)
    ensures
        r@.len() == 2,
        r@[0].role@ == "system"@,
        r@[0].content@ == system_prompt@,
        r@[1].role@ == "user"@,
        r@[1].content@ == user_prompt@,
{
    let mut v: Vec<ChatMessage> = Vec::new();
    v.push(ChatMessage { role: String::from_str("system"), content: String::from_str(system_prompt) });
    v.push(ChatMessage { role: String::from_str("user"), content: String::from_str(user_prompt) });
    v
}

/// The call that asks the runtime's model to answer `user_prompt` under
/// `system_prompt`, with at most 2048 tokens.
pub fn chat_call(runtime: &LlmRuntime, system_prompt: &str, user_prompt: &str) -> (r: ChatCall)
    ensures
        r.url@ == completions_url_of(runtime.api_url@),
        r.api_key == runtime.api_key,
        r.model == runtime.model,
        r.max_tokens == 2048,
        r.messages@.len() == 2,
        r.messages@[0].role@ == "system"@,
        r.messages@[0].content@ == system_prompt@,
        r.messages@[1].role@ == "user"@,
        r.messages@[1].content@ == user_prompt@,
{
    ChatCall {
        url: completions_url(runtime),
        api_key: runtime.api_key.clone(),
        model: runtime.model.clone(),
        messages: chat_messages(system_prompt, user_prompt),
        max_tokens: 2048,
    }
}

impl ChatResponse {
    /// The text of the first choice, empty when there is none.
    pub fn first_content(&self) -> (r: String)
        ensures
            self.choices@.len() > 0 ==> r == self.choices@[0].message.content,
            self.choices@.len() == 0 ==> r@.len() == 0,
    {
        if self.choices.len() > 0 {
            self.choices[0].message.content.clone()
        } else {
            String::new()
        }
    }
}

/// The lines joined with a line break between each two.
pub open spec fn join_lines(lines: Seq<Seq<char>>) -> Seq<char>
    decreases lines.len(),
{
    if lines.len() == 0 {
        Seq::empty()
    } else if lines.len() == 1 {
        lines[0]
    } else {
        join_lines(lines.drop_last()) + "\n"@ + lines.last()
    }
}

/// The line that lists a feed for Smart Pick.
pub open spec fn feed_line(title: Seq<char>, url: Seq<char>) -> Seq<char> {
    "- "@ + title + " ("@ + url + ")"@
}

/// The lines of all feeds for Smart Pick.
pub open spec fn feed_lines(feeds: Seq<(&str, &str)>) -> Seq<Seq<char>> {
    feeds.map_values(|f: (&str, &str)| feed_line(f.0@, f.1@))
}

pub open spec fn smart_pick_system_prompt() -> Seq<char> {
    "You are a feed curator. Given existing subscriptions, suggest 3-5 new high-quality RSS feeds. Return ONLY one feed per line: Title | url | Category"@
}

pub open spec fn smart_pick_user_prompt(feeds: Seq<(&str, &str)>, kid_safe: bool) -> Seq<char> {
    "Current feeds:\n"@ + join_lines(feed_lines(feeds)) + "\n\nSuggest complementary feeds."@ + (if kid_safe {
        " IMPORTANT: child-safe content only."@
    } else {
        ""@
    })
}

/// The line that lists an article for the Daily Digest.
pub open spec fn article_line(title: Seq<char>, category: Seq<char>, preview: Seq<char>) -> Seq<char> {
    "["@ + category + "] "@ + title + " \u{2014} "@ + preview
}

/// The lines of all articles for the Daily Digest.
pub open spec fn article_lines(articles: Seq<(&str, &str, &str)>) -> Seq<Seq<char>> {
    articles.map_values(|a: (&str, &str, &str)| article_line(a.0@, a.1@, a.2@))
}

pub open spec fn digest_system_prompt() -> Seq<char> {
    "You are a family briefing assistant. Summarize articles concisely. Group by category. Keep it brief."@
}

pub open spec fn digest_user_prompt(articles: Seq<(&str, &str, &str)>, kid_safe: bool) -> Seq<char> {
    "Articles:\n"@ + join_lines(article_lines(articles))
        + "\n\nProduce: 1) overview, 2) key items by category, 3) top 3 to read."@ + (if kid_safe {
        "\nOmit mature content."@
    } else {
        ""@
    })
}

/// The (title, URL) pairs as character sequences.
pub open spec fn feed_pair_views(feeds: Seq<(&str, &str)>) -> Seq<(Seq<char>, Seq<char>)> {
    feeds.map_values(|f: (&str, &str)| (f.0@, f.1@))
}

/// The Smart Pick prompt for feeds given by their (title, URL) texts.
pub open spec fn smart_pick_prompt_of(feeds: Seq<(Seq<char>, Seq<char>)>, kid_safe: bool) -> Seq<char> {
    "Current feeds:\n"@ + join_lines(feeds.map_values(|f: (Seq<char>, Seq<char>)| feed_line(f.0, f.1)))
        + "\n\nSuggest complementary feeds."@ + (if kid_safe {
        " IMPORTANT: child-safe content only."@
    } else {
        ""@
    })
}

/// The Smart Pick prompt depends on the feeds' texts only.
pub proof fn lemma_smart_pick_prompt_of(feeds: Seq<(&str, &str)>, kid_safe: bool)
    ensures
        smart_pick_user_prompt(feeds, kid_safe) == smart_pick_prompt_of(feed_pair_views(feeds), kid_safe),
{
    assert(feed_lines(feeds) =~= feed_pair_views(feeds).map_values(
        |f: (Seq<char>, Seq<char>)| feed_line(f.0, f.1),
    ));
}

/// The (title, category, preview) triples as character sequences.
pub open spec fn article_views(articles: Seq<(&str, &str, &str)>) -> Seq<(Seq<char>, Seq<char>, Seq<char>)> {
    articles.map_values(|a: (&str, &str, &str)| (a.0@, a.1@, a.2@))
}

/// The Daily Digest prompt for articles given by their texts.
pub open spec fn digest_prompt_of(articles: Seq<(Seq<char>, Seq<char>, Seq<char>)>, kid_safe: bool) -> Seq<char> {
    "Articles:\n"@ + join_lines(
        articles.map_values(|a: (Seq<char>, Seq<char>, Seq<char>)| article_line(a.0, a.1, a.2)),
    ) + "\n\nProduce: 1) overview, 2) key items by category, 3) top 3 to read."@ + (if kid_safe {
        "\nOmit mature content."@
    } else {
        ""@
    })
}

/// The Daily Digest prompt depends on the articles' texts only.
pub proof fn lemma_digest_prompt_of(articles: Seq<(&str, &str, &str)>, kid_safe: bool)
    ensures
        digest_user_prompt(articles, kid_safe) == digest_prompt_of(article_views(articles), kid_safe),
{
    assert(article_lines(articles) =~= article_views(articles).map_values(
        |a: (Seq<char>, Seq<char>, Seq<char>)| article_line(a.0, a.1, a.2),
    ));
}

/// The kid-safe filter of the Daily Digest adds one line at the end of the
/// request and nothing else: with the filter on, the request is the one
/// without it followed by "\nOmit mature content."; without it, the request
/// opens with the article list and ends with the instructions.
pub proof fn lemma_digest_kid_safe_line(articles: Seq<(&str, &str, &str)>)
    ensures
        digest_user_prompt(articles, true) == digest_user_prompt(articles, false) + "\nOmit mature content."@,
        "Articles:\n"@.is_prefix_of(digest_user_prompt(articles, false)),
        "\n\nProduce: 1) overview, 2) key items by category, 3) top 3 to read."@.is_suffix_of(
            digest_user_prompt(articles, false),
        ),
        digest_prompt_of(article_views(articles), true) == digest_prompt_of(article_views(articles), false)
            + "\nOmit mature content."@,
        digest_prompt_of(article_views(articles), false) == digest_user_prompt(articles, false),
{
    reveal_strlit("");
    let head = "Articles:\n"@;
    let body = join_lines(article_lines(articles));
    let tail = "\n\nProduce: 1) overview, 2) key items by category, 3) top 3 to read."@;
    let p = digest_user_prompt(articles, false);
    assert(p =~= head + body + tail);
    assert(digest_user_prompt(articles, true) =~= p + "\nOmit mature content."@);
    assert(head =~= p.subrange(0, head.len() as int));
    assert(tail =~= p.subrange((p.len() - tail.len()) as int, p.len() as int));
    lemma_digest_prompt_of(articles, true);
    lemma_digest_prompt_of(articles, false);
}

/// Each article of the Daily Digest is listed on a line of its own, as
/// `[category] title — preview`, in the given order, between the
/// "Articles:" heading and the instructions.
pub proof fn lemma_digest_lists_articles(x: (&str, &str, &str), y: (&str, &str, &str))
    ensures
        digest_user_prompt(seq![x], false) == "Articles:\n["@ + x.1@ + "] "@ + x.0@ + " \u{2014} "@ + x.2@
            + "\n\nProduce: 1) overview, 2) key items by category, 3) top 3 to read."@,
        digest_user_prompt(seq![x, y], false) == "Articles:\n["@ + x.1@ + "] "@ + x.0@ + " \u{2014} "@ + x.2@
            + "\n["@ + y.1@ + "] "@ + y.0@ + " \u{2014} "@ + y.2@
            + "\n\nProduce: 1) overview, 2) key items by category, 3) top 3 to read."@,
{
    reveal_strlit("");
    reveal_strlit("Articles:\n");
    reveal_strlit("Articles:\n[");
    reveal_strlit("[");
    reveal_strlit("\n");
    reveal_strlit("\n[");
    let one = article_lines(seq![x]);
    assert(one =~= seq![article_line(x.0@, x.1@, x.2@)]);
    let two = article_lines(seq![x, y]);
    assert(two =~= seq![article_line(x.0@, x.1@, x.2@), article_line(y.0@, y.1@, y.2@)]);
    assert(two.drop_last() =~= seq![article_line(x.0@, x.1@, x.2@)]);
    assert(digest_user_prompt(seq![x], false) =~= "Articles:\n["@ + x.1@ + "] "@ + x.0@ + " \u{2014} "@ + x.2@
        + "\n\nProduce: 1) overview, 2) key items by category, 3) top 3 to read."@);
    assert(digest_user_prompt(seq![x, y], false) =~= "Articles:\n["@ + x.1@ + "] "@ + x.0@ + " \u{2014} "@ + x.2@
        + "\n["@ + y.1@ + "] "@ + y.0@ + " \u{2014} "@ + y.2@
        + "\n\nProduce: 1) overview, 2) key items by category, 3) top 3 to read."@);
}

/// Each feed of Smart Pick is listed on a line of its own, as
/// `- title (url)`, in the given order, between the "Current feeds:"
/// heading and the ask.
pub proof fn lemma_smart_pick_lists_feeds(x: (&str, &str), y: (&str, &str))
    ensures
        smart_pick_user_prompt(seq![x], false) == "Current feeds:\n- "@ + x.0@ + " ("@ + x.1@ + ")"@
            + "\n\nSuggest complementary feeds."@,
        smart_pick_user_prompt(seq![x, y], false) == "Current feeds:\n- "@ + x.0@ + " ("@ + x.1@ + ")"@ + "\n- "@
            + y.0@ + " ("@ + y.1@ + ")"@ + "\n\nSuggest complementary feeds."@,
{
    reveal_strlit("");
    reveal_strlit("Current feeds:\n");
    reveal_strlit("Current feeds:\n- ");
    reveal_strlit("- ");
    reveal_strlit("\n");
    reveal_strlit("\n- ");
    let one = feed_lines(seq![x]);
    assert(one =~= seq![feed_line(x.0@, x.1@)]);
    let two = feed_lines(seq![x, y]);
    assert(two =~= seq![feed_line(x.0@, x.1@), feed_line(y.0@, y.1@)]);
    assert(two.drop_last() =~= seq![feed_line(x.0@, x.1@)]);
    assert(smart_pick_user_prompt(seq![x], false) =~= "Current feeds:\n- "@ + x.0@ + " ("@ + x.1@ + ")"@
        + "\n\nSuggest complementary feeds."@);
    assert(smart_pick_user_prompt(seq![x, y], false) =~= "Current feeds:\n- "@ + x.0@ + " ("@ + x.1@ + ")"@
        + "\n- "@ + y.0@ + " ("@ + y.1@ + ")"@ + "\n\nSuggest complementary feeds."@);
}

/// The kid-safe filter of Smart Pick adds one sentence at the end of the
/// request and nothing else: with the filter on, the request is the one
/// without it followed by " IMPORTANT: child-safe content only."; without
/// it, the request opens with the feed list and ends with the ask.
pub proof fn lemma_smart_pick_kid_safe_line(feeds: Seq<(&str, &str)>)
    ensures
        smart_pick_user_prompt(feeds, true) == smart_pick_user_prompt(feeds, false)
            + " IMPORTANT: child-safe content only."@,
        "Current feeds:\n"@.is_prefix_of(smart_pick_user_prompt(feeds, false)),
        "\n\nSuggest complementary feeds."@.is_suffix_of(smart_pick_user_prompt(feeds, false)),
        smart_pick_prompt_of(feed_pair_views(feeds), true) == smart_pick_prompt_of(feed_pair_views(feeds), false)
            + " IMPORTANT: child-safe content only."@,
        smart_pick_prompt_of(feed_pair_views(feeds), false) == smart_pick_user_prompt(feeds, false),
{
    reveal_strlit("");
    let head = "Current feeds:\n"@;
    let body = join_lines(feed_lines(feeds));
    let tail = "\n\nSuggest complementary feeds."@;
    let p = smart_pick_user_prompt(feeds, false);
    assert(p =~= head + body + tail);
    assert(smart_pick_user_prompt(feeds, true) =~= p + " IMPORTANT: child-safe content only."@);
    assert(head =~= p.subrange(0, head.len() as int));
    assert(tail =~= p.subrange((p.len() - tail.len()) as int, p.len() as int));
    lemma_smart_pick_prompt_of(feeds, true);
    lemma_smart_pick_prompt_of(feeds, false);
}

/// The feeds listed one per line, as `- title (url)`.
fn feed_list(feeds: &[(&str, &str)]) -> (r: String)
    ensures
        r@ == join_lines(feed_lines(feeds@)),
{
    let mut out = String::new();
    let mut i: usize = 0;
    while i < feeds.len()
        invariant
            i <= feeds@.len(),
            out@ == join_lines(feed_lines(feeds@.take(i as int))),
        decreases feeds@.len() - i,
    {
        let (title, url) = feeds[i];
        if i > 0 {
            out.append("\n");
        }
        out.append("- ");
        out.append(title);
        out.append(" (");
        out.append(url);
        out.append(")");
        proof {
            let prev = feed_lines(feeds@.take(i as int));
            let next = feed_lines(feeds@.take(i + 1));
            assert(next.drop_last() =~= prev);
            assert(next.last() == feed_line(title@, url@));
            if i == 0 {
                assert(prev.len() == 0);
            }
        }
        i = i + 1;
    }
    assert(feeds@.take(i as int) =~= feeds@);
    out
}

/// The articles listed one per line, as `[category] title — preview`.
fn article_list(articles: &[(&str, &str, &str)]) -> (r: String)
    ensures
        r@ == join_lines(article_lines(articles@)),
{
    let mut out = String::new();
    let mut i: usize = 0;
    while i < articles.len()
        invariant
            i <= articles@.len(),
            out@ == join_lines(article_lines(articles@.take(i as int))),
        decreases articles@.len() - i,
    {
        let (title, category, preview) = articles[i];
        if i > 0 {
            out.append("\n");
        }
        out.append("[");
        out.append(category);
        out.append("] ");
        out.append(title);
        out.append(" \u{2014} ");
        out.append(preview);
        proof {
            let prev = article_lines(articles@.take(i as int));
            let next = article_lines(articles@.take(i + 1));
            assert(next.drop_last() =~= prev);
            assert(next.last() == article_line(title@, category@, preview@));
            if i == 0 {
                assert(prev.len() == 0);
            }
        }
        i = i + 1;
    }
    assert(articles@.take(i as int) =~= articles@);
    out
}

/// The Smart Pick request: suggest new feeds that complement the existing
/// ones (title, URL), child-safe ones only when asked.
pub fn smart_pick(runtime: &LlmRuntime, kid_safe: bool, existing_feeds: &[(&str, &str)]) -> (r: ChatCall)
    ensures
        r.url@ == completions_url_of(runtime.api_url@),
        r.api_key == runtime.api_key,
        r.model == runtime.model,
        r.max_tokens == 2048,
        r.messages@.len() == 2,
        r.messages@[0].role@ == "system"@,
        r.messages@[0].content@ == smart_pick_system_prompt(),
        r.messages@[1].role@ == "user"@,
        r.messages@[1].content@ == smart_pick_user_prompt(existing_feeds@, kid_safe),
{
    let list = feed_list(existing_feeds);
    let mut user = String::from_str("Current feeds:\n");
    user.append(list.as_str());
    user.append("\n\nSuggest complementary feeds.");
    if kid_safe {
        user.append(" IMPORTANT: child-safe content only.");
    } else {
        user.append("");
    }
    chat_call(
        runtime,
        "You are a feed curator. Given existing subscriptions, suggest 3-5 new high-quality RSS feeds. Return ONLY one feed per line: Title | url | Category",
        user.as_str(),
    )
}

/// The Daily Digest request: summarize the articles (title, category,
/// preview) by category, omitting mature content when asked.
pub fn generate_digest(runtime: &LlmRuntime, articles: &[(&str, &str, &str)], kid_safe: bool) -> (r: ChatCall)
    ensures
        r.url@ == completions_url_of(runtime.api_url@),
        r.api_key == runtime.api_key,
        r.model == runtime.model,
        r.max_tokens == 2048,
        r.messages@.len() == 2,
        r.messages@[0].role@ == "system"@,
        r.messages@[0].content@ == digest_system_prompt(),
        r.messages@[1].role@ == "user"@,
        r.messages@[1].content@ == digest_user_prompt(articles@, kid_safe),
{
    let list = article_list(articles);
    let mut user = String::from_str("Articles:\n");
    user.append(list.as_str());
    user.append("\n\nProduce: 1) overview, 2) key items by category, 3) top 3 to read.");
    if kid_safe {
        user.append("\nOmit mature content.");
    } else {
        user.append("");
    }
    chat_call(
        runtime,
        "You are a family briefing assistant. Summarize articles concisely. Group by category. Keep it brief.",
        user.as_str(),
    )
}

} // verus!
