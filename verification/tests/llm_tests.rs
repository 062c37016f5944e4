use vreader::app::AppScreen;
use vreader::config::LlmConfig;
use vreader::keys::{KeyCode, KeyPress};
use vreader::library::FeedEntry;
use vreader::llm::{
    chat_messages, completions_url, generate_digest, smart_pick, ChatResponse, ChatResponseMessage, Choice, LlmRuntime,
};
use vreader::llmdialog::{collect_digest_articles, kid_safe_message, preview, LlmDialog, LlmDialogState, LlmKeyAction};

fn cfg(api_key: Option<&str>, api_url: Option<&str>, model: Option<&str>, kid_safe: bool) -> LlmConfig {
    LlmConfig {
        provider: "deepseek".to_string(),
        api_url: api_url.map(|s| s.to_string()),
        api_key: api_key.map(|s| s.to_string()),
        model: model.map(|s| s.to_string()),
        kid_safe_filter: kid_safe,
    }
}

fn key(c: char) -> KeyPress {
    KeyPress { control: false, code: KeyCode::Char(c) }
}

#[test]
fn runtime_needs_a_key() {
    assert!(LlmRuntime::from_config(&cfg(None, None, None, false)).is_none());
    let rt = LlmRuntime::from_config(&cfg(Some("k"), None, None, false)).unwrap();
    assert_eq!(rt.api_url, "https://api.deepseek.com");
    assert_eq!(rt.model, "deepseek-chat");
    assert_eq!(rt.api_key, "k");
    let rt = LlmRuntime::from_config(&cfg(Some("k"), Some("http://local:11434/"), Some("llama"), false)).unwrap();
    assert_eq!(rt.model, "llama");
    assert_eq!(completions_url(&rt), "http://local:11434/v1/chat/completions");
}

#[test]
fn smart_pick_prompt() {
    let rt = LlmRuntime::from_config(&cfg(Some("k"), None, None, false)).unwrap();
    let call = smart_pick(&rt, true, &[("A", "http://a"), ("B", "http://b")]);
    assert_eq!(call.url, "https://api.deepseek.com/v1/chat/completions");
    assert_eq!(call.max_tokens, 2048);
    assert_eq!(call.messages[0].role, "system");
    assert_eq!(
        call.messages[0].content,
        "You are a feed curator. Given existing subscriptions, suggest 3-5 new high-quality RSS feeds. Return ONLY one feed per line: Title | url | Category"
    );
    assert_eq!(call.messages[1].role, "user");
    assert_eq!(
        call.messages[1].content,
        "Current feeds:\n- A (http://a)\n- B (http://b)\n\nSuggest complementary feeds. IMPORTANT: child-safe content only."
    );
    let call = smart_pick(&rt, false, &[]);
    assert_eq!(call.messages[1].content, "Current feeds:\n\n\nSuggest complementary feeds.");
}

#[test]
fn digest_prompt() {
    let rt = LlmRuntime::from_config(&cfg(Some("k"), None, None, false)).unwrap();
    let call = generate_digest(&rt, &[("T1", "News", "P1"), ("T2", "Tech", "P2")], true);
    assert_eq!(
        call.messages[1].content,
        "Articles:\n[News] T1 \u{2014} P1\n[Tech] T2 \u{2014} P2\n\nProduce: 1) overview, 2) key items by category, 3) top 3 to read.\nOmit mature content."
    );
    assert_eq!(
        call.messages[0].content,
        "You are a family briefing assistant. Summarize articles concisely. Group by category. Keep it brief."
    );
    let msgs = chat_messages("s", "u");
    assert_eq!(msgs.len(), 2);
}

#[test]
fn response_content() {
    let empty = ChatResponse { choices: vec![] };
    assert_eq!(empty.first_content(), "");
    let r = ChatResponse {
        choices: vec![
            Choice { message: ChatResponseMessage { content: "first".to_string() } },
            Choice { message: ChatResponseMessage { content: "second".to_string() } },
        ],
    };
    assert_eq!(r.first_content(), "first");
}

#[test]
fn digest_articles_are_unread_among_first_five() {
    let mut entries: Vec<FeedEntry> = (0..7).map(|i| FeedEntry { title: format!("t{i}"), ..Default::default() }).collect();
    entries[1].seen = true;
    let long = "x".repeat(100);
    let feeds = vec![
        ("News".to_string(), entries),
        ("Tech".to_string(), vec![FeedEntry { title: long.clone(), ..Default::default() }]),
    ];
    let articles = collect_digest_articles(&feeds);
    let titles: Vec<&str> = articles.iter().map(|a| a.0.as_str()).collect();
    assert_eq!(titles, vec!["t0", "t2", "t3", "t4", long.as_str()]);
    assert_eq!(articles[0].1, "News");
    assert_eq!(articles[4].2, "x".repeat(80));
    assert_eq!(preview("short"), "short");
}

#[test]
fn dialog_states() {
    let mut d = LlmDialog::new(None);
    assert!(d.runtime.is_none());
    assert_eq!(d.get_size(), (45, 14));
    assert_eq!(d.get_title(), "AI Assistant");
    assert!(d.begin_smart_pick(&[("A", "u")]).is_none());
    assert!(matches!(&d.state, LlmDialogState::Error(m) if m == "LLM not configured"));
    assert_eq!(d.get_instructions(), "Press any key to return");
    assert!(d.handle_keypress(&key('x')) == LlmKeyAction::Ignore);
    assert!(matches!(d.state, LlmDialogState::Menu));

    let c = cfg(Some("k"), None, None, true);
    let mut d = LlmDialog::new(Some(&c));
    assert!(d.kid_safe);
    assert!(d.handle_keypress(&key('3')) == LlmKeyAction::KidSafeToggled(false));
    assert!(!d.kid_safe);
    assert_eq!(kid_safe_message(d.kid_safe), "Kid-safe filter: OFF");
    assert!(d.handle_keypress(&key('1')) == LlmKeyAction::RunSmartPick);
    assert!(d.begin_smart_pick(&[]).is_none());
    assert!(matches!(&d.state, LlmDialogState::Error(m) if m == "No feeds to analyze. Add some feeds first."));
    d.state = LlmDialogState::Menu;
    let call = d.begin_digest(&[("T", "C", "P")]);
    assert!(call.is_some());
    assert_eq!(d.get_title(), "\u{1F916} Daily Digest...");
    assert_eq!(d.get_size(), (40, 8));
    assert!(d.handle_keypress(&key('1')) == LlmKeyAction::Ignore);
    d.finish_request(Err("timeout".to_string()), "Digest failed: ");
    assert!(matches!(&d.state, LlmDialogState::Error(m) if m == "Digest failed: timeout"));
    d.finish_request(Ok("summary".to_string()), "Digest failed: ");
    assert!(matches!(&d.state, LlmDialogState::Result(m) if m == "summary"));
    assert!(d.handle_keypress(&KeyPress { control: false, code: KeyCode::Esc }) == LlmKeyAction::Close);
}

#[test]
fn llm_dialog_full_help() {
    let d = LlmDialog::new(None);
    assert!(d.get_work_status().is_none());
    let help = d.get_full_instructions();
    assert_eq!(help.categories.len(), 1);
    assert_eq!(help.categories[0].title, "AI Actions");
    let keys: Vec<&str> = help.categories[0].details.iter().map(|x| x.key.as_str()).collect();
    assert_eq!(keys, vec!["1", "2", "3"]);
}
