use vreader::app::AppScreen;
use vreader::config::VReaderRole;
use vreader::feedtree::FeedItemInfo;
use vreader::keys::{KeyCode, KeyPress};
use vreader::screens::{
    category_accent_slot, command_notice, entry_source, link_outcome, main_command, EntrySource, LinkOutcome, MainCommand,
    MainInputState, MainScreen, Spinner, UrlDialog,
};
use vreader::vchat::{
    agent_keys_from_seed_text,
    ensoul_request, ensoul_result, profile_sync_result, profile_update_request, EnsoulResponse, RpcResponse,
};

fn key(code: KeyCode) -> KeyPress {
    KeyPress { control: false, code }
}

#[test]
fn url_dialog() {
    let d = UrlDialog::new("https://example.com".to_string());
    assert_eq!(d.get_size(), (29, 7));
    assert_eq!(d.get_title(), "Couldn't open browser automatically");
    assert_eq!(d.get_instructions(), "Esc/q: close url");
    assert!(d.handle_keypress(&key(KeyCode::Esc)));
    assert!(d.handle_keypress(&KeyPress { control: true, code: KeyCode::Char('C') }));
    assert!(!d.handle_keypress(&key(KeyCode::Char('x'))));
}

#[test]
fn spinner_cycles() {
    let mut s = Spinner::default();
    assert_eq!(s.frame(), "\u{2598}");
    s.advance();
    assert_eq!(s.frame(), "\u{259D}");
    s.advance();
    s.advance();
    assert_eq!(s.frame(), "\u{2596}");
    s.advance();
    assert_eq!(s.frame(), "\u{2598}");
}

#[test]
fn main_screen_keys() {
    assert!(main_command(MainInputState::Menu, &key(KeyCode::Esc)) == MainCommand::ExitApp);
    assert!(main_command(MainInputState::Content, &key(KeyCode::Esc)) == MainCommand::FocusMenu);
    assert!(main_command(MainInputState::Content, &key(KeyCode::Char('q'))) == MainCommand::ExitApp);
    assert!(main_command(MainInputState::Menu, &key(KeyCode::Tab)) == MainCommand::FocusContent);
    assert!(main_command(MainInputState::Menu, &key(KeyCode::Char('L'))) == MainCommand::LlmDialog);
    assert!(main_command(MainInputState::Content, &key(KeyCode::Char('L'))) == MainCommand::ToggleReadLater);
    assert!(main_command(MainInputState::Content, &key(KeyCode::Enter)) == MainCommand::ReadEntry);
    assert!(main_command(MainInputState::Menu, &key(KeyCode::Char('x'))) == MainCommand::Ignore);

    let mut screen = MainScreen::new(VReaderRole::Kid, None);
    assert!(!screen.runs_updater());
    assert_eq!(screen.get_title(), "\u{1F476} Main");
    assert_eq!(screen.get_instructions(), "?: Help | j/k/\u{2193}/\u{2191}: move | n/p: category | Enter: select | Esc: quit");
    screen.inputstate = MainInputState::Content;
    assert_eq!(screen.get_instructions(), "?: Help | j/k/\u{2193}/\u{2191}: move | Enter: read | Esc: back");
    assert!(MainScreen::new(VReaderRole::Operator, None).runs_updater());
}

#[test]
fn mark_all_read_sources() {
    assert!(matches!(entry_source(Some(&FeedItemInfo::Category("News".to_string()))), EntrySource::Category(t) if t == "News"));
    assert!(matches!(
        entry_source(Some(&FeedItemInfo::Item("T".to_string(), "C".to_string(), "s".to_string()))),
        EntrySource::Feed(s) if s == "s"
    ));
    assert!(matches!(entry_source(Some(&FeedItemInfo::ReadLater)), EntrySource::ReadLater));
    assert!(matches!(entry_source(Some(&FeedItemInfo::Separator)), EntrySource::Nothing));
    assert!(matches!(entry_source(None), EntrySource::Nothing));
}

#[test]
fn category_accents() {
    assert_eq!(category_accent_slot("Science & Space"), 0x8);
    assert_eq!(category_accent_slot("Space"), 0x9);
    assert_eq!(category_accent_slot("World News"), 0xC);
    assert_eq!(category_accent_slot("Technology"), 0xD);
    assert_eq!(category_accent_slot("TechCrunch"), 0xD);
    assert_eq!(category_accent_slot("Arts"), 0xE);
    assert_eq!(category_accent_slot("General"), 0xF);
}

#[test]
fn vchat_replies() {
    let req = ensoul_request("reader", "vreader", "UABC", "me");
    assert_eq!(req.nkey_public, "UABC");
    let agent = EnsoulResponse {
        agent_nkey: "UABC".to_string(),
        name: "vreader".to_string(),
        template: "reader".to_string(),
        steward: "me".to_string(),
        tb_account_id: Some(7),
    };
    let ok = RpcResponse { status: "ok".to_string(), data: Some(agent), error: None };
    assert_eq!(ensoul_result(ok).unwrap().tb_account_id, Some(7));
    let failed: RpcResponse<EnsoulResponse> =
        RpcResponse { status: "error".to_string(), data: None, error: Some("taken".to_string()) };
    assert_eq!(ensoul_result(failed).err(), Some("ensoul failed: taken".to_string()));
    let empty: RpcResponse<EnsoulResponse> = RpcResponse { status: "ok".to_string(), data: None, error: None };
    assert_eq!(ensoul_result(empty).err(), Some("ensoul returned empty data".to_string()));
    let synced: RpcResponse<()> = RpcResponse { status: "ok".to_string(), data: None, error: None };
    assert!(profile_sync_result(&synced).is_ok());
    let refused: RpcResponse<()> = RpcResponse { status: "denied".to_string(), data: None, error: None };
    assert_eq!(profile_sync_result(&refused).err(), Some("Profile sync failed: ".to_string()));
    let p = profile_update_request("UABC", "soul".to_string(), "agent".to_string());
    assert_eq!(p.knowledge_md, "");
    assert_eq!(p.soul_md, "soul");
}

#[test]
fn links_open_with_the_hook_first() {
    match link_outcome("https://a.b".to_string(), true, false) {
        LinkOutcome::Notify(m) => assert_eq!(m, "Link opened externally with user hook"),
        LinkOutcome::ShowUrl(_) => panic!("the hook ran"),
    }
    match link_outcome("https://a.b".to_string(), false, true) {
        LinkOutcome::Notify(m) => assert_eq!(m, "Link opened externally"),
        LinkOutcome::ShowUrl(_) => panic!("the browser opened it"),
    }
    match link_outcome("https://a.b".to_string(), false, false) {
        LinkOutcome::ShowUrl(d) => assert_eq!(d.url, "https://a.b"),
        LinkOutcome::Notify(_) => panic!("nothing opened the link"),
    }
}

#[test]
fn full_help_of_each_screen() {
    let kid = MainScreen::new(VReaderRole::Kid, None);
    let parent = MainScreen::new(VReaderRole::Parent, None);
    assert_eq!(kid.get_full_instructions().categories[0].title, "Navigation");
    assert!(parent.get_full_instructions().categories.len() >= kid.get_full_instructions().categories.len());
    let dialog = UrlDialog::new("u".to_string());
    assert!(dialog.get_work_status().is_none());
    let help = dialog.get_full_instructions();
    assert_eq!(help.categories.len(), 1);
    assert_eq!(help.categories[0].details[0].key, "Esc/q");
    assert_eq!(help.categories[0].details[0].description, "close");
}

#[test]
fn commands_are_notified() {
    assert_eq!(command_notice(MainCommand::MarkAllRead, false, false), Some(("All marked as Read", false)));
    assert_eq!(command_notice(MainCommand::ToggleSeen, true, true), Some(("Marked as Unread", false)));
    assert_eq!(command_notice(MainCommand::ToggleSeen, true, false), Some(("Marked as Read", false)));
    assert_eq!(command_notice(MainCommand::ToggleSeen, false, false), None);
    assert_eq!(command_notice(MainCommand::OpenLink, false, false), Some(("Couldn't open link externally", true)));
    assert_eq!(command_notice(MainCommand::OpenLink, true, false), None);
    assert_eq!(command_notice(MainCommand::ToggleReadLater, true, true), Some(("Added to Read Later", false)));
    assert_eq!(command_notice(MainCommand::ToggleReadLater, true, false), Some(("Removed from Read Later", false)));
    assert_eq!(command_notice(MainCommand::TreeNext, true, true), None);
}

#[test]
fn seed_text_gives_the_agent_keys() {
    let kp = nkeys::KeyPair::new_user();
    let seed = kp.seed().unwrap();
    let keys = agent_keys_from_seed_text(&format!("  {seed}\n")).ok().unwrap();
    assert_eq!(keys.seed, seed);
    assert_eq!(keys.public_key, kp.public_key());
    assert!(agent_keys_from_seed_text("not a seed").is_err());
}
