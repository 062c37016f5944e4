use std::path::PathBuf;

use vreader::cli::{
    api_base, api_key, api_target, apply_cli_overrides, delete_plan, is_confirmation, may_manage_users, parse_selection,
    prepare_tui,
    run_mode, sync_direction, sync_request, sync_target, ApiConfigError, Cli, Commands, DeletePlan, RunMode, ServerCommands,
    SyncDirection,
};
use vreader::config::{role_badge, AppHooks, Config, ConfigStore, VReaderRole, VccReadConfig};
use vreader::dirs::{role_dir_suffix, Directories};
use vreader::library::{feed_category, DATA_CATEGORY_DEFAULT};
use vreader::text::is_white_space_char;

fn config(vccread: Option<VccReadConfig>) -> Config {
    Config {
        datapath: PathBuf::from("/data"),
        hooks: Some(AppHooks { open_link: Some("xdg-open".to_string()) }),
        role: VReaderRole::Parent,
        vccread,
        llm: None,
        vchat: None,
    }
}

fn vcc(api_url: Option<&str>, opml: Option<&str>, key: Option<&str>) -> VccReadConfig {
    VccReadConfig {
        master_opml_url: opml.map(|s| s.to_string()),
        api_url: api_url.map(|s| s.to_string()),
        auto_sync: false,
        api_key: key.map(|s| s.to_string()),
    }
}

fn cli(role: Option<&str>, no_hooks: bool, command: Option<Commands>) -> Cli {
    Cli { command, no_hooks, role: role.map(|s| s.to_string()) }
}

#[test]
fn roles_parse_ignoring_case() {
    assert!(VReaderRole::parse("operator") == Ok(VReaderRole::Operator));
    assert!(VReaderRole::parse("Parents") == Ok(VReaderRole::Parent));
    assert!(VReaderRole::parse("KIDS") == Ok(VReaderRole::Kid));
    assert!(VReaderRole::parse("kid") == Ok(VReaderRole::Kid));
    assert_eq!(
        VReaderRole::parse("admin"),
        Err("Invalid role: admin. Expected: operator, parent, kid".to_string())
    );
    assert_eq!("parent".parse::<VReaderRole>(), Ok(VReaderRole::Parent));
    assert_eq!(VReaderRole::default(), VReaderRole::Operator);
}

#[test]
fn effective_role_is_unset_without_a_usable_flag() {
    assert_eq!(cli(Some("Kid"), false, None).effective_role(), Some(VReaderRole::Kid));
    assert_eq!(cli(Some("nobody"), false, None).effective_role(), None);
    assert_eq!(cli(None, false, None).effective_role(), None);
}

#[test]
fn command_line_overrides_configuration() {
    let mut c = config(None);
    apply_cli_overrides(&mut c, &cli(None, false, None));
    assert_eq!(c.role, VReaderRole::Parent);
    assert!(c.hooks.is_some());
    apply_cli_overrides(&mut c, &cli(Some("kids"), true, None));
    assert_eq!(c.role, VReaderRole::Kid);
    assert!(c.hooks.is_none());
    // a flag that names no role leaves the configured role in place
    apply_cli_overrides(&mut c, &cli(Some("bogus"), false, None));
    assert_eq!(c.role, VReaderRole::Kid);

    let mut k = config(None);
    k.role = VReaderRole::Kid;
    prepare_tui(&mut k);
    assert!(k.hooks.is_none());
    let mut p = config(None);
    prepare_tui(&mut p);
    assert!(p.hooks.is_some());
}

#[test]
fn run_modes() {
    assert!(run_mode(&cli(None, false, None)) == RunMode::Tui);
    assert!(run_mode(&cli(None, false, Some(Commands::Server { cmd: ServerCommands::Start }))) == RunMode::ServerStart);
    assert!(run_mode(&cli(None, false, Some(Commands::Server { cmd: ServerCommands::Status }))) == RunMode::ServerStatus);
    assert!(run_mode(&cli(None, false, Some(Commands::List))) == RunMode::Command);
}

#[test]
fn api_base_from_configuration() {
    assert_eq!(api_base(&config(Some(vcc(Some("https://x.co/api//"), None, None)))).ok(), Some("https://x.co/api".to_string()));
    assert_eq!(
        api_base(&config(Some(vcc(None, Some("https://x.co/api/opml/master.opml"), None)))).ok(),
        Some("https://x.co/api".to_string())
    );
    assert!(api_base(&config(Some(vcc(None, Some("https://x.co/list"), None)))) == Err(ApiConfigError::UrlNotConfigured));
    assert!(api_base(&config(None)) == Err(ApiConfigError::UrlNotConfigured));
    assert_eq!(api_key(&config(Some(vcc(None, None, Some("k"))))), Some("k".to_string()));
    assert_eq!(api_key(&config(None)), None);
    assert!(api_target(&config(Some(vcc(Some("u"), None, None)))) == Err(ApiConfigError::KeyNotConfigured));
    assert_eq!(api_target(&config(Some(vcc(Some("u/"), None, Some("k"))))).ok(), Some(("u".to_string(), "k".to_string())));
    assert_eq!(
        ApiConfigError::KeyNotConfigured.message(),
        "API key not configured. Set [vccread] api_key in config."
    );
}

#[test]
fn sync_targets() {
    let c = config(Some(vcc(Some("https://cfg/"), None, Some("cfgkey"))));
    assert_eq!(sync_target(Some("https://cli///"), None, &c).ok(), Some(("https://cli".to_string(), "cfgkey".to_string())));
    assert_eq!(sync_target(None, Some("clikey"), &c).ok(), Some(("https://cfg".to_string(), "clikey".to_string())));
    assert!(sync_target(Some("u"), None, &config(None)) == Err(ApiConfigError::SyncKeyNotConfigured));
    assert!(sync_target(None, Some("k"), &config(None)) == Err(ApiConfigError::UrlNotConfigured));
    assert!(sync_direction(true, true) == SyncDirection::Push);
    assert!(sync_direction(false, true) == SyncDirection::Pull);
    assert!(sync_direction(false, false) == SyncDirection::Unspecified);
}

#[test]
fn delete_prompts() {
    assert!(is_confirmation("y\n"));
    assert!(is_confirmation("  YES "));
    assert!(!is_confirmation("no"));
    assert!(!is_confirmation(""));
    assert_eq!(parse_selection(" 2\n", 3), Some(1));
    assert_eq!(parse_selection("+3", 3), Some(2));
    assert_eq!(parse_selection("0", 3), None);
    assert_eq!(parse_selection("4", 3), None);
    assert_eq!(parse_selection("two", 3), None);
    assert_eq!(parse_selection("99999999999999999999999", 3), None);
    assert!(delete_plan(0) == DeletePlan::NoMatch);
    assert!(delete_plan(1) == DeletePlan::ConfirmOne);
    assert!(delete_plan(5) == DeletePlan::Choose);
}

#[test]
fn role_texts_and_directories() {
    assert_eq!(role_badge(&VReaderRole::Kid), "\u{f118} kid");
    assert_eq!(role_dir_suffix(&VReaderRole::Operator), "");
    assert_eq!(role_dir_suffix(&VReaderRole::Parent), "-parents");
    assert_eq!(role_dir_suffix(&VReaderRole::Kid), "-kids");
    let d = Directories::for_role(
        &VReaderRole::Kid,
        &PathBuf::from("/c"),
        &PathBuf::from("/d"),
        None,
        &PathBuf::from("/cache"),
    );
    assert_eq!(d.config(), &PathBuf::from("/c/vreader-kids"));
    assert_eq!(d.identity(), &PathBuf::from("/c/vreader-kids/identity"));
    assert_eq!(d.default_data(), &PathBuf::from("/d/vreader-kids"));
    assert_eq!(d.log(), &PathBuf::from("/cache/vreader-kids/logs"));
    let state = PathBuf::from("/s");
    let o = Directories::for_role(&VReaderRole::Operator, &PathBuf::from("/c"), &PathBuf::from("/d"), Some(&state), &PathBuf::from("/x"));
    assert_eq!(o.log(), &PathBuf::from("/s/vreader/logs"));
    assert_eq!(ConfigStore::new(&PathBuf::from("/c")).file_path, PathBuf::from("/c/config.toml"));
}

#[test]
fn only_the_operator_manages_users() {
    assert!(may_manage_users(VReaderRole::Operator));
    assert!(!may_manage_users(VReaderRole::Parent));
    assert!(!may_manage_users(VReaderRole::Kid));
}

#[test]
fn new_feeds_default_to_general() {
    assert_eq!(feed_category(&None), "General");
    assert_eq!(feed_category(&Some("News".to_string())), "News");
    assert_eq!(DATA_CATEGORY_DEFAULT, "General");
}

#[test]
fn sync_requests() {
    let push = sync_request(SyncDirection::Push, "https://h/api", "k1").unwrap();
    assert_eq!(push.url, "https://h/api/v1/feeds/sync");
    assert_eq!(push.bearer.as_deref(), Some("k1"));
    let pull = sync_request(SyncDirection::Pull, "https://h/api", "k1").unwrap();
    assert_eq!(pull.url, "https://h/api/v1/opml");
    assert!(pull.bearer.is_none());
    assert!(sync_request(SyncDirection::Unspecified, "https://h/api", "k1").is_none());
}

#[test]
fn answers_are_trimmed_of_unicode_white_space() {
    assert!(is_confirmation("\u{3000}y\u{a0}"));
    assert!(is_confirmation("\t\u{2028}YES\u{85}"));
    assert_eq!(parse_selection("\u{2003}1\u{202f}", 2), Some(0));
    assert!(!is_confirmation("\u{200b}y"));
    for c in [' ', '\t', '\n', '\u{85}', '\u{a0}', '\u{1680}', '\u{2000}', '\u{200a}', '\u{2028}', '\u{3000}', 'x', '\u{200b}'] {
        assert_eq!(is_white_space_char(c), c.is_whitespace());
    }
}
