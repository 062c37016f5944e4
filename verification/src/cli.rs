//! The command line: its commands, the role it selects, how it overrides
//! the configuration, and the decisions of the commands that talk to the
//! user or to the VReader API server.
use std::path::PathBuf;
use vstd::prelude::*;
use crate::config::{role_of_word, Config, VReaderRole};
use crate::text::{
    concat2, find_str, first_occurrence, lowercase_of, parse_usize, parsed_usize, to_lowercase, trim, trim_end_char,
    trim_end_matches_char, trimmed_of,
};

verus! {

pub struct Cli {
    pub command: Option<Commands>,
    /// Disable all hooks defined in config
    pub no_hooks: bool,
    /// Operational role: operator | parent | kid (env: VREADER_ROLE)
    pub role: Option<String>,
}

#[allow(inconsistent_fields)]
pub enum Commands {
    /// List all feeds and categories
    List,
    /// Add new feed
    Add { url: String, category: Option<String> },
    /// Update all feeds
    Update,
    /// Delete a feed
    Delete { ident: String },
    /// Show important directories
    Dirs { subcmd: Option<DirsCommands> },
    /// Import a list of feed sources through OPML
    Import { opml_file: String },
    /// Export all your sources to an OPML file
    Export { opml_file: String },
    /// Start or manage the VReader API server
    Server { cmd: ServerCommands },
    /// Manage users and invite keys (operator only)
    User { cmd: UserCommands },
    /// Sync feeds with the VReader API server
    Sync { push: bool, pull: bool, url: Option<String>, api_key: Option<String> },
}

pub enum ServerCommands {
    /// Start the API server (long-running process)
    Start,
    /// Show server config and status
    Status,
}

pub enum UserCommands {
    /// Generate an invite code for a new user
    Invite { role: String, days: u32 },
    /// List registered users from the server
    List,
    /// Revoke a user's access
    Revoke { id: String },
}

pub enum DirsCommands {
    /// Show or update the library path
    Library { path: Option<PathBuf> },
    /// Show the logs directory
    Logs,
    /// Show the local config directory
    LocalConfig,
}

impl Cli {
    /// The role that the role flag (or its environment variable) names;
    /// unset (`None`) when the flag is absent or names no role, so that the
    /// configured role can apply.
    pub fn effective_role(&self) -> (r: Option<VReaderRole>)
        ensures
            r == match self.role {
                Some(s) => role_of_word(lowercase_of(s@)),
                None => None,
            },
    {
        match &self.role {
            Some(s) => match VReaderRole::parse(s.as_str()) {
                Ok(role) => Some(role),
                Err(_) => None,
            },
            None => None,
        }
    }
}

/// The configuration after the command line's overrides: a role that the
/// role flag (or its environment variable) names replaces the configured
/// role, a flag that names no role leaves the configured role in place,
/// and `--no-hooks` removes the hooks.
pub fn apply_cli_overrides(config: &mut Config, cli: &Cli)
    ensures
        final(config).role == match cli.role {
            Some(s) => match role_of_word(lowercase_of(s@)) {
                Some(r) => r,
                None => old(config).role,
            },
            None => old(config).role,
        },
        final(config).hooks == if cli.no_hooks { None } else { old(config).hooks },
        final(config).datapath == old(config).datapath,
        final(config).vccread == old(config).vccread,
        final(config).llm == old(config).llm,
        final(config).vchat == old(config).vchat,
{
    match cli.effective_role() {
        Some(parsed) => {
            if parsed != config.role {
                config.role = parsed;
            }
        },
        None => {},
    }
    if cli.no_hooks {
        config.hooks = None;
    }
}

/// Whether a role may manage users and invite keys: the operator only.
pub fn may_manage_users(role: VReaderRole) -> (r: bool)
    ensures
        r == (role == VReaderRole::Operator),
{
    role == VReaderRole::Operator
}

/// What the program runs.
#[derive(PartialEq, Eq, Structural)]
pub enum RunMode {
    /// Start the API server.
    ServerStart,
    /// Print where the server's files are.
    ServerStatus,
    /// The terminal interface.
    Tui,
    /// A command of the command line.
    Command,
}

/// What the program runs for the given command line.
pub fn run_mode(cli: &Cli) -> (r: RunMode)
    ensures
        r == match cli.command {
            Some(Commands::Server { cmd: ServerCommands::Start }) => RunMode::ServerStart,
            Some(Commands::Server { cmd: ServerCommands::Status }) => RunMode::ServerStatus,
            None => RunMode::Tui,
            Some(_) => RunMode::Command,
        },
{
    match &cli.command {
        Some(Commands::Server { cmd: ServerCommands::Start }) => RunMode::ServerStart,
        Some(Commands::Server { cmd: ServerCommands::Status }) => RunMode::ServerStatus,
        None => RunMode::Tui,
        Some(_) => RunMode::Command,
    }
}

/// The configuration the terminal interface runs with: a kid runs without
/// hooks.
pub fn prepare_tui(config: &mut Config)
    ensures
        final(config).hooks == if old(config).role == VReaderRole::Kid { None } else { old(config).hooks },
        final(config).role == old(config).role,
        final(config).datapath == old(config).datapath,
        final(config).vccread == old(config).vccread,
        final(config).llm == old(config).llm,
        final(config).vchat == old(config).vchat,
{
    if config.role == VReaderRole::Kid {
        config.hooks = None;
    }
}

/// Why an API command cannot run.
#[derive(PartialEq, Eq, Structural)]
pub enum ApiConfigError {
    /// No API URL is configured and none was given.
    UrlNotConfigured,
    /// No API key is configured.
    KeyNotConfigured,
    /// No API key is configured and none was given to `sync`.
    SyncKeyNotConfigured,
}

impl ApiConfigError {
    /// The message shown for the error.
    pub fn message(&self) -> (r: &'static str)
        ensures
            r@ == match *self {
                ApiConfigError::UrlNotConfigured =>
                    "API URL not configured. Set [vccread] api_url in config or use --url flag with sync command."@,
                ApiConfigError::KeyNotConfigured => "API key not configured. Set [vccread] api_key in config."@,
                ApiConfigError::SyncKeyNotConfigured =>
                    "API key not configured. Use --api-key or set [vccread] api_key in config."@,
            },
    {
        match self {
            ApiConfigError::UrlNotConfigured =>
                "API URL not configured. Set [vccread] api_url in config or use --url flag with sync command.",
            ApiConfigError::KeyNotConfigured => "API key not configured. Set [vccread] api_key in config.",
            ApiConfigError::SyncKeyNotConfigured =>
                "API key not configured. Use --api-key or set [vccread] api_key in config.",
        }
    }
}

/// The API base URL the configuration gives: the configured API URL
/// without trailing slashes, or else the master OPML URL up to its first
/// `/opml`.
pub open spec fn configured_api_base(config: Config) -> Option<Seq<char>> {
    match config.vccread {
        Some(v) => match v.api_url {
            Some(u) => Some(trim_end_char(u@, '/')),
            None => match v.master_opml_url {
                Some(m) => match first_occurrence(m@, "/opml"@, 0) {
                    Some(pos) => Some(m@.subrange(0, pos)),
                    None => None,
                },
                None => None,
            },
        },
        None => None,
    }
}

/// The API base URL (see `configured_api_base`).
pub fn api_base(config: &Config) -> (r: Result<String, ApiConfigError>)
    ensures
        match configured_api_base(*config) {
            Some(b) => r matches Ok(s) && s@ == b,
            None => r == Err::<String, ApiConfigError>(ApiConfigError::UrlNotConfigured),
        },
{
    match &config.vccread {
        Some(v) => match &v.api_url {
            Some(u) => Ok(trim_end_matches_char(u.as_str(), '/')),
            None => match &v.master_opml_url {
                Some(m) => match find_str(m.as_str(), "/opml") {
                    Some(pos) => Ok(String::from_str(m.as_str().substring_char(0, pos))),
                    None => Err(ApiConfigError::UrlNotConfigured),
                },
                None => Err(ApiConfigError::UrlNotConfigured),
            },
        },
        None => Err(ApiConfigError::UrlNotConfigured),
    }
}

/// The configured API key, if any.
pub fn api_key(config: &Config) -> (r: Option<String>)
    ensures
        r == match config.vccread {
            Some(v) => v.api_key,
            None => None::<String>,
        },
{
    match &config.vccread {
        Some(v) => match &v.api_key {
            Some(k) => Some(k.clone()),
            None => None,
        },
        None => None,
    }
}

/// The base URL and key of an API command other than `sync`.
pub fn api_target(config: &Config) -> (r: Result<(String, String), ApiConfigError>)
    ensures
        match configured_api_base(*config) {
            None => r == Err::<(String, String), ApiConfigError>(ApiConfigError::UrlNotConfigured),
            Some(b) => match config.vccread {
                Some(v) => match v.api_key {
                    Some(k) => r matches Ok((base, key)) && base@ == b && key == k,
                    None => r == Err::<(String, String), ApiConfigError>(ApiConfigError::KeyNotConfigured),
                },
                None => r == Err::<(String, String), ApiConfigError>(ApiConfigError::KeyNotConfigured),
            },
        },
{
    let base = match api_base(config) {
        Ok(b) => b,
        Err(e) => return Err(e),
    };
    match api_key(config) {
        Some(k) => Ok((base, k)),
        None => Err(ApiConfigError::KeyNotConfigured),
    }
}

/// The base URL and key of `sync`: the given URL (without trailing
/// slashes) or the configured one, and the given key or the configured one.
pub fn sync_target(cli_url: Option<&str>, cli_key: Option<&str>, config: &Config) -> (r: Result<
    (String, String),
    ApiConfigError,
>)
    ensures
        ({
            let base: Option<Seq<char>> = match cli_url {
                Some(u) => Some(trim_end_char(u@, '/')),
                None => configured_api_base(*config),
            };
            let key: Option<Seq<char>> = match cli_key {
                Some(k) => Some(k@),
                None => match config.vccread {
                    Some(v) => match v.api_key {
                        Some(k) => Some(k@),
                        None => None,
                    },
                    None => None,
                },
            };
            match base {
                None => r == Err::<(String, String), ApiConfigError>(ApiConfigError::UrlNotConfigured),
                Some(b) => match key {
                    Some(k) => r matches Ok((rb, rk)) && rb@ == b && rk@ == k,
                    None => r == Err::<(String, String), ApiConfigError>(ApiConfigError::SyncKeyNotConfigured),
                },
            }
        }),
{
    let base = match cli_url {
        Some(u) => trim_end_matches_char(u, '/'),
        None => match api_base(config) {
            Ok(b) => b,
            Err(e) => return Err(e),
        },
    };
    let key = match cli_key {
        Some(k) => String::from_str(k),
        None => match api_key(config) {
            Some(k) => k,
            None => return Err(ApiConfigError::SyncKeyNotConfigured),
        },
    };
    Ok((base, key))
}

/// The direction of a `sync`.
#[derive(PartialEq, Eq, Structural)]
pub enum SyncDirection {
    Push,
    Pull,
    /// Neither was asked for.
    Unspecified,
}

/// `--push` wins over `--pull`.
pub fn sync_direction(push: bool, pull: bool) -> (r: SyncDirection)
    ensures
        r == if push {
            SyncDirection::Push
        } else if pull {
            SyncDirection::Pull
        } else {
            SyncDirection::Unspecified
        },
{
    if push {
        SyncDirection::Push
    } else if pull {
        SyncDirection::Pull
    } else {
        SyncDirection::Unspecified
    }
}

/// The request of a `sync`: the endpoint, and the API key sent as a bearer
/// token where the endpoint needs one.
pub struct SyncRequest {
    pub url: String,
    pub bearer: Option<String>,
}

/// The request that a `sync` in `direction` sends to the API at `base`:
/// a push posts the library to `/v1/feeds/sync` with the key; a pull gets
/// `/v1/opml`, which is public, without it; nothing is sent when no
/// direction was asked for.
pub fn sync_request(direction: SyncDirection, base: &str, key: &str) -> (r: Option<SyncRequest>)
    ensures
        direction == SyncDirection::Push ==> (r matches Some(q) && q.url@ == base@ + "/v1/feeds/sync"@
            && q.bearer is Some && q.bearer->0@ == key@),
        direction == SyncDirection::Pull ==> (r matches Some(q) && q.url@ == base@ + "/v1/opml"@ && q.bearer is None),
        direction == SyncDirection::Unspecified ==> r is None,
{
    match direction {
        SyncDirection::Push => Some(SyncRequest { url: concat2(base, "/v1/feeds/sync"), bearer: Some(String::from_str(key)) }),
        SyncDirection::Pull => Some(SyncRequest { url: concat2(base, "/v1/opml"), bearer: None }),
        SyncDirection::Unspecified => None,
    }
}

/// Whether an answer to a confirmation prompt is a yes: `y` or `yes`,
/// ignoring surrounding white space and case.
pub open spec fn is_yes(answer: Seq<char>) -> bool {
    lowercase_of(trimmed_of(answer)) == "y"@ || lowercase_of(trimmed_of(answer)) == "yes"@
}

/// Whether the answer to "Are you sure ... [y/N]" confirms.
pub fn is_confirmation(answer: &str) -> (r: bool)
    ensures
        r == is_yes(answer@),
{
    let normalized = to_lowercase(trim(answer));
    proof {
        reveal_strlit("y");
        reveal_strlit("yes");
    }
    crate::text::str_eq(normalized.as_str(), "y") || crate::text::str_eq(normalized.as_str(), "yes")
}

/// The index (from zero) of the feed that the answer to "Which one would
/// you like to delete?" picks among `count` listed from one: the answer,
/// trimmed, must be a number from 1 to `count`.
pub fn parse_selection(answer: &str, count: usize) -> (r: Option<usize>)
    ensures
        r == match parsed_usize(trimmed_of(answer@)) {
            Some(n) => if 1 <= n && n <= count { Some((n - 1) as usize) } else { None },
            None => None,
        },
{
    match parse_usize(trim(answer)) {
        Some(n) => if 1 <= n && n <= count { Some(n - 1) } else { None },
        None => None,
    }
}

/// What `delete` does with the feeds that match its identifier.
#[derive(PartialEq, Eq, Structural)]
pub enum DeletePlan {
    /// No feed matches.
    NoMatch,
    /// Exactly one matches: ask to confirm its deletion.
    ConfirmOne,
    /// Several match: list them and ask which one.
    Choose,
}

/// What `delete` does with `count` matching feeds.
pub fn delete_plan(count: usize) -> (r: DeletePlan)
    ensures
        r == if count == 0 {
            DeletePlan::NoMatch
        } else if count == 1 {
            DeletePlan::ConfirmOne
        } else {
            DeletePlan::Choose
        },
{
    if count == 0 {
        DeletePlan::NoMatch
    } else if count == 1 {
        DeletePlan::ConfirmOne
    } else {
        DeletePlan::Choose
    }
}

} // verus!
