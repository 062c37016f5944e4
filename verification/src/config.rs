//! Operational roles and the configuration model.
use vstd::prelude::*;
use std::path::PathBuf;
use crate::paths::{join_path, path_joined};
use crate::text::{ascii_lowercase, concat3, is_ascii_text, lowercase_of, str_eq, to_lowercase};

verus! {

/// VReader operational role.
#[derive(Debug, Clone, Copy, PartialEq, Eq, Structural)]
pub enum VReaderRole {
    Operator,
    Parent,
    Kid,
}

/// The role named by an already lower-cased word, if any.
pub open spec fn role_of_word(w: Seq<char>) -> Option<VReaderRole> {
    if w == "operator"@ {
        Some(VReaderRole::Operator)
    } else if w == "parent"@ || w == "parents"@ {
        Some(VReaderRole::Parent)
    } else if w == "kid"@ || w == "kids"@ {
        Some(VReaderRole::Kid)
    } else {
        None
    }
}

/// The message with which a word that names no role is refused.
pub open spec fn invalid_role_message(s: Seq<char>) -> Seq<char> {
    "Invalid role: "@ + s + ". Expected: operator, parent, kid"@
}

impl VReaderRole {
    /// Parses a role name, ignoring case: `operator`, `parent`/`parents`,
    /// `kid`/`kids`.
    pub fn parse(s: &str) -> (r: Result<VReaderRole, String>)
        ensures
            is_ascii_text(s@) ==> lowercase_of(s@) == ascii_lowercase(s@),
            match role_of_word(lowercase_of(s@)) {
                Some(role) => r == Ok::<VReaderRole, String>(role),
                None => r is Err && r->Err_0@ == invalid_role_message(s@),
            },
    {
        let lower = to_lowercase(s);
        let l = lower.as_str();
        proof {
            reveal_strlit("operator");
            reveal_strlit("parent");
            reveal_strlit("parents");
            reveal_strlit("kid");
            reveal_strlit("kids");
        }
        if str_eq(l, "operator") {
            Ok(VReaderRole::Operator)
        } else if str_eq(l, "parent") || str_eq(l, "parents") {
            Ok(VReaderRole::Parent)
        } else if str_eq(l, "kid") || str_eq(l, "kids") {
            Ok(VReaderRole::Kid)
        } else {
            Err(concat3("Invalid role: ", s, ". Expected: operator, parent, kid"))
        }
    }
}

impl Default for VReaderRole {
    fn default() -> (r: VReaderRole)
        ensures
            r == VReaderRole::Operator,
    {
        VReaderRole::Operator
    }
}

impl std::str::FromStr for VReaderRole {
    type Err = String;

    /// Parses a role name as `VReaderRole::parse` does.
    fn from_str(s: &str) -> (r: Result<VReaderRole, String>)
        ensures
            match role_of_word(lowercase_of(s@)) {
                Some(role) => r == Ok::<VReaderRole, String>(role),
                None => r is Err && r->Err_0@ == invalid_role_message(s@),
            },
    {
        VReaderRole::parse(s)
    }
}

/// The status-line badge of a role: an icon and the role's name.
pub open spec fn badge_of(role: VReaderRole) -> Seq<char> {
    match role {
        VReaderRole::Operator => "\u{f023} operator"@,
        VReaderRole::Parent => "\u{f007} parent"@,
        VReaderRole::Kid => "\u{f118} kid"@,
    }
}

/// The status-line badge of a role.
pub fn role_badge(role: &VReaderRole) -> (r: &'static str)
    ensures
        r@ == badge_of(*role),
{
    match role {
        VReaderRole::Operator => "\u{f023} operator",
        VReaderRole::Parent => "\u{f007} parent",
        VReaderRole::Kid => "\u{f118} kid",
    }
}

/// Commands that hooks run on the user's behalf.
pub struct AppHooks {
    /// The command that opens a link instead of the system browser.
    pub open_link: Option<String>,
}

impl Default for AppHooks {
    fn default() -> (r: AppHooks)
        ensures
            r.open_link is None,
    {
        AppHooks { open_link: None }
    }
}

impl Clone for AppHooks {
    fn clone(&self) -> (r: AppHooks)
        ensures
            r == *self,
    {
        AppHooks { open_link: match &self.open_link { Some(s) => Some(s.clone()), None => None } }
    }
}

/// vccread.chatek.co integration settings.
pub struct VccReadConfig {
    pub master_opml_url: Option<String>,
    /// Base URL for the VReader API, e.g. "https://vreader.chatek.co/api"
    pub api_url: Option<String>,
    pub auto_sync: bool,
    pub api_key: Option<String>,
}

/// LLM provider configuration.
pub struct LlmConfig {
    pub provider: String,
    pub api_url: Option<String>,
    pub api_key: Option<String>,
    pub model: Option<String>,
    pub kid_safe_filter: bool,
}

/// vchat.email agent identity configuration.
pub struct VChatConfig {
    pub nats_url: Option<String>,
    pub agent_name: Option<String>,
    pub steward: Option<String>,
    pub template: Option<String>,
    pub auto_sync: bool,
}

pub struct Config {
    pub datapath: PathBuf,
    pub hooks: Option<AppHooks>,
    pub role: VReaderRole,
    pub vccread: Option<VccReadConfig>,
    pub llm: Option<LlmConfig>,
    pub vchat: Option<VChatConfig>,
}

/// The name of the configuration file inside the configuration directory.
pub const CONFIG_FILE: &'static str = "config.toml";

/// Where the configuration is kept.
pub struct ConfigStore {
    pub file_path: PathBuf,
}

impl ConfigStore {
    /// The store of the configuration file in `dir`.
    pub fn new(dir: &PathBuf) -> (r: ConfigStore)
        ensures
            r.file_path == path_joined(*dir, CONFIG_FILE@),
    {
        ConfigStore { file_path: join_path(dir, CONFIG_FILE) }
    }
}

/// Role names are read without regard to case: two spellings that lower
/// to the same word name the same role, or both name none.
pub proof fn lemma_role_names_ignore_case(a: Seq<char>, b: Seq<char>)
    requires
        lowercase_of(a) == lowercase_of(b),
    ensures
        role_of_word(lowercase_of(a)) == role_of_word(lowercase_of(b)),
{
}

} // verus!
