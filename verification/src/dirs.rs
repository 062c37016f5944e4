//! The directories of a role: configuration, identity, data and logs.
use std::path::PathBuf;
use vstd::prelude::*;
use crate::config::VReaderRole;
use crate::paths::{clone_path, join_path, path_joined};
use crate::text::concat2;

verus! {

/// Base name of the configuration directory.
pub const CONFIG_PATH: &'static str = "vreader";
/// Base name of the data directory.
pub const DATA_DIR: &'static str = "vreader";
/// Name of the identity directory inside the configuration directory.
pub const IDENTITY_DIR: &'static str = "identity";
/// Base name of the log directory.
pub const LOG_BASE_DIR: &'static str = "vreader";
/// Name of the directory that holds the log files.
pub const LOG_SUBDIR: &'static str = "logs";

/// The suffix that sets a role's directories apart; the operator uses the
/// bare names.
pub open spec fn role_suffix(role: VReaderRole) -> Seq<char> {
    match role {
        VReaderRole::Operator => ""@,
        VReaderRole::Parent => "-parents"@,
        VReaderRole::Kid => "-kids"@,
    }
}

/// The suffix that sets a role's directories apart.
pub fn role_dir_suffix(role: &VReaderRole) -> (r: &'static str)
    ensures
        r@ == role_suffix(*role),
{
    match role {
        VReaderRole::Operator => "",
        VReaderRole::Parent => "-parents",
        VReaderRole::Kid => "-kids",
    }
}

/// Different roles have different suffixes, so their directories differ.
pub proof fn lemma_role_suffix_distinct(a: VReaderRole, b: VReaderRole)
    requires
        a != b,
    ensures
        role_suffix(a) != role_suffix(b),
{
    reveal_strlit("");
    reveal_strlit("-parents");
    reveal_strlit("-kids");
    if a != VReaderRole::Operator && b != VReaderRole::Operator {
        assert(role_suffix(a).len() != role_suffix(b).len());
    } else {
        assert(role_suffix(a).len() != role_suffix(b).len());
    }
}

pub struct Directories {
    pub log: PathBuf,
    pub default_data: PathBuf,
    pub config: PathBuf,
    pub identity: PathBuf,
}

impl Directories {
    /// The directories of `role` under the platform's base directories: the
    /// configuration directory `<config>/vreader<suffix>` with `identity`
    /// inside it, the data directory `<data>/vreader<suffix>`, and the log
    /// directory `<state or cache>/vreader<suffix>/logs`.
    pub fn for_role(
        role: &VReaderRole,
        config_base: &PathBuf,
        data_base: &PathBuf,
        state_base: Option<&PathBuf>,
        cache_base: &PathBuf,
    ) -> (r: Directories)
        ensures
            r.config == path_joined(*config_base, CONFIG_PATH@ + role_suffix(*role)),
            r.identity == path_joined(r.config, IDENTITY_DIR@),
            r.default_data == path_joined(*data_base, DATA_DIR@ + role_suffix(*role)),
            r.log == path_joined(
                path_joined(
                    match state_base {
                        Some(s) => *s,
                        None => *cache_base,
                    },
                    LOG_BASE_DIR@ + role_suffix(*role),
                ),
                LOG_SUBDIR@,
            ),
    {
        let suffix = role_dir_suffix(role);
        let config = join_path(config_base, concat2(CONFIG_PATH, suffix).as_str());
        let identity = join_path(&config, IDENTITY_DIR);
        let default_data = join_path(data_base, concat2(DATA_DIR, suffix).as_str());
        let log_base = match state_base {
            Some(s) => clone_path(s),
            None => clone_path(cache_base),
        };
        let log = join_path(&join_path(&log_base, concat2(LOG_BASE_DIR, suffix).as_str()), LOG_SUBDIR);
        Directories { log, default_data, config, identity }
    }

    pub fn log(&self) -> (r: &PathBuf)
        ensures
            *r == self.log,
    {
        &self.log
    }

    pub fn default_data(&self) -> (r: &PathBuf)
        ensures
            *r == self.default_data,
    {
        &self.default_data
    }

    pub fn config(&self) -> (r: &PathBuf)
        ensures
            *r == self.config,
    {
        &self.config
    }

    pub fn identity(&self) -> (r: &PathBuf)
        ensures
            *r == self.identity,
    {
        &self.identity
    }
}

} // verus!
