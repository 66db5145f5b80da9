//! Configuration: the values found in the environment, and what stands in for a missing one.

use vstd::prelude::*;

verus! {

/// The variable that names the directory the server runs in.
pub const WORKING_DIRECTORY_KEY: &'static str = "BLEEDINGEDGE_WORKING_DIRECTORY";

/// The variable that names the directory backups are written to.
pub const BACKUP_DIRECTORY_KEY: &'static str = "BLEEDINGEDGE_BACKUP_DIRECTORY";

/// The variable that holds the initial heap size.
pub const MIN_MEM_KEY: &'static str = "BLEEDINGEDGE_MIN_MEM";

/// The variable that holds the maximal heap size.
pub const MAX_MEM_KEY: &'static str = "BLEEDINGEDGE_MAX_MEM";

/// The variable that switches the garbage-collector tuning on (`1`) or off.
pub const USE_AIKAR_KEY: &'static str = "BLEEDINGEDGE_USE_AIKAR";

/// The configuration of the program, read once at startup.
#[derive(Debug)]
pub struct Settings {
    pub working_dir: String,
    pub backup_dir: String,
    pub min_mem: String,
    pub max_mem: String,
    pub use_aikar: bool,
}

/// What a variable is taken to hold: its value, or `default` where it is not set.
pub open spec fn value_or(value: Option<String>, default: Seq<char>) -> Seq<char> {
    match value {
        Some(text) => text@,
        None => default,
    }
}

/// The value of a variable, or `default` where the variable is not set.
pub fn env_var_else(value: Option<String>, default: &str) -> (text: String)
    ensures
        text@ == value_or(value, default@),
{
    match value {
        Some(text) => text,
        None => default.to_owned(),
    }
}

impl Settings {
    /// The configuration that the five variables stand for, each argument the value of
    /// one of them or `None`. The directories default to `run` and `backups`, both heap
    /// sizes to `1g`, and the garbage-collector tuning is on unless its variable holds
    /// something other than `1`.
    pub fn from_lookups(
        working_dir: Option<String>,
        backup_dir: Option<String>,
        min_mem: Option<String>,
        max_mem: Option<String>,
        use_aikar: Option<String>,
    ) -> (settings: Settings)
        ensures
            settings.working_dir@ == value_or(working_dir, "run"@),
            settings.backup_dir@ == value_or(backup_dir, "backups"@),
            settings.min_mem@ == value_or(min_mem, "1g"@),
            settings.max_mem@ == value_or(max_mem, "1g"@),
            settings.use_aikar == (value_or(use_aikar, "1"@) == "1"@),
    {
        let toggle = env_var_else(use_aikar, "1");
        Settings {
            working_dir: env_var_else(working_dir, "run"),
            backup_dir: env_var_else(backup_dir, "backups"),
            min_mem: env_var_else(min_mem, "1g"),
            max_mem: env_var_else(max_mem, "1g"),
            use_aikar: toggle == String::from_str("1"),
        }
    }
}

} // verus!
