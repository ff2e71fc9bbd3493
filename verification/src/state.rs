//! Player state files of a server: where they lie and when their text holds entries.
use vstd::prelude::*;
use crate::paths::{join, join_exec};
use crate::text::{chars_of, eq_str, owned, string_from, trim, trimmed_chars};

verus! {

pub const WHITELIST_FILE: &'static str = "whitelist.json";

pub const BANNED_PLAYERS_FILE: &'static str = "banned-players.json";

pub const OPS_FILE: &'static str = "ops.json";

#[derive(Debug, Clone, PartialEq, Eq)]
pub struct WhitelistEntry {
    pub uuid: String,
    pub name: String,
}

#[derive(Debug, Clone, PartialEq, Eq)]
pub struct BannedPlayerEntry {
    pub uuid: String,
    pub name: String,
    pub reason: String,
    pub source: String,
    pub created: String,
    pub expires: String,
}

#[derive(Debug, Clone, PartialEq, Eq)]
pub struct OpEntry {
    pub uuid: String,
    pub name: String,
    pub level: u32,
    pub bypasses_player_limit: bool,
}

/// Where the state files of a server lie (path texts).
#[derive(Debug, Clone, PartialEq, Eq)]
pub struct StateFileCatalog {
    pub server_root: String,
    pub whitelist_path: String,
    pub banned_players_path: String,
    pub ops_path: String,
}

/// Why a state file could not be read.
#[derive(Debug, Clone, PartialEq, Eq)]
pub enum StateFileError {
    Io(String),
    ParseFailed(String),
}

/// The state files of a server lie directly in its root, under their conventional names.
pub fn discover_state_files(server_root: &str) -> (r: StateFileCatalog)
    ensures
        r.server_root@ == server_root@,
        r.whitelist_path@ == join(server_root@, WHITELIST_FILE@),
        r.banned_players_path@ == join(server_root@, BANNED_PLAYERS_FILE@),
        r.ops_path@ == join(server_root@, OPS_FILE@),
{
    let w = chars_of(WHITELIST_FILE);
    let b = chars_of(BANNED_PLAYERS_FILE);
    let o = chars_of(OPS_FILE);
    StateFileCatalog {
        server_root: owned(server_root),
        whitelist_path: join_exec(server_root, w.as_slice()),
        banned_players_path: join_exec(server_root, b.as_slice()),
        ops_path: join_exec(server_root, o.as_slice()),
    }
}

/// The JSON text of a state file that lists entries: none when the trimmed text is blank or
/// an empty array `[]`, else the trimmed text.
pub open spec fn state_list_json(content: Seq<char>) -> Option<Seq<char>> {
    let t = trim(content);
    if t.len() == 0 || t == "[]"@ {
        None
    } else {
        Some(t)
    }
}

pub fn state_list_text(content: &str) -> (r: Option<String>)
    ensures
        match r {
            Some(t) => state_list_json(content@) == Some(t@),
            None => state_list_json(content@) is None,
        },
{
    let t = trimmed_chars(content);
    if t.len() == 0 || eq_str(t.as_slice(), "[]") {
        None
    } else {
        Some(string_from(t.as_slice()))
    }
}

} // verus!
