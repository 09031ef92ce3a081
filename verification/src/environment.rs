//! The environment handed to the backend child, and the path of its
//! executable.
//!
//! The child learns everything through fixed environment variables: the
//! loopback host, the allocated port, and the per-install data locations —
//! all rooted under one resolved application-data directory.

use crate::text::dec_digits;
use crate::text::decimal_string;
use crate::text::join_path;
use crate::text::joined;
use vstd::prelude::*;

verus! {

/// The values the child's environment carries, one field per variable.
pub struct EnvironmentConfig {
    /// `SUZENT_HOST`: the loopback host the child binds.
    pub host: String,
    /// `SUZENT_PORT`: the allocated port, as a decimal numeral.
    pub port_value: String,
    /// `SUZENT_APP_DATA`: the application-data directory itself.
    pub app_data: String,
    /// `CHATS_DB_PATH`: the primary database file.
    pub chats_db: String,
    /// `LANCEDB_URI`: the vector-memory store directory.
    pub lancedb_uri: String,
    /// `SANDBOX_DATA_PATH`: the sandbox data directory.
    pub sandbox_data: String,
    /// `SKILLS_DIR`: the skills directory.
    pub skills_dir: String,
}

impl EnvironmentConfig {
    /// Every data location lies directly under the one base directory, under
    /// its fixed name.
    pub open spec fn rooted_under(self, base: Seq<char>) -> bool {
        &&& self.app_data@ == base
        &&& self.chats_db@ == joined(base, "chats.db"@)
        &&& self.lancedb_uri@ == joined(base, "memory"@)
        &&& self.sandbox_data@ == joined(base, "sandbox-data"@)
        &&& self.skills_dir@ == joined(base, "skills"@)
    }

    /// The environment as variable/value pairs, in a fixed order, ready to
    /// be applied to the spawn call.
    pub fn into_pairs(self) -> (pairs: Vec<(String, String)>)
        ensures
            pairs@.len() == 7,
            pairs@[0].0@ == "SUZENT_PORT"@ && pairs@[0].1@ == self.port_value@,
            pairs@[1].0@ == "SUZENT_HOST"@ && pairs@[1].1@ == self.host@,
            pairs@[2].0@ == "SUZENT_APP_DATA"@ && pairs@[2].1@ == self.app_data@,
            pairs@[3].0@ == "CHATS_DB_PATH"@ && pairs@[3].1@ == self.chats_db@,
            pairs@[4].0@ == "LANCEDB_URI"@ && pairs@[4].1@ == self.lancedb_uri@,
            pairs@[5].0@ == "SANDBOX_DATA_PATH"@ && pairs@[5].1@ == self.sandbox_data@,
            pairs@[6].0@ == "SKILLS_DIR"@ && pairs@[6].1@ == self.skills_dir@,
    {
        let mut pairs: Vec<(String, String)> = Vec::new();
        pairs.push(("SUZENT_PORT".to_owned(), self.port_value));
        pairs.push(("SUZENT_HOST".to_owned(), self.host));
        pairs.push(("SUZENT_APP_DATA".to_owned(), self.app_data));
        pairs.push(("CHATS_DB_PATH".to_owned(), self.chats_db));
        pairs.push(("LANCEDB_URI".to_owned(), self.lancedb_uri));
        pairs.push(("SANDBOX_DATA_PATH".to_owned(), self.sandbox_data));
        pairs.push(("SKILLS_DIR".to_owned(), self.skills_dir));
        pairs
    }
}

/// Build the child's environment for one start attempt: loopback host, the
/// allocated port as a numeral, and the data locations rooted under the
/// resolved application-data directory.
pub fn build_environment(port: u16, app_data_dir: &str) -> (cfg: EnvironmentConfig)
    ensures
        cfg.host@ == "127.0.0.1"@,
        cfg.port_value@ == dec_digits(port as nat),
        cfg.rooted_under(app_data_dir@),
{
    EnvironmentConfig {
        host: "127.0.0.1".to_owned(),
        port_value: decimal_string(port),
        app_data: app_data_dir.to_owned(),
        chats_db: join_path(app_data_dir, "chats.db"),
        lancedb_uri: join_path(app_data_dir, "memory"),
        sandbox_data: join_path(app_data_dir, "sandbox-data"),
        skills_dir: join_path(app_data_dir, "skills"),
    }
}

/// `prefix` opens `s`.
pub open spec fn starts_with(s: Seq<char>, prefix: Seq<char>) -> bool {
    prefix.len() <= s.len() && s.subrange(0, prefix.len() as int) == prefix
}

/// Every data location in the environment starts with the one base
/// directory, and is absolute whenever that directory is — for any directory
/// text at all, spaces and non-ASCII characters included.
pub proof fn lemma_environment_rooted(cfg: EnvironmentConfig, base: Seq<char>)
    requires
        cfg.rooted_under(base),
    ensures
        starts_with(cfg.app_data@, base),
        starts_with(cfg.chats_db@, base),
        starts_with(cfg.lancedb_uri@, base),
        starts_with(cfg.sandbox_data@, base),
        starts_with(cfg.skills_dir@, base),
        base.len() > 0 && base[0] == '/' ==> cfg.app_data@[0] == '/' && cfg.chats_db@[0] == '/'
            && cfg.lancedb_uri@[0] == '/' && cfg.sandbox_data@[0] == '/' && cfg.skills_dir@[0]
            == '/',
{
    assert(cfg.app_data@.subrange(0, base.len() as int) =~= base);
    assert(cfg.chats_db@.subrange(0, base.len() as int) =~= base);
    assert(cfg.lancedb_uri@.subrange(0, base.len() as int) =~= base);
    assert(cfg.sandbox_data@.subrange(0, base.len() as int) =~= base);
    assert(cfg.skills_dir@.subrange(0, base.len() as int) =~= base);
}

/// The path of the bundled backend executable: `binaries/suzent-backend`
/// under the shell's resource directory, with the executable suffix on a
/// Windows target.
pub fn backend_executable_path(resource_dir: &str, windows_exe_suffix: bool) -> (p: String)
    ensures
        p@ == joined(
            joined(resource_dir@, "binaries"@),
            if windows_exe_suffix {
                "suzent-backend.exe"@
            } else {
                "suzent-backend"@
            },
        ),
{
    let dir = join_path(resource_dir, "binaries");
    if windows_exe_suffix {
        join_path(dir.as_str(), "suzent-backend.exe")
    } else {
        join_path(dir.as_str(), "suzent-backend")
    }
}

} // verus!
