//! Where the settings file lives, and the configuration the scheduler runs with.

use vstd::prelude::*;
use vstd::string::*;

verus! {

/// Qualifier, organisation and application name under which the per-user
/// directories are looked up.
pub const QUALIFIER: &'static str = "";

pub const ORG: &'static str = "";

pub const APP: &'static str = "repo-sync";

/// Name of the settings file inside the configuration directory.
pub const SETTINGS_FILE: &'static str = "settings.toml";

/// A directory path with a relative file name appended, one `/` between. The
/// name is taken as relative: unlike a platform path join, a name that starts
/// with `/` is appended, not substituted for the directory.
pub open spec fn path_join(dir: Seq<char>, name: Seq<char>) -> Seq<char> {
    if dir.len() == 0 || dir.last() == '/' {
        dir + name
    } else {
        dir + seq!['/'] + name
    }
}

/// Relies on directories::ProjectDirs::from and ProjectDirs::config_dir: the
/// per-user configuration directory of the application, when a home directory
/// can be found. What comes back depends on the environment, so nothing is
/// promised of it beyond this: the directory is a base directory joined with
/// the project's path, so it is never empty. A path that is not valid UTF-8 is
/// reported as absent.
#[verifier::external_body]
fn project_config_dir(qualifier: &str, org: &str, app: &str) -> (r: Option<String>)
    ensures
        r matches Some(p) ==> p@.len() > 0,
{
    match directories::ProjectDirs::from(qualifier, org, app) {
        Some(dirs) => dirs.config_dir().to_str().map(|s| s.to_string()),
        None => None,
    }
}

/// The configuration directory of this application, if the platform has one.
pub fn get_global_config_path() -> (r: Option<String>)
    ensures
        r matches Some(p) ==> p@.len() > 0,
{
    project_config_dir(QUALIFIER, ORG, APP)
}

/// The relative name `name` appended to the directory `dir`, joined with `/`.
pub fn join_path(dir: &str, name: &str) -> (r: String)
    ensures
        r@ == path_join(dir@, name@),
{
    let mut r = String::from_str(dir);
    let n = dir.unicode_len();
    if n > 0 && dir.get_char(n - 1) != '/' {
        r.append("/");
        proof {
            reveal_strlit("/");
        }
    }
    r.append(name);
    r
}

/// The settings file inside the directory `dir`.
pub fn settings_file_in(dir: &str) -> (r: String)
    ensures
        r@ == path_join(dir@, SETTINGS_FILE@),
{
    join_path(dir, SETTINGS_FILE)
}

/// The settings file inside the application's configuration directory, if
/// the platform has one.
pub fn get_global_settings_file() -> (r: Option<String>)
    ensures
        r matches Some(p) ==> exists|d: Seq<char>| p@ == path_join(d, SETTINGS_FILE@),
{
    match get_global_config_path() {
        Some(dir) => {
            let p = settings_file_in(dir.as_str());
            Some(p)
        },
        None => None,
    }
}

/// What the scheduler runs with, fixed for the life of the process.
#[derive(Clone, Debug, PartialEq, Eq)]
pub struct SyncConfig {
    /// The working directory kept in step with its remote.
    pub repo_path: String,
    /// Quiet time after the last change before a push, in milliseconds.
    pub tpush_ms: u64,
    /// Time between two pulls, in milliseconds.
    pub tpull_ms: u64,
}

/// Values given on the command line, each replacing the configured one.
#[derive(Clone, Debug, PartialEq, Eq)]
pub struct SettingsArg {
    pub repo_path: Option<String>,
    pub tpush_ms: Option<u64>,
    pub tpull_ms: Option<u64>,
}

impl Default for SyncConfig {
    /// No repository, and one second for both periods.
    fn default() -> (r: SyncConfig)
        ensures
            r.repo_path@.len() == 0,
            r.tpush_ms == 1000,
            r.tpull_ms == 1000,
    {
        SyncConfig { repo_path: String::new(), tpush_ms: 1000, tpull_ms: 1000 }
    }
}

impl SyncConfig {
    /// Replaces each setting that the argument gives; keeps the others.
    pub fn merge_arg(&mut self, arg: SettingsArg)
        ensures
            final(self).repo_path == match arg.repo_path {
                Some(p) => p,
                None => old(self).repo_path,
            },
            final(self).tpush_ms == match arg.tpush_ms {
                Some(t) => t,
                None => old(self).tpush_ms,
            },
            final(self).tpull_ms == match arg.tpull_ms {
                Some(t) => t,
                None => old(self).tpull_ms,
            },
    {
        if let Some(repo_path) = arg.repo_path {
            self.repo_path = repo_path;
        }
        if let Some(tpush) = arg.tpush_ms {
            self.tpush_ms = tpush;
        }
        if let Some(tpull) = arg.tpull_ms {
            self.tpull_ms = tpull;
        }
    }
}

} // verus!
