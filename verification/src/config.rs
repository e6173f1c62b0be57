//! What an operator configures: where the repositories are and how they are
//! shown.

use crate::utils::error::Error;
use crate::utils::error::ErrorKind;
use crate::utils::paths::canonicalize;
use vstd::prelude::*;

verus! {

#[derive(Debug, Clone)]
pub struct Config {
    /// The port the server will listen on
    pub port: u16,
    /// Directory to find git repos
    pub project_root: String,
    /// The text shown in a browsers title bar
    pub site_name: String,
    /// File to check for in the .git directory to decide wether to publicly show a repo
    pub export_ok: String,
    /// Base URL to clone repositories from (without trailing slash)
    pub clone_base: String,
    /// Number of commits to be shown when paginating the log
    pub log_per_page: usize,
}

/// A `Config` as contracts see it.
pub struct ConfigView {
    pub port: u16,
    pub project_root: Seq<char>,
    pub site_name: Seq<char>,
    pub export_ok: Seq<char>,
    pub clone_base: Seq<char>,
    pub log_per_page: usize,
}

impl View for Config {
    type V = ConfigView;

    open spec fn view(&self) -> ConfigView {
        ConfigView {
            port: self.port,
            project_root: self.project_root@,
            site_name: self.site_name@,
            export_ok: self.export_ok@,
            clone_base: self.clone_base@,
            log_per_page: self.log_per_page,
        }
    }
}

/// The configuration of a server that was told nothing.
pub open spec fn default_view() -> ConfigView {
    ConfigView {
        port: 80,
        project_root: "./repos"@,
        site_name: "bile"@,
        export_ok: "git-daemon-export-ok"@,
        clone_base: Seq::empty(),
        log_per_page: 100,
    }
}

impl Config {
    /// This configuration with `root` as its project root.
    pub fn rooted_at(self, root: String) -> (res: Config)
        ensures
            res@ == (ConfigView { project_root: root@, ..self@ }),
    {
        Config {
            port: self.port,
            project_root: root,
            site_name: self.site_name,
            export_ok: self.export_ok,
            clone_base: self.clone_base,
            log_per_page: self.log_per_page,
        }
    }

    /// Resolves the project root to its canonical path, so that the paths of
    /// repositories can be held against it. Fails where the root does not
    /// resolve; nothing but the root changes otherwise.
    pub fn finalize(self) -> (res: Result<Config, Error>)
        ensures
            match res {
                Ok(config) => config@ == (ConfigView { project_root: config@.project_root, ..self@ }),
                Err(error) => error@.kind == ErrorKind::Path && error@.contexts.len() == 0,
            },
    {
        match canonicalize(self.project_root.as_str()) {
            Ok(root) => Ok(self.rooted_at(root)),
            Err(reason) => Err(Error::new(ErrorKind::Path, reason.as_str())),
        }
    }
}

impl Default for Config {
    fn default() -> (res: Config)
        ensures
            res@ == default_view(),
    {
        Config {
            port: default_port(),
            project_root: default_repo_directory(),
            site_name: default_site_name(),
            export_ok: default_export_ok(),
            clone_base: String::new(),
            log_per_page: default_log_per_page(),
        }
    }
}

/// The port the server listens on when none is configured.
pub fn default_port() -> (res: u16)
    ensures
        res == 80,
{
    80
}

/// The directory that is searched for repositories when none is configured.
pub fn default_repo_directory() -> (res: String)
    ensures
        res@ == "./repos"@,
{
    "./repos".to_owned()
}

/// The site name when none is configured.
pub fn default_site_name() -> (res: String)
    ensures
        res@ == "bile"@,
{
    "bile".to_owned()
}

/// The name of the file that marks a repository as public when none is
/// configured.
pub fn default_export_ok() -> (res: String)
    ensures
        res@ == "git-daemon-export-ok"@,
{
    "git-daemon-export-ok".to_owned()
}

/// The number of commits on one page of a log when none is configured.
pub fn default_log_per_page() -> (res: usize)
    ensures
        res == 100,
{
    100
}

} // verus!
