//! Configuration of the search backend connection and of the projects whose
//! directory trees are indexed. Loaded once at process start and immutable
//! afterwards; the scheduler owns the project definitions for the process
//! lifetime.

use vstd::prelude::*;

verus! {

use crate::decimal::{spec_dec_digits, u64_to_dec};

/// The text of a boolean, as the standard formatter writes it.
pub open spec fn spec_bool_str(b: bool) -> Seq<char> {
    if b {
        "true"@
    } else {
        "false"@
    }
}

/// Renders a boolean.
pub fn bool_to_str(b: bool) -> (s: &'static str)
    ensures
        s@ == spec_bool_str(b),
{
    if b {
        "true"
    } else {
        "false"
    }
}

/// Connection and startup parameters of the search backend.
#[derive(Clone, Debug)]
pub struct MeiliSearchConfig {
    pub meilisearch_url: String,
    pub meilisearch_api_key: String,
    pub meilisearch_index_name: String,
    pub meilisearch_bin_path: String,
    pub meilisearch_db_path: String,
    pub meilisearch_telemetry: bool,
}

/// The mathematical view of a `MeiliSearchConfig`.
pub struct MeiliSearchConfigView {
    pub meilisearch_url: Seq<char>,
    pub meilisearch_api_key: Seq<char>,
    pub meilisearch_index_name: Seq<char>,
    pub meilisearch_bin_path: Seq<char>,
    pub meilisearch_db_path: Seq<char>,
    pub meilisearch_telemetry: bool,
}

impl View for MeiliSearchConfig {
    type V = MeiliSearchConfigView;

    open spec fn view(&self) -> MeiliSearchConfigView {
        MeiliSearchConfigView {
            meilisearch_url: self.meilisearch_url@,
            meilisearch_api_key: self.meilisearch_api_key@,
            meilisearch_index_name: self.meilisearch_index_name@,
            meilisearch_bin_path: self.meilisearch_bin_path@,
            meilisearch_db_path: self.meilisearch_db_path@,
            meilisearch_telemetry: self.meilisearch_telemetry,
        }
    }
}

/// The summary of a backend configuration, one setting per line, with the
/// API key masked.
pub open spec fn spec_meili_describe(c: MeiliSearchConfigView) -> Seq<char> {
    "Meilisearch Configuration:\n  URL: "@ + c.meilisearch_url
        + "\n  API Key: **hidden**\n  Binary Path: "@ + c.meilisearch_bin_path
        + "\n  Database Path: "@ + c.meilisearch_db_path + "\n  Telemetry: "@ + spec_bool_str(
        c.meilisearch_telemetry,
    ) + "\n"@
}

impl MeiliSearchConfig {
    /// Writes the configuration out for logging, masking the API key.
    pub fn describe(&self) -> (s: String)
        ensures
            s@ == spec_meili_describe(self@),
    {
        let mut s: String = "Meilisearch Configuration:\n  URL: ".to_owned();
        s.append(self.meilisearch_url.as_str());
        s.append("\n  API Key: **hidden**\n  Binary Path: ");
        s.append(self.meilisearch_bin_path.as_str());
        s.append("\n  Database Path: ");
        s.append(self.meilisearch_db_path.as_str());
        s.append("\n  Telemetry: ");
        s.append(bool_to_str(self.meilisearch_telemetry));
        s.append("\n");
        proof {
            assert(s@ =~= spec_meili_describe(self@));
        }
        s
    }
}

/// One project: a root directory to walk on a cron schedule, with its
/// traversal policy and its unique identity in the shared index.
#[derive(Clone, Debug)]
pub struct ProjectConfig {
    pub root: String,
    pub crontab: String,
    pub max_depth: usize,
    pub custom_ignore_rule_file: Option<String>,
    pub index_hidden: bool,
    pub follow_symlinks: bool,
    pub id: String,
}

/// The mathematical view of a `ProjectConfig`.
pub struct ProjectConfigView {
    pub root: Seq<char>,
    pub crontab: Seq<char>,
    pub max_depth: nat,
    pub custom_ignore_rule_file: Option<Seq<char>>,
    pub index_hidden: bool,
    pub follow_symlinks: bool,
    pub id: Seq<char>,
}

/// The view of an optional owned string.
pub open spec fn opt_str_view(o: Option<String>) -> Option<Seq<char>> {
    match o {
        Some(s) => Some(s@),
        None => None,
    }
}

impl View for ProjectConfig {
    type V = ProjectConfigView;

    open spec fn view(&self) -> ProjectConfigView {
        ProjectConfigView {
            root: self.root@,
            crontab: self.crontab@,
            max_depth: self.max_depth as nat,
            custom_ignore_rule_file: opt_str_view(self.custom_ignore_rule_file),
            index_hidden: self.index_hidden,
            follow_symlinks: self.follow_symlinks,
            id: self.id@,
        }
    }
}

/// The summary of a project configuration, one setting per line, the root
/// quoted, without a trailing line break.
pub open spec fn spec_project_describe(p: ProjectConfigView) -> Seq<char> {
    "Project Configuration:\n  Root Directory: \""@ + p.root + "\"\n  Schedule: "@ + p.crontab
        + "\n  Max Depth(0 for infinitive depth): "@ + spec_dec_digits(p.max_depth) + (
    "\n  Extra Ignore-rules File: "@) + (match p.custom_ignore_rule_file {
        Some(f) => f,
        None => "none"@,
    }) + "\n  Index Hidden File/Folders: "@ + spec_bool_str(p.index_hidden) + (
    "\n  Follow Symlinks: "@) + spec_bool_str(p.follow_symlinks)
}

impl ProjectConfig {
    /// Writes the project definition out for logging.
    pub fn describe(&self) -> (s: String)
        ensures
            s@ == spec_project_describe(self@),
    {
        let mut s: String = "Project Configuration:\n  Root Directory: \"".to_owned();
        s.append(self.root.as_str());
        s.append("\"\n  Schedule: ");
        s.append(self.crontab.as_str());
        s.append("\n  Max Depth(0 for infinitive depth): ");
        let depth = u64_to_dec(self.max_depth as u64);
        s.append(depth.as_str());
        s.append("\n  Extra Ignore-rules File: ");
        match &self.custom_ignore_rule_file {
            Some(f) => s.append(f.as_str()),
            None => s.append("none"),
        }
        s.append("\n  Index Hidden File/Folders: ");
        s.append(bool_to_str(self.index_hidden));
        s.append("\n  Follow Symlinks: ");
        s.append(bool_to_str(self.follow_symlinks));
        proof {
            assert(s@ =~= spec_project_describe(self@));
        }
        s
    }
}

/// The whole configuration: one backend, any number of projects.
#[derive(Clone, Debug)]
pub struct Config {
    pub meilisearch: MeiliSearchConfig,
    pub projects: Vec<ProjectConfig>,
}

/// The mathematical view of a `Config`.
pub struct ConfigView {
    pub meilisearch: MeiliSearchConfigView,
    pub projects: Seq<ProjectConfigView>,
}

impl View for Config {
    type V = ConfigView;

    open spec fn view(&self) -> ConfigView {
        ConfigView {
            meilisearch: self.meilisearch@,
            projects: self.projects@.map_values(|p: ProjectConfig| p@),
        }
    }
}

/// The project summaries, one after the other, each on its own block and
/// followed by a line break.
pub open spec fn spec_projects_block(ps: Seq<ProjectConfigView>) -> Seq<char>
    decreases ps.len(),
{
    if ps.len() == 0 {
        Seq::empty()
    } else {
        spec_projects_block(ps.drop_last()) + spec_project_describe(ps.last()) + "\n"@
    }
}

/// The summary of the whole configuration: the backend block, then every
/// project block, or a placeholder when no project is configured.
pub open spec fn spec_config_describe(c: ConfigView) -> Seq<char> {
    spec_meili_describe(c.meilisearch) + "\nProjects:\n"@ + spec_projects_block(c.projects) + (
    if c.projects.len() == 0 {
        "No Projects\n\n"@
    } else {
        Seq::<char>::empty()
    })
}

impl Config {
    /// Writes the whole configuration out for logging.
    pub fn describe(&self) -> (s: String)
        ensures
            s@ == spec_config_describe(self@),
    {
        let ghost pv = self@.projects;
        let mut s = self.meilisearch.describe();
        s.append("\nProjects:\n");
        let ghost header = s@;
        let mut i: usize = 0;
        proof {
            assert(pv.take(0) =~= Seq::<ProjectConfigView>::empty());
        }
        while i < self.projects.len()
            invariant
                i <= self.projects@.len(),
                pv == self@.projects,
                header == spec_meili_describe(self@.meilisearch) + "\nProjects:\n"@,
                s@ == header + spec_projects_block(pv.take(i as int)),
            decreases self.projects@.len() - i,
        {
            let p = &self.projects[i];
            let block = p.describe();
            s.append(block.as_str());
            s.append("\n");
            i = i + 1;
            proof {
                assert(pv.take(i as int).drop_last() =~= pv.take(i - 1));
                assert(pv.take(i as int).last() == self.projects@[i - 1]@);
                assert(s@ =~= header + spec_projects_block(pv.take(i as int)));
            }
        }
        if self.projects.len() == 0 {
            s.append("No Projects\n\n");
        }
        proof {
            assert(pv.take(self.projects@.len() as int) =~= pv);
            assert(s@ =~= spec_config_describe(self@));
        }
        s
    }
}

/// Default backend binary path: empty, meaning "do not start a backend".
pub fn default_meilisearch_bin_path() -> (r: String)
    ensures
        r@ == ""@,
        r@.len() == 0,
{
    proof {
        reveal_strlit("");
    }
    String::new()
}

/// Default backend database path: empty, meaning the working directory.
pub fn default_meilisearch_db_path() -> (r: String)
    ensures
        r@ == ""@,
        r@.len() == 0,
{
    proof {
        reveal_strlit("");
    }
    String::new()
}

/// Telemetry is on unless the configuration switches it off.
pub fn default_meilisearch_telemetry() -> (r: bool)
    ensures
        r == true,
{
    true
}

/// Depth 0 stands for unbounded recursion.
pub fn default_maxdepth() -> (r: usize)
    ensures
        r == 0,
{
    0
}

/// No extra ignore-rule file unless one is configured.
pub fn default_custom_ignore_rule_file() -> (r: Option<String>)
    ensures
        r is None,
{
    None
}

/// Hidden entries are left out unless the configuration asks for them.
pub fn default_index_hidden() -> (r: bool)
    ensures
        r == false,
{
    false
}

/// Symbolic links are visited as leaves unless following is enabled.
pub fn default_follow_symlinks() -> (r: bool)
    ensures
        r == false,
{
    false
}

} // verus!
