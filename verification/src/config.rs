//! Configuration: the sources of documentation, the scripts used by the deploy and upgrade
//! tools, the setup options, their defaults and their validation.
//! Paths are held as strings.
use vstd::prelude::*;
use vstd::string::*;
use crate::text::string_push_str;

verus! {

/// Owner of the repository whose releases carry the prebuilt artifacts.
pub const GITHUB_REPO_OWNER: &'static str = "metacontract";

/// Name of the repository whose releases carry the prebuilt artifacts.
pub const GITHUB_REPO_NAME: &'static str = "mc-mcp";

/// File name of the prebuilt documentation index.
pub const PREBUILT_INDEX_FILENAME: &'static str = "prebuilt_index.jsonl.gz";

/// File name of the documentation archive.
pub const DOCS_ARCHIVE_FILENAME: &'static str = "docs.tar.gz";

/// The download URL of an asset of the latest release of a GitHub repository.
pub open spec fn release_download_url(owner: Seq<char>, repo: Seq<char>, asset: Seq<char>) -> Seq<
    char,
> {
    "https://github.com/"@ + owner + "/"@ + repo + "/releases/latest/download/"@ + asset
}

/// Builds the download URL of an asset of the latest release of a GitHub repository:
/// `https://github.com/{owner}/{repo}/releases/latest/download/{asset_name}`.
pub fn get_latest_release_download_url(owner: &str, repo: &str, asset_name: &str) -> (url: String)
    ensures
        url@ == release_download_url(owner@, repo@, asset_name@),
{
    let mut url = String::new();
    string_push_str(&mut url, "https://github.com/");
    string_push_str(&mut url, owner);
    string_push_str(&mut url, "/");
    string_push_str(&mut url, repo);
    string_push_str(&mut url, "/releases/latest/download/");
    string_push_str(&mut url, asset_name);
    url
}

/// Where a documentation source lives.
#[derive(Clone, Copy, Debug, PartialEq, Eq, Structural)]
pub enum SourceType {
    /// A directory on the local file system.
    Local,
    /// A GitHub repository.
    Github,
}

/// A source of documentation to index.
#[derive(Clone, Debug)]
pub struct DocumentSource {
    /// Identifier of the source (e.g. "mc-docs").
    pub name: String,
    /// Kind of the source.
    pub source_type: SourceType,
    /// Directory of a local source, or path within the repository of a GitHub source.
    pub path: String,
    /// For a GitHub source: "owner/repo".
    pub repo: Option<String>,
    /// For a GitHub source: the branch.
    pub branch: Option<String>,
    /// For a GitHub source: the path within the repository.
    pub github_path: Option<String>,
}

/// Configuration of the reference (documentation search) service.
#[derive(Clone, Debug)]
pub struct ReferenceConfig {
    /// Sources to index.
    pub sources: Vec<DocumentSource>,
    /// Where the prebuilt index is kept.
    pub prebuilt_index_path: Option<String>,
    /// Where the documentation archive is kept.
    pub docs_archive_path: Option<String>,
    /// Where the embedding model is cached.
    pub embedding_cache_dir: Option<String>,
}

/// A file name appended to a directory, as `Path::join` does for a relative file name:
/// a `/` separates the two unless the directory is empty or already ends with one.
pub open spec fn join_path(dir: Seq<char>, name: Seq<char>) -> Seq<char> {
    if dir.len() == 0 {
        name
    } else if dir.last() == '/' {
        dir + name
    } else {
        dir + "/"@ + name
    }
}

/// Appends a relative file name to a directory path.
pub fn path_join(dir: &str, name: &str) -> (path: String)
    ensures
        path@ == join_path(dir@, name@),
{
    let mut path = String::new();
    string_push_str(&mut path, dir);
    let v = crate::text::chars_of(dir);
    if v.len() > 0 && v[v.len() - 1] != '/' {
        string_push_str(&mut path, "/");
    }
    string_push_str(&mut path, name);
    path
}

/// Joins a file name to a directory, when there is one.
fn join_opt(dir: &Option<String>, name: &str) -> (path: Option<String>)
    ensures
        path is Some == dir is Some,
        dir matches Some(d) ==> path->0@ == join_path(d@, name@),
{
    match dir {
        Some(d) => Some(path_join(d.as_str(), name)),
        None => None,
    }
}

/// The project's cache directory (`ProjectDirs::from("xyz", "ecdysis", "mc-mcp")` of the
/// `directories` crate, then its `cache_dir`), as a string.
/// It depends on the environment (the home directory, `XDG_CACHE_HOME`) and is `None` when no
/// home directory can be found; nothing is stated of its value.
#[verifier::external_body]
fn project_cache_dir() -> (dir: Option<String>) {
    match directories::ProjectDirs::from("xyz", "ecdysis", "mc-mcp") {
        Some(dirs) => Some(dirs.cache_dir().to_string_lossy().to_string()),
        None => None,
    }
}

impl ReferenceConfig {
    /// The default reference configuration for a given cache directory: no sources, and the
    /// prebuilt index, the documentation archive and the embedding cache all in that directory.
    pub open spec fn defaults_in(cache_dir: Option<Seq<char>>) -> (Seq<DocumentSource>, Option<
        Seq<char>,
    >, Option<Seq<char>>, Option<Seq<char>>) {
        match cache_dir {
            Some(d) => (
                seq![],
                Some(join_path(d, PREBUILT_INDEX_FILENAME@)),
                Some(join_path(d, DOCS_ARCHIVE_FILENAME@)),
                Some(d),
            ),
            None => (seq![], None, None, None),
        }
    }

    /// The view of the configuration's sources and paths.
    pub open spec fn paths(&self) -> (Seq<DocumentSource>, Option<Seq<char>>, Option<Seq<char>>, Option<
        Seq<char>,
    >) {
        (
            self.sources@,
            opt_view(self.prebuilt_index_path),
            opt_view(self.docs_archive_path),
            opt_view(self.embedding_cache_dir),
        )
    }

    /// The default reference configuration for the given cache directory.
    pub fn with_cache_dir(cache_dir: Option<String>) -> (config: ReferenceConfig)
        ensures
            config.paths() == ReferenceConfig::defaults_in(opt_view(cache_dir)),
    {
        let prebuilt_index_path = join_opt(&cache_dir, PREBUILT_INDEX_FILENAME);
        let docs_archive_path = join_opt(&cache_dir, DOCS_ARCHIVE_FILENAME);
        ReferenceConfig {
            sources: Vec::new(),
            prebuilt_index_path,
            docs_archive_path,
            embedding_cache_dir: cache_dir,
        }
    }
}

/// The view of an optional string.
pub open spec fn opt_view(s: Option<String>) -> Option<Seq<char>> {
    match s {
        Some(x) => Some(x@),
        None => None,
    }
}

impl Default for ReferenceConfig {
    /// The default reference configuration: no sources; the prebuilt index, the documentation
    /// archive and the embedding cache in the project's cache directory, when there is one.
    fn default() -> (config: ReferenceConfig)
        ensures
            config.paths() == ReferenceConfig::defaults_in(opt_view(config.embedding_cache_dir)),
    {
        ReferenceConfig::with_cache_dir(project_cache_dir())
    }
}

/// Scripts used by the deploy and upgrade tools.
#[derive(Clone, Debug)]
pub struct ScriptsConfig {
    /// Path to the script used by the `mc_deploy` tool.
    pub deploy: Option<String>,
    /// Path to the script used by the `mc_upgrade` tool.
    pub upgrade: Option<String>,
    /// RPC URL used when broadcasting.
    pub rpc_url: Option<String>,
    /// Name of the environment variable holding the private key used when broadcasting.
    pub private_key_env_var: Option<String>,
}

impl Default for ScriptsConfig {
    /// No scripts and no broadcast settings.
    fn default() -> (config: ScriptsConfig)
        ensures
            config.deploy is None,
            config.upgrade is None,
            config.rpc_url is None,
            config.private_key_env_var is None,
    {
        ScriptsConfig { deploy: None, upgrade: None, rpc_url: None, private_key_env_var: None }
    }
}

/// Setup options.
#[derive(Clone, Copy, Debug)]
pub struct SetupConfig {
    /// If true, setup proceeds even when the directory is not empty.
    pub force: bool,
}

impl Default for SetupConfig {
    /// Setup does not force.
    fn default() -> (config: SetupConfig)
        ensures
            !config.force,
    {
        SetupConfig { force: false }
    }
}

/// The whole configuration.
#[derive(Clone, Debug)]
pub struct McpConfig {
    /// Reference service configuration.
    pub reference: ReferenceConfig,
    /// Scripts configuration.
    pub scripts: ScriptsConfig,
    /// Setup configuration.
    pub setup: SetupConfig,
}

impl Default for McpConfig {
    /// The default configuration of each section.
    fn default() -> (config: McpConfig)
        ensures
            config.reference.paths() == ReferenceConfig::defaults_in(
                opt_view(config.reference.embedding_cache_dir),
            ),
            config.scripts.deploy is None,
            config.scripts.upgrade is None,
            config.scripts.rpc_url is None,
            config.scripts.private_key_env_var is None,
            !config.setup.force,
    {
        McpConfig {
            reference: ReferenceConfig::default(),
            scripts: ScriptsConfig::default(),
            setup: SetupConfig::default(),
        }
    }
}

/// Whether an optional path is present but empty.
pub open spec fn is_empty_path(p: Option<String>) -> bool {
    p matches Some(s) && s@.len() == 0
}

fn option_is_empty_path(p: &Option<String>) -> (b: bool)
    ensures
        b == is_empty_path(*p),
{
    match p {
        Some(s) => s.as_str().is_empty(),
        None => false,
    }
}

/// Validates a configuration: a configured prebuilt index path or documentation archive
/// path must not be empty.
pub fn validate_config(config: &McpConfig) -> (result: Result<(), String>)
    ensures
        result is Ok <==> !is_empty_path(config.reference.prebuilt_index_path) && !is_empty_path(
            config.reference.docs_archive_path,
        ),
        result matches Err(m) ==> m@ == (if is_empty_path(config.reference.prebuilt_index_path) {
            "Configured prebuilt_index_path cannot be empty"@
        } else {
            "Configured docs_archive_path cannot be empty"@
        }),
{
    if option_is_empty_path(&config.reference.prebuilt_index_path) {
        return Err("Configured prebuilt_index_path cannot be empty".to_string());
    }
    if option_is_empty_path(&config.reference.docs_archive_path) {
        return Err("Configured docs_archive_path cannot be empty".to_string());
    }
    Ok(())
}

} // verus!
