use vstd::prelude::*;

use crate::cli::AddParams;

verus! {

/// One dependency of a project, as one `[[dependencies]]` table of
/// `hyrax.toml` describes it.
#[derive(Clone, Debug)]
pub struct HyraxDependency {
    /// Friendly name of the dependency, used for bookkeeping.
    pub name: String,
    /// The git repository to install from.
    pub url: String,
    /// The folder or file of the repository that is wanted; the whole
    /// repository when absent.
    pub source: Option<String>,
    /// The path in the project where the dependency is installed.
    pub destination: String,
    /// The branch, tag or commit SHA wanted; empty until it is resolved.
    pub version: String,
    /// The commit that was actually installed, set by a sync.
    pub version_lock: Option<String>,
}

/// The view of an optional string: the optional sequence of its characters.
pub open spec fn opt_view(s: Option<String>) -> Option<Seq<char>> {
    match s {
        Some(t) => Some(t@),
        None => None,
    }
}

impl HyraxDependency {
    /// Builds the dependency that `hyrax add` records: the name, URL,
    /// destination and source of the parameters, their version or an empty
    /// one, and no version lock yet.
    pub fn from_params(params: AddParams) -> (dep: HyraxDependency)
        ensures
            dep.name@ == params.name@,
            dep.url@ == params.url@,
            dep.destination@ == params.destination@,
            opt_view(dep.source) == opt_view(params.source),
            dep.version@ == (match params.version {
                Some(v) => v@,
                None => Seq::<char>::empty(),
            }),
            dep.version_lock is None,
    {
        let version = match params.version {
            Some(v) => v,
            None => String::new(),
        };
        HyraxDependency {
            name: params.name,
            url: params.url,
            source: params.source,
            destination: params.destination,
            version,
            version_lock: None,
        }
    }

    /// Whether only a folder or file of the repository is installed, and not
    /// the whole repository.
    pub fn has_source_remap(&self) -> (b: bool)
        ensures
            b == self.source is Some,
    {
        self.source.is_some()
    }

    /// Whether the version has yet to be resolved to the repository's
    /// default branch.
    pub fn needs_default_branch(&self) -> (b: bool)
        ensures
            b == (self.version@.len() == 0),
    {
        self.version.as_str().is_empty()
    }
}

/// The whole of `hyrax.toml`: the dependencies of the project, in order.
#[derive(Clone, Debug)]
pub struct HyraxConfig {
    pub dependencies: Vec<HyraxDependency>,
}

impl Default for HyraxConfig {
    /// The configuration of a project without a `hyrax.toml`: no dependencies.
    fn default() -> (config: HyraxConfig)
        ensures
            config.dependencies@.len() == 0,
    {
        HyraxConfig { dependencies: Vec::new() }
    }
}

/// The path of the configuration file, relative to the project.
pub fn get_config_path() -> (path: String)
    ensures
        path@ == "hyrax.toml"@,
{
    String::from_str("hyrax.toml")
}

} // verus!
