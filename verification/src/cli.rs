use vstd::prelude::*;

verus! {

/// A parsed command line: the command to run and the options shared by all
/// commands.
#[derive(Clone, Debug)]
pub struct Root {
    pub command: Command,
    pub global_opts: GlobalOpts,
}

/// Options that every command accepts.
#[derive(Clone, Debug)]
pub struct GlobalOpts {
    /// The working directory for the command, relative or absolute
    /// (`.` when not given).
    pub dir: String,
    /// Whether debug logging is switched on.
    pub debug: bool,
}

/// Parameters of project initialisation.
#[derive(Clone, Debug)]
pub struct InitParams {
    /// Forcefully initialises the project.
    pub force: bool,
    /// The author of the project (`Your name` when not given).
    pub author: String,
    /// The name of the project (`Project name` when not given).
    pub name: String,
}

/// Parameters of project creation (there are none).
#[derive(Clone, Debug)]
pub struct NewParams {}

/// Parameters of `hyrax add`.
#[derive(Clone, Debug)]
pub struct AddParams {
    /// Friendly name for the dependency, used for bookkeeping.
    pub name: String,
    /// The git URL of the dependency.
    pub url: String,
    /// The path within the project where the dependency is installed.
    pub destination: String,
    /// The path within the dependency that is wanted; the whole repository
    /// when absent.
    pub source: Option<String>,
    /// The branch, tag or commit SHA wanted; the default branch when absent.
    pub version: Option<String>,
}

/// Parameters of `hyrax sync`.
#[derive(Clone, Debug)]
pub struct SyncParams {
    /// Skips the confirmation dialogues.
    pub force: bool,
    /// Installs the wanted version even where a version is locked.
    pub update: bool,
}

/// Parameters of `hyrax check` (there are none).
#[derive(Clone, Debug)]
pub struct CheckParams {}

/// The commands of the command line.
#[derive(Clone, Debug)]
pub enum Command {
    /// Test harness, for quickly running arbitrary code.
    Test {},
    /// Adds a dependency.
    Add(AddParams),
    /// Installs the dependencies.
    Sync(SyncParams),
    /// Tells whether the dependencies are up to date.
    Check(CheckParams),
}

} // verus!
