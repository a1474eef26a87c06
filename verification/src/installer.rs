use vstd::prelude::*;

use crate::cli::{AddParams, SyncParams};
use crate::config::{opt_view, HyraxConfig, HyraxDependency};

verus! {

// ---------------------------------------------------------------------------
// Adding a dependency
// ---------------------------------------------------------------------------

/// Some dependency in `deps` is called `name`.
pub open spec fn has_name(deps: Seq<HyraxDependency>, name: Seq<char>) -> bool {
    exists|i: int| 0 <= i < deps.len() && #[trigger] deps[i].name@ == name
}

/// No two dependencies in `deps` share a name.
pub open spec fn names_unique(deps: Seq<HyraxDependency>) -> bool {
    forall|i: int, j: int|
        0 <= i < deps.len() && 0 <= j < deps.len() && i != j ==> #[trigger] deps[i].name@
            != #[trigger] deps[j].name@
}

/// Why a dependency could not be added.
pub enum AddError {
    /// A dependency of the same name is already in the configuration.
    AlreadyExists,
}

impl AddError {
    /// The message that reports the error to the user.
    pub fn message(&self) -> (s: String)
        ensures
            s@ == "This dependency already exists."@,
    {
        match self {
            AddError::AlreadyExists => String::from_str("This dependency already exists."),
        }
    }
}

/// Whether the configuration already holds a dependency called `name`.
pub fn contains_dependency(config: &HyraxConfig, name: &String) -> (b: bool)
    ensures
        b == has_name(config.dependencies@, name@),
{
    let n = config.dependencies.len();
    let mut i: usize = 0;
    while i < n
        invariant
            n == config.dependencies@.len(),
            i <= n,
            forall|k: int| 0 <= k < i ==> (#[trigger] config.dependencies@[k]).name@ != name@,
        decreases n - i,
    {
        if config.dependencies[i].name == *name {
            return true;
        }
        i = i + 1;
    }
    false
}

/// The first half of `hyrax add`: refuses a name that is already taken, and
/// otherwise builds the dependency that the parameters describe (whose
/// version may still have to be resolved to the default branch).
pub fn prepare_add(config: &HyraxConfig, params: AddParams) -> (r: Result<
    HyraxDependency,
    AddError,
>)
    ensures
        r is Err <==> has_name(config.dependencies@, params.name@),
        r matches Ok(dep) ==> {
            &&& dep.name@ == params.name@
            &&& dep.url@ == params.url@
            &&& dep.destination@ == params.destination@
            &&& opt_view(dep.source) == opt_view(params.source)
            &&& dep.version@ == (match params.version {
                Some(v) => v@,
                None => Seq::<char>::empty(),
            })
            &&& dep.version_lock is None
        },
{
    if contains_dependency(config, &params.name) {
        return Err(AddError::AlreadyExists);
    }
    Ok(HyraxDependency::from_params(params))
}

/// Records a new dependency at the end of the configuration, unless one of
/// the same name is already there, in which case nothing changes.
/// Names stay unique.
pub fn add(config: &mut HyraxConfig, dependency: HyraxDependency) -> (r: Result<(), AddError>)
    ensures
        r is Err <==> has_name(old(config).dependencies@, dependency.name@),
        r is Err ==> final(config).dependencies@ == old(config).dependencies@,
        r is Ok ==> final(config).dependencies@ == old(config).dependencies@.push(dependency),
        names_unique(old(config).dependencies@) ==> names_unique(final(config).dependencies@),
{
    if contains_dependency(config, &dependency.name) {
        return Err(AddError::AlreadyExists);
    }
    config.dependencies.push(dependency);
    proof {
        let before = old(config).dependencies@;
        let deps = config.dependencies@;
        assert(deps == before.push(dependency));
        if names_unique(before) {
            assert forall|i: int, j: int|
                0 <= i < deps.len() && 0 <= j < deps.len() && i != j implies #[trigger] deps[i].name@
                != #[trigger] deps[j].name@ by {
                if i < before.len() && j < before.len() {
                    assert(deps[i] == before[i] && deps[j] == before[j]);
                } else if i < before.len() {
                    assert(deps[i] == before[i]);
                    assert(before[i].name@ != dependency.name@);
                } else {
                    assert(deps[j] == before[j]);
                    assert(before[j].name@ != dependency.name@);
                }
            }
        }
    }
    Ok(())
}

// ---------------------------------------------------------------------------
// Telling what kind of version a name is
// ---------------------------------------------------------------------------

/// What a version string names in a repository.
#[derive(PartialEq, Eq, Structural, Clone, Copy, Debug)]
pub enum VersionType {
    SHA,
    Branch,
    Tag,
    Unknown,
}

/// Classifies a version from what the repository says of it: a tag first,
/// then a branch, then a commit, and otherwise unknown.
pub fn get_version_type(is_tag: bool, is_branch: bool, is_commit_sha: bool) -> (t: VersionType)
    ensures
        t == (if is_tag {
            VersionType::Tag
        } else if is_branch {
            VersionType::Branch
        } else if is_commit_sha {
            VersionType::SHA
        } else {
            VersionType::Unknown
        }),
{
    if is_tag {
        VersionType::Tag
    } else if is_branch {
        VersionType::Branch
    } else if is_commit_sha {
        VersionType::SHA
    } else {
        VersionType::Unknown
    }
}

/// The reference of the tag called `version`.
pub fn tag_reference(version: &str) -> (r: String)
    ensures
        r@ == "refs/tags/"@ + version@,
{
    let mut r = String::from_str("refs/tags/");
    r.append(version);
    r
}

/// The reference of the branch called `version`.
pub fn branch_reference(version: &str) -> (r: String)
    ensures
        r@ == "refs/heads/"@ + version@,
{
    let mut r = String::from_str("refs/heads/");
    r.append(version);
    r
}

/// A hexadecimal digit, in either case.
pub open spec fn is_hex_digit(c: char) -> bool {
    ('0' <= c && c <= '9') || ('a' <= c && c <= 'f') || ('A' <= c && c <= 'F')
}

/// The value of a hexadecimal digit.
pub open spec fn hex_value(c: char) -> int {
    if '0' <= c && c <= '9' {
        c as int - '0' as int
    } else if 'a' <= c && c <= 'f' {
        c as int - 'a' as int + 10
    } else {
        c as int - 'A' as int + 10
    }
}

/// Text that git reads as an object id: one to forty hexadecimal digits.
pub open spec fn is_object_id_text(s: Seq<char>) -> bool {
    &&& 1 <= s.len() <= 40
    &&& forall|i: int| 0 <= i < s.len() ==> is_hex_digit(#[trigger] s[i])
}

/// The digit at position `p` of an object id's text, zero past its end.
pub open spec fn nibble_at(s: Seq<char>, p: int) -> int {
    if p < s.len() {
        hex_value(s[p])
    } else {
        0
    }
}

/// The twenty bytes of the object id that `s` spells, high digit first,
/// missing digits taken as zero.
pub open spec fn object_id_bytes(s: Seq<char>) -> Seq<u8> {
    Seq::new(20, |k: int| (nibble_at(s, 2 * k) * 16 + nibble_at(s, 2 * k + 1)) as u8)
}

/// Parses `s` as a SHA-1 object id with `git2::Oid::from_str`, and hands out
/// its bytes. The claim: it succeeds exactly on one to forty hexadecimal
/// digits, and the bytes are those digits read in pairs, padded with zeros.
#[verifier::external_body]
fn parse_object_id(s: &str) -> (r: Option<Vec<u8>>)
    ensures
        r is Some <==> is_object_id_text(s@),
        r matches Some(b) ==> b@ == object_id_bytes(s@),
{
    match git2::Oid::from_str(s) {
        Ok(oid) => Some(oid.as_bytes().to_vec()),
        Err(_) => None,
    }
}

/// What the repository must be asked to classify a version.
pub struct VersionQuery {
    /// The reference that exists when the version is a tag.
    pub tag_ref: String,
    /// The reference that exists when the version is a branch.
    pub branch_ref: String,
    /// The object that must be a commit when the version is a commit SHA;
    /// absent when the version cannot be an object id.
    pub commit_id: Option<Vec<u8>>,
}

/// Builds the lookups that tell whether `version` is a tag, a branch or a
/// commit of a repository.
pub fn version_query(version: &str) -> (q: VersionQuery)
    ensures
        q.tag_ref@ == "refs/tags/"@ + version@,
        q.branch_ref@ == "refs/heads/"@ + version@,
        q.commit_id is Some <==> is_object_id_text(version@),
        q.commit_id matches Some(b) ==> b@ == object_id_bytes(version@),
{
    VersionQuery {
        tag_ref: tag_reference(version),
        branch_ref: branch_reference(version),
        commit_id: parse_object_id(version),
    }
}

// ---------------------------------------------------------------------------
// Checking a dependency
// ---------------------------------------------------------------------------

/// What the user is told of one dependency by `hyrax check`.
pub enum CheckReport {
    /// No version lock is recorded, so the dependency is likely not
    /// installed.
    NotInstalled,
    /// The installed commit is the one the repository offers.
    UpToDate,
    /// The repository offers another commit than the installed one.
    Stale { installed: String, available: String },
}

/// What the front end has learnt, at each step of checking a dependency.
pub enum CheckEvent {
    /// The repository has been cloned.
    Cloned,
    /// The installed version has been classified (as a tag, branch, commit
    /// or unknown); whatever it is, the check goes on to compare commits.
    Classified(VersionType),
    /// The repository's current commit has been read.
    AvailableIs(String),
}

/// What the front end must do next when checking a dependency.
pub enum CheckAction {
    /// Classify the installed version with these lookups, then report
    /// `Classified`.
    Classify(VersionQuery),
    /// Read the repository's current commit, then report `AvailableIs`.
    ReadAvailable,
    /// Tell the user and stop.
    Report(CheckReport),
}

/// The gist of a report, without the versions it quotes.
#[derive(PartialEq, Eq, Structural, Clone, Copy, Debug)]
pub enum CheckVerdict {
    NotInstalled,
    UpToDate,
    Stale,
}

/// The gist of a report.
pub open spec fn report_verdict(report: CheckReport) -> CheckVerdict {
    match report {
        CheckReport::NotInstalled => CheckVerdict::NotInstalled,
        CheckReport::UpToDate => CheckVerdict::UpToDate,
        CheckReport::Stale { .. } => CheckVerdict::Stale,
    }
}

/// The kind of a step of `hyrax check`, with the gist of its report.
#[derive(PartialEq, Eq, Structural, Clone, Copy, Debug)]
pub enum CheckStep {
    Classify,
    ReadAvailable,
    Report(CheckVerdict),
}

/// The kind of an action.
pub open spec fn action_step(action: CheckAction) -> CheckStep {
    match action {
        CheckAction::Classify(_) => CheckStep::Classify,
        CheckAction::ReadAvailable => CheckStep::ReadAvailable,
        CheckAction::Report(report) => CheckStep::Report(report_verdict(report)),
    }
}

/// What a check reports of a dependency once the repository's current
/// commit `available` is known: up to date exactly when the lock names it.
pub open spec fn verdict_on_available(dependency: HyraxDependency, available: Seq<char>) -> CheckVerdict {
    match dependency.version_lock {
        None => CheckVerdict::NotInstalled,
        Some(lock) => if lock@ == available {
            CheckVerdict::UpToDate
        } else {
            CheckVerdict::Stale
        },
    }
}

/// The step that follows `event` when checking `dependency`: without a lock
/// it is reported not installed; with one, a clone leads to classifying the
/// lock, a classification of any kind to reading the repository's current
/// commit, and that commit to the verdict of comparing it with the lock.
pub open spec fn check_step(dependency: HyraxDependency, event: CheckEvent) -> CheckStep {
    match dependency.version_lock {
        None => CheckStep::Report(CheckVerdict::NotInstalled),
        Some(_) => match event {
            CheckEvent::Cloned => CheckStep::Classify,
            CheckEvent::Classified(_) => CheckStep::ReadAvailable,
            CheckEvent::AvailableIs(available) => CheckStep::Report(
                verdict_on_available(dependency, available@),
            ),
        },
    }
}

/// Decides the next step of `hyrax check` for one dependency.
pub fn check_dependency(dependency: &HyraxDependency, event: CheckEvent) -> (action: CheckAction)
    ensures
        action_step(action) == check_step(*dependency, event),
        dependency.version_lock matches Some(lock) ==> (event matches CheckEvent::AvailableIs(a)
            ==> {
            &&& lock@ == a@ ==> action == CheckAction::Report(CheckReport::UpToDate)
            &&& lock@ != a@ ==> action matches CheckAction::Report(CheckReport::Stale { .. })
        }),
        dependency.version_lock matches Some(lock) ==> {
            &&& (action matches CheckAction::Classify(q) ==> {
                &&& q.tag_ref@ == "refs/tags/"@ + lock@
                &&& q.branch_ref@ == "refs/heads/"@ + lock@
                &&& (q.commit_id is Some <==> is_object_id_text(lock@))
                &&& (q.commit_id matches Some(b) ==> b@ == object_id_bytes(lock@))
            })
            &&& (event matches CheckEvent::AvailableIs(available) ==> (action matches CheckAction::Report(
                CheckReport::Stale { installed, available: a },
            ) ==> installed@ == lock@ && a@ == available@))
        },
{
    match &dependency.version_lock {
        None => CheckAction::Report(CheckReport::NotInstalled),
        Some(lock) => match event {
            CheckEvent::Cloned => CheckAction::Classify(version_query(lock.as_str())),
            CheckEvent::Classified(_) => CheckAction::ReadAvailable,
            CheckEvent::AvailableIs(available) => {
                if *lock == available {
                    CheckAction::Report(CheckReport::UpToDate)
                } else {
                    CheckAction::Report(
                        CheckReport::Stale { installed: lock.clone(), available },
                    )
                }
            },
        },
    }
}

/// The RFC 3339 text of a UTC time given in whole seconds since the Unix
/// epoch, or `None` where chrono cannot represent it.
pub uninterp spec fn rfc3339_utc(secs: int) -> Option<Seq<char>>;

/// Formats a Unix time with `chrono::DateTime::<Utc>::from_timestamp`,
/// whose `DateTime` is turned into text at once with `to_rfc3339`. The claim:
/// the result is the named text, a function of the seconds alone, and every
/// time of the years 1 to 9999 can be represented (the source refuses only
/// days outside `i32` and years beyond 262142). What the text looks like is
/// left unsaid.
#[verifier::external_body]
fn format_rfc3339_utc(secs: i64) -> (r: Option<String>)
    ensures
        opt_view(r) == rfc3339_utc(secs as int),
        -62135596800 <= secs <= 253402300799 ==> r is Some,
{
    match chrono::DateTime::<chrono::Utc>::from_timestamp(secs, 0) {
        Some(time) => Some(time.to_rfc3339()),
        None => None,
    }
}

/// The time of a commit, given in seconds since the Unix epoch, as shown by
/// `hyrax check`.
pub fn get_commit_time(seconds: i64) -> (r: Option<String>)
    ensures
        opt_view(r) == rfc3339_utc(seconds as int),
        -62135596800 <= seconds <= 253402300799 ==> r is Some,
{
    format_rfc3339_utc(seconds)
}

// ---------------------------------------------------------------------------
// Syncing dependencies
// ---------------------------------------------------------------------------

/// What the user is told before a dependency is synced.
#[derive(PartialEq, Eq, Structural, Clone, Copy, Debug)]
pub enum SyncNotice {
    /// An update of an installed dependency.
    Updating,
    /// A first installation.
    Installing,
    /// A reinstallation of the locked version.
    Reinstalling,
}

/// Chooses the notice shown before syncing a dependency.
pub fn sync_notice(dependency: &HyraxDependency, params: &SyncParams) -> (n: SyncNotice)
    ensures
        n == (if dependency.version_lock is None {
            SyncNotice::Installing
        } else if params.update {
            SyncNotice::Updating
        } else {
            SyncNotice::Reinstalling
        }),
{
    if dependency.version_lock.is_none() {
        SyncNotice::Installing
    } else if params.update {
        SyncNotice::Updating
    } else {
        SyncNotice::Reinstalling
    }
}

/// The version that a sync checks out: the locked one, unless there is no
/// lock or an update is asked for, in which case the wanted one.
pub open spec fn target_version(dependency: HyraxDependency, update: bool) -> Seq<char> {
    match dependency.version_lock {
        Some(lock) => if update {
            dependency.version@
        } else {
            lock@
        },
        None => dependency.version@,
    }
}

/// The version that syncing `dependency` checks out.
pub fn install_version(dependency: &HyraxDependency, params: &SyncParams) -> (v: String)
    ensures
        v@ == target_version(*dependency, params.update),
        dependency.version_lock is None ==> v@ == dependency.version@,
        params.update ==> v@ == dependency.version@,
        !params.update ==> (dependency.version_lock matches Some(lock) ==> v@ == lock@),
{
    match &dependency.version_lock {
        Some(lock) => if params.update {
            dependency.version.clone()
        } else {
            lock.clone()
        },
        None => dependency.version.clone(),
    }
}

/// Whether the user must confirm the installation (unless forced).
pub fn needs_confirmation(params: &SyncParams) -> (b: bool)
    ensures
        b == !params.force,
{
    !params.force
}

/// The path that `Path::join` gives for `part` adjoined to `base`.
pub uninterp spec fn path_join(base: Seq<char>, part: Seq<char>) -> Seq<char>;

/// Joins two paths with `std::path::Path::join`. The claim: the result is
/// the named path, a function of the two paths alone. How `part` is adjoined
/// is left unsaid, since it differs between platforms.
#[verifier::external_body]
fn join_path(base: &str, part: &str) -> (r: String)
    ensures
        r@ == path_join(base@, part@),
{
    std::path::Path::new(base).join(part).to_string_lossy().into_owned()
}

/// Where the files of a dependency go when it is synced.
pub enum InstallPlan {
    /// The whole repository is cloned into the destination, and its `.git`
    /// folder deleted afterwards.
    Full { install_dir: String, git_dir: String },
    /// The repository is cloned into a temporary folder, and its source
    /// folder or file moved to the destination.
    Remap { clone_dir: String, move_from: String, move_to: String },
}

/// Plans where syncing `dependency` clones and what it moves, for a project
/// in `project_dir` and a temporary folder `temp_dir`.
pub fn plan_install(dependency: &HyraxDependency, project_dir: &str, temp_dir: &str) -> (plan:
    InstallPlan)
    ensures
        match dependency.source {
            None => plan matches InstallPlan::Full { install_dir, git_dir } && install_dir@
                == path_join(project_dir@, dependency.destination@) && git_dir@ == path_join(
                install_dir@,
                ".git"@,
            ),
            Some(source) => plan matches InstallPlan::Remap { clone_dir, move_from, move_to }
                && clone_dir@ == temp_dir@ && move_from@ == path_join(temp_dir@, source@)
                && move_to@ == path_join(project_dir@, dependency.destination@),
        },
{
    match &dependency.source {
        None => {
            let install_dir = join_path(project_dir, dependency.destination.as_str());
            let git_dir = join_path(install_dir.as_str(), ".git");
            InstallPlan::Full { install_dir, git_dir }
        },
        Some(source) => {
            let move_from = join_path(temp_dir, source.as_str());
            let move_to = join_path(project_dir, dependency.destination.as_str());
            InstallPlan::Remap { clone_dir: temp_dir.to_owned(), move_from, move_to }
        },
    }
}

/// The folder that the user is asked to confirm as the place of
/// installation.
pub fn confirmation_dir(plan: &InstallPlan) -> (dir: &String)
    ensures
        match plan {
            InstallPlan::Full { install_dir, .. } => dir == install_dir,
            InstallPlan::Remap { move_to, .. } => dir == move_to,
        },
{
    match plan {
        InstallPlan::Full { install_dir, .. } => install_dir,
        InstallPlan::Remap { move_to, .. } => move_to,
    }
}

/// `after` is `before` with its version locked to `installed`, and nothing
/// else changed.
pub open spec fn locked_to(before: HyraxDependency, after: HyraxDependency, installed: Seq<char>) -> bool {
    &&& after.name@ == before.name@
    &&& after.url@ == before.url@
    &&& opt_view(after.source) == opt_view(before.source)
    &&& after.destination@ == before.destination@
    &&& after.version@ == before.version@
    &&& opt_view(after.version_lock) == Some(installed)
}

/// Records that `installed` is the commit now installed for a dependency.
pub fn record_install(dependency: &mut HyraxDependency, installed: String)
    ensures
        locked_to(*old(dependency), *final(dependency), installed@),
{
    dependency.version_lock = Some(installed);
}

/// Records, after the dependencies have been installed in order, the
/// commit installed for each: `installed[i]` for the `i`-th dependency.
pub fn sync(config: &mut HyraxConfig, installed: Vec<String>)
    requires
        installed@.len() == old(config).dependencies@.len(),
    ensures
        final(config).dependencies@.len() == old(config).dependencies@.len(),
        forall|i: int|
            0 <= i < installed@.len() ==> locked_to(
                #[trigger] old(config).dependencies@[i],
                final(config).dependencies@[i],
                installed@[i]@,
            ),
{
    let n = config.dependencies.len();
    let mut i: usize = 0;
    while i < n
        invariant
            n == installed@.len(),
            i <= n,
            config.dependencies@.len() == n,
            forall|k: int|
                0 <= k < i ==> locked_to(
                    #[trigger] old(config).dependencies@[k],
                    config.dependencies@[k],
                    installed@[k]@,
                ),
            forall|k: int| i <= k < n ==> #[trigger] config.dependencies@[k] == old(config).dependencies@[k],
        decreases n - i,
    {
        record_install(&mut config.dependencies[i], installed[i].clone());
        i = i + 1;
    }
}

// ---------------------------------------------------------------------------
// Laws across operations
// ---------------------------------------------------------------------------

/// After a sync has locked a dependency to the commit it installed, a later
/// sync without update checks out that same commit, while an update checks
/// out the wanted version again.
pub proof fn lemma_locked_version_is_reused(
    before: HyraxDependency,
    after: HyraxDependency,
    installed: Seq<char>,
)
    requires
        locked_to(before, after, installed),
    ensures
        target_version(after, false) == installed,
        target_version(after, true) == before.version@,
{
}

/// A sync keeps the names of the dependencies, so if no two dependencies
/// shared a name before, none do after.
pub proof fn lemma_sync_keeps_names_unique(
    before: Seq<HyraxDependency>,
    after: Seq<HyraxDependency>,
    installed: Seq<Seq<char>>,
)
    requires
        after.len() == before.len(),
        installed.len() == before.len(),
        forall|i: int| 0 <= i < before.len() ==> locked_to(#[trigger] before[i], after[i], installed[i]),
        names_unique(before),
    ensures
        names_unique(after),
{
    assert forall|i: int, j: int|
        0 <= i < after.len() && 0 <= j < after.len() && i != j implies #[trigger] after[i].name@
        != #[trigger] after[j].name@ by {
        assert(locked_to(before[i], after[i], installed[i]));
        assert(locked_to(before[j], after[j], installed[j]));
    }
}

/// A dependency that a sync has locked to the commit the repository still
/// offers is reported up to date by a check: the clone leads to classifying
/// the lock, the classification (of whatever kind) to reading the current
/// commit, and that commit to an up-to-date report.
pub proof fn lemma_synced_dependency_is_up_to_date(
    before: HyraxDependency,
    after: HyraxDependency,
    installed: Seq<char>,
    kind: VersionType,
    available: String,
)
    requires
        locked_to(before, after, installed),
        available@ == installed,
    ensures
        check_step(after, CheckEvent::Cloned) == CheckStep::Classify,
        check_step(after, CheckEvent::Classified(kind)) == CheckStep::ReadAvailable,
        check_step(after, CheckEvent::AvailableIs(available)) == CheckStep::Report(
            CheckVerdict::UpToDate,
        ),
{
}

/// A check of a dependency with a version lock always gets to compare the
/// lock with the repository's current commit, and reports it up to date or
/// stale, never as not installed.
pub proof fn lemma_locked_dependency_is_compared(
    dependency: HyraxDependency,
    kind: VersionType,
    available: String,
)
    requires
        dependency.version_lock is Some,
    ensures
        check_step(dependency, CheckEvent::Classified(kind)) == CheckStep::ReadAvailable,
        check_step(dependency, CheckEvent::AvailableIs(available)) == CheckStep::Report(
            CheckVerdict::UpToDate,
        ) || check_step(dependency, CheckEvent::AvailableIs(available)) == CheckStep::Report(
            CheckVerdict::Stale,
        ),
{
}

/// Once a dependency has been added, its name is taken: a second `hyrax
/// add` of the same name is refused.
pub proof fn lemma_added_name_is_taken(before: Seq<HyraxDependency>, dependency: HyraxDependency)
    ensures
        has_name(before.push(dependency), dependency.name@),
{
    assert(before.push(dependency)[before.len() as int] == dependency);
}

/// A check compares commits exactly: once the repository's current commit
/// is known, a locked dependency is up to date when that commit is the lock,
/// and stale whenever it is any other commit.
pub proof fn lemma_check_compares_lock_with_available(
    dependency: HyraxDependency,
    lock: String,
    available: String,
)
    requires
        dependency.version_lock == Some(lock),
    ensures
        lock@ == available@ ==> check_step(dependency, CheckEvent::AvailableIs(available))
            == CheckStep::Report(CheckVerdict::UpToDate),
        lock@ != available@ ==> check_step(dependency, CheckEvent::AvailableIs(available))
            == CheckStep::Report(CheckVerdict::Stale),
{
}

/// A sync installs the wanted version of a dependency that has no lock,
/// with or without update, and the wanted version of every dependency on an
/// update; only a plain sync of a locked dependency installs its lock.
pub proof fn lemma_install_version_choice(dependency: HyraxDependency, update: bool)
    ensures
        dependency.version_lock is None ==> target_version(dependency, update)
            == dependency.version@,
        update ==> target_version(dependency, update) == dependency.version@,
        !update ==> (dependency.version_lock matches Some(lock) ==> target_version(
            dependency,
            update,
        ) == lock@),
{
}

} // verus!
