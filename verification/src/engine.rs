//! The sync orchestrator: per repository, turn the exclusion set, the local
//! filesystem state and the operator's conflict policy into the commands to
//! run and the outcome to report; per account, do that for every listed
//! entry; per run, do that for every account after validating the inputs.
//!
//! The engine is pure: the caller performs the network call, the prompt, the
//! removal and the subprocesses, and hands their results in as plain values
//! (`FetchOutcome`, `LocalState`). The commands of one repository are meant
//! to be executed in order, later ones dropped once one fails; a failure
//! never reaches past its own repository.

use vstd::prelude::*;
use vstd::string::StrSliceExecFns;

use crate::model::{
    spec_full_name, spec_repo_dir, spec_repo_of, spec_user_dir, spec_valid_fields, ExclusionSet,
    RemoteRepo, RepoFields, RepoFieldsModel, SyncTarget, SyncTargetModel,
};
use crate::provider::{api_url, parse_provider, spec_api_url, spec_provider_of, Provider};
use crate::text::slash_join;
use crate::validate::{
    absolute_path, valid_username, validate_path, validate_username, ValidationError,
};

verus! {

/// What to do with a repository whose directory already exists.
#[derive(Clone, Copy, Debug, PartialEq, Eq, Structural)]
pub enum UpdateMode {
    /// Update the existing directory with a pull.
    Pull,
    /// Keep only fresh clones; consult the overwrite policy.
    CloneFresh,
}

/// How an existing directory is resolved under `UpdateMode::CloneFresh`.
#[derive(Clone, Copy, Debug, PartialEq, Eq, Structural)]
pub enum OverwritePolicy {
    /// Remove the existing directory and clone again, without asking.
    AutoConfirm,
    /// Leave the existing directory untouched.
    AutoSkip,
    /// Ask the operator; declining leaves the directory untouched.
    Interactive,
}

/// How one external process invocation ended.
#[derive(Clone, Copy, Debug, PartialEq, Eq, Structural)]
pub enum ExecResult {
    /// The process ran and exited successfully.
    Success,
    /// The process ran and exited with a non-success status.
    ExitFailure,
    /// The process could not be started.
    LaunchFailure,
}

/// Why a repository's outcome is `Failed`.
#[derive(Clone, Copy, Debug, PartialEq, Eq, Structural)]
pub enum FailReason {
    /// The listed entry misses its name or its clone URL.
    MissingField,
    /// The clone process failed to start or exited with non-success.
    CloneFailed,
    /// The pull process could not be started.
    PullFailed,
    /// The existing directory could not be removed.
    RemoveFailed,
}

/// The per-repository result of a run, reported and not retained.
#[derive(Clone, Copy, Debug, PartialEq, Eq, Structural)]
pub enum SyncOutcome {
    Cloned,
    Pulled,
    SkippedExcluded,
    SkippedExisting,
    OverwrittenAndCloned,
    Failed(FailReason),
}

/// The terminal decision for one repository.
#[derive(Clone, Copy, Debug, PartialEq, Eq, Structural)]
pub enum RepoPlan {
    /// The listed entry is unusable; nothing is done.
    InvalidEntry,
    /// The repository is in the exclusion set; nothing is done.
    SkipExcluded,
    /// No local directory: clone it.
    CloneNew,
    /// A local directory exists and the mode is pull: update it.
    PullExisting,
    /// A local directory exists and stays; nothing is done.
    SkipExisting,
    /// A local directory exists and is overwritten: remove, then clone.
    RemoveThenClone,
}

/// The environment's answers for one repository, gathered by the caller:
/// whether the clone target already exists, the operator's answer where the
/// interactive policy asks one, whether the removal succeeded (consulted
/// only for an overwrite), and how the repository's clone or pull process
/// ended (consulted only where one runs).
#[derive(Clone, Copy, Debug, PartialEq, Eq, Structural)]
pub struct LocalState {
    pub exists: bool,
    pub confirm: bool,
    pub remove_ok: bool,
    pub process: ExecResult,
}

/// What resolving one account against its provider produced.
pub enum FetchOutcome {
    /// The listing request could not be sent or timed out.
    Transport,
    /// The listing response had a non-success HTTP status.
    HttpStatus(u16),
    /// The listing response body was not the expected JSON shape.
    Malformed,
    /// The entries of the listing, in the order the provider returned them.
    Listed(Vec<RepoFields>),
}

pub enum FetchOutcomeModel {
    Transport,
    HttpStatus(u16),
    Malformed,
    Listed(Seq<RepoFieldsModel>),
}

impl View for FetchOutcome {
    type V = FetchOutcomeModel;

    open spec fn view(&self) -> FetchOutcomeModel {
        match self {
            FetchOutcome::Transport => FetchOutcomeModel::Transport,
            FetchOutcome::HttpStatus(c) => FetchOutcomeModel::HttpStatus(*c),
            FetchOutcome::Malformed => FetchOutcomeModel::Malformed,
            FetchOutcome::Listed(v) => FetchOutcomeModel::Listed(v.deep_view()),
        }
    }
}

/// One account's batch as the environment answered it: the fetch result and,
/// aligned with the listed entries by index, each repository's local state.
pub struct UserEnv {
    pub fetch: FetchOutcome,
    pub locals: Vec<LocalState>,
}

pub struct UserEnvModel {
    pub fetch: FetchOutcomeModel,
    pub locals: Seq<LocalState>,
}

impl View for UserEnv {
    type V = UserEnvModel;

    open spec fn view(&self) -> UserEnvModel {
        UserEnvModel { fetch: self.fetch@, locals: self.locals@ }
    }
}

impl DeepView for UserEnv {
    type V = UserEnvModel;

    open spec fn deep_view(&self) -> UserEnvModel {
        self.view()
    }
}

/// An environment whose local states cover its listed entries.
pub open spec fn env_wf(e: UserEnvModel) -> bool {
    e.fetch matches FetchOutcomeModel::Listed(fs) ==> e.locals.len() == fs.len()
}

/// One external action of the run, for the caller to perform.
#[derive(Debug)]
pub enum Command {
    /// Run the version-control clone of `url` into `dir`, as a mirror copy
    /// of all refs when `mirror` is set.
    GitClone { url: String, dir: String, mirror: bool },
    /// Run the version-control update-all-refs pull inside `dir`.
    GitPull { dir: String },
    /// Recursively remove the directory `dir`.
    RemoveDir { dir: String },
}

pub enum CommandModel {
    GitClone { url: Seq<char>, dir: Seq<char>, mirror: bool },
    GitPull { dir: Seq<char> },
    RemoveDir { dir: Seq<char> },
}

impl View for Command {
    type V = CommandModel;

    open spec fn view(&self) -> CommandModel {
        match self {
            Command::GitClone { url, dir, mirror } => CommandModel::GitClone {
                url: url@,
                dir: dir@,
                mirror: *mirror,
            },
            Command::GitPull { dir } => CommandModel::GitPull { dir: dir@ },
            Command::RemoveDir { dir } => CommandModel::RemoveDir { dir: dir@ },
        }
    }
}

impl DeepView for Command {
    type V = CommandModel;

    open spec fn deep_view(&self) -> CommandModel {
        self.view()
    }
}

/// One repository's share of the run: its decision, the commands it asks
/// for, and the outcome to report.
pub struct RepoReport {
    pub plan: RepoPlan,
    pub commands: Vec<Command>,
    pub outcome: SyncOutcome,
}

pub struct RepoReportModel {
    pub plan: RepoPlan,
    pub commands: Seq<CommandModel>,
    pub outcome: SyncOutcome,
}

impl View for RepoReport {
    type V = RepoReportModel;

    open spec fn view(&self) -> RepoReportModel {
        RepoReportModel {
            plan: self.plan,
            commands: self.commands.deep_view(),
            outcome: self.outcome,
        }
    }
}

impl DeepView for RepoReport {
    type V = RepoReportModel;

    open spec fn deep_view(&self) -> RepoReportModel {
        self.view()
    }
}

/// One account's share of the run: the listing endpoint that was (or would
/// have been) fetched, whether the listing arrived, and one report per
/// listed entry, in listing order.
pub struct UserReport {
    pub username: String,
    pub dir: String,
    pub url: String,
    pub fetched: bool,
    pub repos: Vec<RepoReport>,
}

pub struct UserReportModel {
    pub username: Seq<char>,
    pub dir: Seq<char>,
    pub url: Seq<char>,
    pub fetched: bool,
    pub repos: Seq<RepoReportModel>,
}

impl View for UserReport {
    type V = UserReportModel;

    open spec fn view(&self) -> UserReportModel {
        UserReportModel {
            username: self.username@,
            dir: self.dir@,
            url: self.url@,
            fetched: self.fetched,
            repos: self.repos.deep_view(),
        }
    }
}

impl DeepView for UserReport {
    type V = UserReportModel;

    open spec fn deep_view(&self) -> UserReportModel {
        self.view()
    }
}

/// The whole run: one report per account, in input order.
pub struct RunReport {
    pub users: Vec<UserReport>,
}

impl View for RunReport {
    type V = Seq<UserReportModel>;

    open spec fn view(&self) -> Seq<UserReportModel> {
        self.users.deep_view()
    }
}

/// The decision for one repository that passed the entry filter: first the
/// exclusion set, then the local state, then the mode and, for an existing
/// directory under a fresh-clone mode, the overwrite policy. `confirm` is
/// the operator's answer and decides only the interactive case.
pub open spec fn spec_plan(
    excluded: bool,
    exists: bool,
    mode: UpdateMode,
    policy: OverwritePolicy,
    confirm: bool,
) -> RepoPlan {
    if excluded {
        RepoPlan::SkipExcluded
    } else if !exists {
        RepoPlan::CloneNew
    } else {
        match mode {
            UpdateMode::Pull => RepoPlan::PullExisting,
            UpdateMode::CloneFresh => match policy {
                OverwritePolicy::AutoConfirm => RepoPlan::RemoveThenClone,
                OverwritePolicy::AutoSkip => RepoPlan::SkipExisting,
                OverwritePolicy::Interactive => if confirm {
                    RepoPlan::RemoveThenClone
                } else {
                    RepoPlan::SkipExisting
                },
            },
        }
    }
}

/// The commands a decision asks for, in execution order. The skipping
/// decisions ask for none: an excluded or skipped repository is left
/// untouched.
pub open spec fn spec_commands(plan: RepoPlan, url: Seq<char>, dir: Seq<char>, mirror: bool) -> Seq<
    CommandModel,
> {
    match plan {
        RepoPlan::CloneNew => seq![CommandModel::GitClone { url, dir, mirror }],
        RepoPlan::PullExisting => seq![CommandModel::GitPull { dir }],
        RepoPlan::RemoveThenClone => seq![
            CommandModel::RemoveDir { dir },
            CommandModel::GitClone { url, dir, mirror },
        ],
        _ => Seq::empty(),
    }
}

/// The outcome a decision reports, given how the environment answered. A
/// non-success pull exit is reported but stays a `Pulled` outcome; a clone
/// that fails in any way, a removal that fails, and a pull that cannot be
/// started are per-repository failures.
pub open spec fn spec_outcome(plan: RepoPlan, loc: LocalState) -> SyncOutcome {
    match plan {
        RepoPlan::InvalidEntry => SyncOutcome::Failed(FailReason::MissingField),
        RepoPlan::SkipExcluded => SyncOutcome::SkippedExcluded,
        RepoPlan::SkipExisting => SyncOutcome::SkippedExisting,
        RepoPlan::CloneNew => match loc.process {
            ExecResult::Success => SyncOutcome::Cloned,
            _ => SyncOutcome::Failed(FailReason::CloneFailed),
        },
        RepoPlan::PullExisting => match loc.process {
            ExecResult::LaunchFailure => SyncOutcome::Failed(FailReason::PullFailed),
            _ => SyncOutcome::Pulled,
        },
        RepoPlan::RemoveThenClone => if !loc.remove_ok {
            SyncOutcome::Failed(FailReason::RemoveFailed)
        } else {
            match loc.process {
                ExecResult::Success => SyncOutcome::OverwrittenAndCloned,
                _ => SyncOutcome::Failed(FailReason::CloneFailed),
            }
        },
    }
}

/// The whole per-repository step: filter the entry, decide, and attach the
/// commands and the outcome.
pub open spec fn spec_repo_step(
    user_dir: Seq<char>,
    owner: Seq<char>,
    excl: Seq<Seq<char>>,
    mode: UpdateMode,
    policy: OverwritePolicy,
    mirror: bool,
    f: RepoFieldsModel,
    loc: LocalState,
) -> RepoReportModel {
    if !spec_valid_fields(f) {
        RepoReportModel {
            plan: RepoPlan::InvalidEntry,
            commands: Seq::empty(),
            outcome: SyncOutcome::Failed(FailReason::MissingField),
        }
    } else {
        let repo = spec_repo_of(f);
        let excluded = excl.contains(spec_full_name(owner, repo.name));
        let plan = spec_plan(excluded, loc.exists, mode, policy, loc.confirm);
        let dir = spec_repo_dir(user_dir, repo.name);
        RepoReportModel {
            plan,
            commands: spec_commands(plan, repo.url, dir, mirror),
            outcome: spec_outcome(plan, loc),
        }
    }
}

/// The whole per-account step: a failed fetch leaves the batch empty and
/// marked unfetched; a listing gets one repository step per entry, in
/// listing order, each from that entry's own data alone.
pub open spec fn spec_user_report(
    t: SyncTargetModel,
    provider: Provider,
    excl: Seq<Seq<char>>,
    mode: UpdateMode,
    policy: OverwritePolicy,
    mirror: bool,
    env: UserEnvModel,
) -> UserReportModel {
    match env.fetch {
        FetchOutcomeModel::Listed(fs) => UserReportModel {
            username: t.name,
            dir: t.dir,
            url: spec_api_url(provider, t.name),
            fetched: true,
            repos: Seq::new(
                fs.len(),
                |i: int| spec_repo_step(
                    t.dir,
                    t.name,
                    excl,
                    mode,
                    policy,
                    mirror,
                    fs[i],
                    env.locals[i],
                ),
            ),
        },
        _ => UserReportModel {
            username: t.name,
            dir: t.dir,
            url: spec_api_url(provider, t.name),
            fetched: false,
            repos: Seq::empty(),
        },
    }
}

/// The fatal errors of a run, checked in order before anything else runs:
/// every account name, then the destination path, then the provider label.
pub open spec fn spec_run_validation(
    users: Seq<Seq<char>>,
    dest: Seq<char>,
    provider_label: Seq<char>,
) -> Option<ValidationError> {
    if exists|i: int| 0 <= i < users.len() && !valid_username(users[i]) {
        Option::Some(ValidationError::InvalidUsername)
    } else if !absolute_path(dest) {
        Option::Some(ValidationError::PathNotAbsolute)
    } else if spec_provider_of(provider_label) is None {
        Option::Some(ValidationError::InvalidProvider)
    } else {
        Option::None
    }
}

/// The whole run once validation passed: one account report per name, in
/// input order, each from that account's own environment alone.
pub open spec fn spec_run_reports(
    users: Seq<Seq<char>>,
    dest: Seq<char>,
    provider: Provider,
    excl: Seq<Seq<char>>,
    mode: UpdateMode,
    policy: OverwritePolicy,
    mirror: bool,
    envs: Seq<UserEnvModel>,
) -> Seq<UserReportModel> {
    Seq::new(
        users.len(),
        |u: int| spec_user_report(
            SyncTargetModel { name: users[u], dir: spec_user_dir(dest, users[u]) },
            provider,
            excl,
            mode,
            policy,
            mirror,
            envs[u],
        ),
    )
}

/// Decides one repository that passed the entry filter.
pub fn decide_repo(
    excluded: bool,
    exists: bool,
    mode: UpdateMode,
    policy: OverwritePolicy,
    confirm: bool,
) -> (p: RepoPlan)
    ensures
        p == spec_plan(excluded, exists, mode, policy, confirm),
{
    if excluded {
        RepoPlan::SkipExcluded
    } else if !exists {
        RepoPlan::CloneNew
    } else {
        match mode {
            UpdateMode::Pull => RepoPlan::PullExisting,
            UpdateMode::CloneFresh => match policy {
                OverwritePolicy::AutoConfirm => RepoPlan::RemoveThenClone,
                OverwritePolicy::AutoSkip => RepoPlan::SkipExisting,
                OverwritePolicy::Interactive => if confirm {
                    RepoPlan::RemoveThenClone
                } else {
                    RepoPlan::SkipExisting
                },
            },
        }
    }
}

/// Builds the command list of one decision, in execution order.
pub fn plan_commands(plan: RepoPlan, url: &str, dir: &str, mirror: bool) -> (v: Vec<Command>)
    ensures
        v.deep_view() == spec_commands(plan, url@, dir@, mirror),
{
    let mut v: Vec<Command> = Vec::new();
    match plan {
        RepoPlan::CloneNew => {
            v.push(Command::GitClone { url: url.to_owned(), dir: dir.to_owned(), mirror });
        },
        RepoPlan::PullExisting => {
            v.push(Command::GitPull { dir: dir.to_owned() });
        },
        RepoPlan::RemoveThenClone => {
            v.push(Command::RemoveDir { dir: dir.to_owned() });
            v.push(Command::GitClone { url: url.to_owned(), dir: dir.to_owned(), mirror });
        },
        _ => {},
    }
    proof {
        assert(v.deep_view() =~= spec_commands(plan, url@, dir@, mirror));
    }
    v
}

/// Translates how the environment answered a decision into the outcome to
/// report.
pub fn outcome_of(plan: RepoPlan, loc: LocalState) -> (o: SyncOutcome)
    ensures
        o == spec_outcome(plan, loc),
{
    match plan {
        RepoPlan::InvalidEntry => SyncOutcome::Failed(FailReason::MissingField),
        RepoPlan::SkipExcluded => SyncOutcome::SkippedExcluded,
        RepoPlan::SkipExisting => SyncOutcome::SkippedExisting,
        RepoPlan::CloneNew => match loc.process {
            ExecResult::Success => SyncOutcome::Cloned,
            _ => SyncOutcome::Failed(FailReason::CloneFailed),
        },
        RepoPlan::PullExisting => match loc.process {
            ExecResult::LaunchFailure => SyncOutcome::Failed(FailReason::PullFailed),
            _ => SyncOutcome::Pulled,
        },
        RepoPlan::RemoveThenClone => if !loc.remove_ok {
            SyncOutcome::Failed(FailReason::RemoveFailed)
        } else {
            match loc.process {
                ExecResult::Success => SyncOutcome::OverwrittenAndCloned,
                _ => SyncOutcome::Failed(FailReason::CloneFailed),
            }
        },
    }
}

/// Whether the caller must ask the operator before deciding a repository:
/// only a repository that is not excluded, whose directory already exists,
/// under the fresh-clone mode with the interactive policy, gets a prompt.
pub open spec fn spec_needs_prompt(
    excluded: bool,
    exists: bool,
    mode: UpdateMode,
    policy: OverwritePolicy,
) -> bool {
    !excluded && exists && mode is CloneFresh && policy is Interactive
}

/// Decides whether the operator is asked before `decide_repo` runs.
pub fn needs_prompt(
    excluded: bool,
    exists: bool,
    mode: UpdateMode,
    policy: OverwritePolicy,
) -> (r: bool)
    ensures
        r == spec_needs_prompt(excluded, exists, mode, policy),
{
    !excluded && exists && matches!(mode, UpdateMode::CloneFresh) && matches!(
        policy,
        OverwritePolicy::Interactive,
    )
}

/// Whether the caller goes on to a repository's next command after this
/// one's result: a removal or a clone that did not succeed ends the
/// repository's commands, and a pull stops only when it could not be
/// started — its exit status, success or not, ends no plan.
pub open spec fn spec_proceed_after(c: CommandModel, result: ExecResult) -> bool {
    match c {
        CommandModel::RemoveDir { .. } => result is Success,
        CommandModel::GitClone { .. } => result is Success,
        CommandModel::GitPull { .. } => !(result is LaunchFailure),
    }
}

/// Decides whether a repository's remaining commands still run.
pub fn proceed_after(c: &Command, result: ExecResult) -> (r: bool)
    ensures
        r == spec_proceed_after(c@, result),
{
    match c {
        Command::RemoveDir { .. } => matches!(result, ExecResult::Success),
        Command::GitClone { .. } => matches!(result, ExecResult::Success),
        Command::GitPull { .. } => !matches!(result, ExecResult::LaunchFailure),
    }
}

/// Processes one listed entry: filter it, decide it, and report its
/// commands and outcome.
pub fn repo_step(
    user_dir: &str,
    owner: &str,
    excl: &ExclusionSet,
    mode: UpdateMode,
    policy: OverwritePolicy,
    mirror: bool,
    f: &RepoFields,
    loc: LocalState,
) -> (r: RepoReport)
    ensures
        r@ == spec_repo_step(user_dir@, owner@, excl@, mode, policy, mirror, f@, loc),
{
    match RemoteRepo::from_fields(f) {
        None => {
            let r = RepoReport {
                plan: RepoPlan::InvalidEntry,
                commands: Vec::new(),
                outcome: SyncOutcome::Failed(FailReason::MissingField),
            };
            proof {
                assert(r@.commands =~= Seq::<CommandModel>::empty());
            }
            r
        },
        Some(repo) => {
            let full_name = slash_join(owner, repo.name.as_str());
            let excluded = excl.contains_name(full_name.as_str());
            let plan = decide_repo(excluded, loc.exists, mode, policy, loc.confirm);
            let dir = slash_join(user_dir, repo.name.as_str());
            let commands = plan_commands(plan, repo.url.as_str(), dir.as_str(), mirror);
            let outcome = outcome_of(plan, loc);
            RepoReport { plan, commands, outcome }
        },
    }
}

/// Processes one account's batch against its environment.
pub fn plan_user(
    target: &SyncTarget,
    provider: Provider,
    excl: &ExclusionSet,
    mode: UpdateMode,
    policy: OverwritePolicy,
    mirror: bool,
    env: &UserEnv,
) -> (r: UserReport)
    requires
        env_wf(env@),
    ensures
        r@ == spec_user_report(target@, provider, excl@, mode, policy, mirror, env@),
{
    let url = api_url(provider, target.name.as_str());
    match &env.fetch {
        FetchOutcome::Listed(fs) => {
            let n = fs.len();
            let mut repos: Vec<RepoReport> = Vec::new();
            let mut i: usize = 0;
            while i < n
                invariant
                    0 <= i <= n,
                    n == fs@.len(),
                    env@.fetch == FetchOutcomeModel::Listed(fs.deep_view()),
                    env@.locals.len() == n,
                    fs.deep_view().len() == n,
                    repos@.len() == i,
                    forall|j: int| 0 <= j < i ==> repos@[j]@ == spec_repo_step(
                        target@.dir,
                        target@.name,
                        excl@,
                        mode,
                        policy,
                        mirror,
                        fs.deep_view()[j],
                        env@.locals[j],
                    ),
                decreases n - i,
            {
                let step = repo_step(
                    target.dir.as_str(),
                    target.name.as_str(),
                    excl,
                    mode,
                    policy,
                    mirror,
                    &fs[i],
                    env.locals[i],
                );
                repos.push(step);
                i = i + 1;
            }
            let r = UserReport {
                username: target.name.clone(),
                dir: target.dir.clone(),
                url,
                fetched: true,
                repos,
            };
            proof {
                assert(r@.repos =~= spec_user_report(
                    target@,
                    provider,
                    excl@,
                    mode,
                    policy,
                    mirror,
                    env@,
                ).repos);
            }
            r
        },
        _ => {
            let r = UserReport {
                username: target.name.clone(),
                dir: target.dir.clone(),
                url,
                fetched: false,
                repos: Vec::new(),
            };
            proof {
                assert(r@.repos =~= Seq::<RepoReportModel>::empty());
            }
            r
        },
    }
}

/// Runs the whole plan: validate every input first, then process every
/// account against its environment. A validation failure is the only way
/// the run ends early; afterwards every account and every repository gets
/// its report, whatever its neighbours' environments held.
pub fn plan_run(
    usernames: &Vec<String>,
    dest: &str,
    provider_label: &str,
    excl: &ExclusionSet,
    mode: UpdateMode,
    policy: OverwritePolicy,
    mirror: bool,
    env: &Vec<UserEnv>,
) -> (r: Result<RunReport, ValidationError>)
    requires
        env@.len() == usernames@.len(),
        forall|u: int| 0 <= u < env@.len() ==> env_wf(#[trigger] env@[u]@),
    ensures
        spec_run_validation(usernames.deep_view(), dest@, provider_label@) matches Some(e)
            ==> r == Err::<RunReport, ValidationError>(e),
        spec_run_validation(usernames.deep_view(), dest@, provider_label@) is None ==> (
        r matches Ok(rep) && rep@ == spec_run_reports(
            usernames.deep_view(),
            dest@,
            spec_provider_of(provider_label@).unwrap(),
            excl@,
            mode,
            policy,
            mirror,
            env.deep_view(),
        )),
{
    let n = usernames.len();
    let mut i: usize = 0;
    while i < n
        invariant
            0 <= i <= n,
            n == usernames@.len(),
            forall|j: int| 0 <= j < i ==> valid_username(#[trigger] usernames.deep_view()[j]),
        decreases n - i,
    {
        match validate_username(usernames[i].as_str()) {
            Ok(_) => {},
            Err(e) => {
                proof {
                    assert(!valid_username(usernames.deep_view()[i as int]));
                }
                return Err(e);
            },
        }
        i = i + 1;
    }
    match validate_path(dest) {
        Ok(_) => {},
        Err(e) => {
            return Err(e);
        },
    }
    let provider = match parse_provider(provider_label) {
        Ok(p) => p,
        Err(e) => {
            return Err(e);
        },
    };
    let mut users: Vec<UserReport> = Vec::new();
    let mut u: usize = 0;
    while u < n
        invariant
            0 <= u <= n,
            n == usernames@.len(),
            env@.len() == n,
            forall|j: int| 0 <= j < env@.len() ==> env_wf(#[trigger] env@[j]@),
            forall|j: int| 0 <= j < n ==> valid_username(#[trigger] usernames.deep_view()[j]),
            spec_provider_of(provider_label@) == Some(provider),
            users@.len() == u,
            forall|j: int| 0 <= j < u ==> users@[j]@ == spec_run_reports(
                usernames.deep_view(),
                dest@,
                provider,
                excl@,
                mode,
                policy,
                mirror,
                env.deep_view(),
            )[j],
        decreases n - u,
    {
        proof {
            assert(usernames.deep_view()[u as int] == usernames@[u as int]@);
        }
        let target = match SyncTarget::new(dest, usernames[u].as_str()) {
            Ok(t) => t,
            Err(e) => {
                proof {
                    assert(false);
                }
                return Err(e);
            },
        };
        let rep = plan_user(&target, provider, excl, mode, policy, mirror, &env[u]);
        proof {
            assert(env@[u as int]@ == env.deep_view()[u as int]);
        }
        users.push(rep);
        u = u + 1;
    }
    let run = RunReport { users };
    proof {
        assert(run@ =~= spec_run_reports(
            usernames.deep_view(),
            dest@,
            provider,
            excl@,
            mode,
            policy,
            mirror,
            env.deep_view(),
        ));
    }
    Ok(run)
}

} // verus!
