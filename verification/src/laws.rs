//! What holds of every run, stated over the engine's models, once for all
//! inputs: validation stops a run before anything else; skipping decisions
//! touch nothing; a failure never reaches past its own account or
//! repository; a conflict-free batch is exactly one clone per repository.

use vstd::prelude::*;

use crate::engine::{
    env_wf, spec_repo_step, spec_run_reports, spec_run_validation, spec_user_report,
    CommandModel, FetchOutcomeModel, LocalState, OverwritePolicy, RepoReportModel, SyncOutcome,
    UpdateMode, UserEnvModel,
};
use crate::model::{
    spec_full_name, spec_repo_dir, spec_repo_of, spec_user_dir, spec_valid_fields,
    RepoFieldsModel, SyncTargetModel,
};
use crate::provider::Provider;
use crate::validate::{valid_username, ValidationError};

verus! {

/// The commands a whole batch asks for: each repository's commands, in
/// repository order.
pub open spec fn spec_batch_commands(repos: Seq<RepoReportModel>) -> Seq<CommandModel>
    decreases repos.len(),
{
    if repos.len() == 0 {
        Seq::empty()
    } else {
        repos[0].commands + spec_batch_commands(repos.drop_first())
    }
}

/// A batch of one command per repository flattens to exactly those
/// commands, in order.
proof fn lemma_batch_commands_of_singletons(repos: Seq<RepoReportModel>)
    requires
        forall|i: int| 0 <= i < repos.len() ==> (#[trigger] repos[i]).commands.len() == 1,
    ensures
        spec_batch_commands(repos).len() == repos.len(),
        forall|i: int| 0 <= i < repos.len() ==> spec_batch_commands(repos)[i] == repos[i].commands[0],
    decreases repos.len(),
{
    if repos.len() > 0 {
        let rest = repos.drop_first();
        lemma_batch_commands_of_singletons(rest);
        assert forall|i: int| 0 <= i < repos.len() implies spec_batch_commands(repos)[i]
            == repos[i].commands[0] by {
            if i > 0 {
                assert(rest[i - 1] == repos[i]);
                assert(spec_batch_commands(repos)[i] == spec_batch_commands(rest)[i - 1]);
            }
        }
    }
}

/// An account name that fails validation stops the whole run: the run's
/// result is the validation error, so no listing is fetched and no process
/// is asked for, for any account.
pub proof fn lemma_invalid_username_stops_run(
    users: Seq<Seq<char>>,
    dest: Seq<char>,
    provider_label: Seq<char>,
    i: int,
)
    requires
        0 <= i < users.len(),
        !valid_username(users[i]),
    ensures
        spec_run_validation(users, dest, provider_label) == Some(
            ValidationError::InvalidUsername,
        ),
{
    assert(exists|j: int| 0 <= j < users.len() && !valid_username(users[j]));
}

/// An account whose provider lists no repository completes idle: the fetch
/// is recorded as successful, the batch holds no repository, and no command
/// is asked for.
pub proof fn lemma_empty_listing_idle(
    t: SyncTargetModel,
    provider: Provider,
    excl: Seq<Seq<char>>,
    mode: UpdateMode,
    policy: OverwritePolicy,
    mirror: bool,
    env: UserEnvModel,
)
    requires
        env.fetch matches FetchOutcomeModel::Listed(fs) && fs.len() == 0,
    ensures
        ({
            let r = spec_user_report(t, provider, excl, mode, policy, mirror, env);
            &&& r.fetched
            &&& r.repos.len() == 0
            &&& spec_batch_commands(r.repos).len() == 0
        }),
{
}

/// An excluded repository is left untouched — no command, outcome
/// `SkippedExcluded` — while its siblings are still processed: every listed
/// entry's report comes from that entry's own data alone.
pub proof fn lemma_excluded_repo_untouched(
    t: SyncTargetModel,
    provider: Provider,
    excl: Seq<Seq<char>>,
    mode: UpdateMode,
    policy: OverwritePolicy,
    mirror: bool,
    env: UserEnvModel,
    i: int,
)
    requires
        env_wf(env),
        env.fetch is Listed,
        0 <= i < env.fetch->Listed_0.len(),
        spec_valid_fields(env.fetch->Listed_0[i]),
        excl.contains(spec_full_name(t.name, spec_repo_of(env.fetch->Listed_0[i]).name)),
    ensures
        ({
            let fs = env.fetch->Listed_0;
            let r = spec_user_report(t, provider, excl, mode, policy, mirror, env);
            &&& r.repos.len() == fs.len()
            &&& r.repos[i].commands.len() == 0
            &&& r.repos[i].outcome == SyncOutcome::SkippedExcluded
            &&& forall|j: int| 0 <= j < fs.len() ==> r.repos[j] == spec_repo_step(
                t.dir,
                t.name,
                excl,
                mode,
                policy,
                mirror,
                fs[j],
                env.locals[j],
            )
        }),
{
}

/// A repository directory that already exists under the auto-skip policy is
/// left untouched: no removal, no clone, outcome `SkippedExisting`.
pub proof fn lemma_auto_skip_keeps_existing(
    user_dir: Seq<char>,
    owner: Seq<char>,
    excl: Seq<Seq<char>>,
    mirror: bool,
    f: RepoFieldsModel,
    loc: LocalState,
)
    requires
        spec_valid_fields(f),
        !excl.contains(spec_full_name(owner, spec_repo_of(f).name)),
        loc.exists,
    ensures
        ({
            let r = spec_repo_step(
                user_dir,
                owner,
                excl,
                UpdateMode::CloneFresh,
                OverwritePolicy::AutoSkip,
                mirror,
                f,
                loc,
            );
            &&& r.commands.len() == 0
            &&& r.outcome == SyncOutcome::SkippedExisting
        }),
{
}

/// A repository directory that already exists under the auto-confirm
/// overwrite policy is removed exactly once, and exactly one clone follows,
/// in that order.
pub proof fn lemma_auto_confirm_overwrites(
    user_dir: Seq<char>,
    owner: Seq<char>,
    excl: Seq<Seq<char>>,
    mirror: bool,
    f: RepoFieldsModel,
    loc: LocalState,
)
    requires
        spec_valid_fields(f),
        !excl.contains(spec_full_name(owner, spec_repo_of(f).name)),
        loc.exists,
    ensures
        ({
            let repo = spec_repo_of(f);
            let dir = spec_repo_dir(user_dir, repo.name);
            let r = spec_repo_step(
                user_dir,
                owner,
                excl,
                UpdateMode::CloneFresh,
                OverwritePolicy::AutoConfirm,
                mirror,
                f,
                loc,
            );
            &&& r.commands.len() == 2
            &&& r.commands[0] == (CommandModel::RemoveDir { dir })
            &&& r.commands[1] == (CommandModel::GitClone { url: repo.url, dir, mirror })
        }),
{
}

/// A transport failure for one account never reaches another: with account
/// `a`'s listing request failed, account `b`'s batch is still fully
/// processed, one report per listed entry.
pub proof fn lemma_user_failure_isolated(
    users: Seq<Seq<char>>,
    dest: Seq<char>,
    provider: Provider,
    excl: Seq<Seq<char>>,
    mode: UpdateMode,
    policy: OverwritePolicy,
    mirror: bool,
    envs: Seq<UserEnvModel>,
    a: int,
    b: int,
)
    requires
        envs.len() == users.len(),
        0 <= a < users.len(),
        0 <= b < users.len(),
        envs[a].fetch is Transport,
        env_wf(envs[b]),
        envs[b].fetch is Listed,
    ensures
        ({
            let reps = spec_run_reports(users, dest, provider, excl, mode, policy, mirror, envs);
            &&& reps.len() == users.len()
            &&& reps[b] == spec_user_report(
                (SyncTargetModel { name: users[b], dir: spec_user_dir(dest, users[b]) }),
                provider,
                excl,
                mode,
                policy,
                mirror,
                envs[b],
            )
            &&& reps[b].fetched
            &&& reps[b].repos.len() == envs[b].fetch->Listed_0.len()
        }),
{
}

/// The round trip of a conflict-free batch: the listing holds N entries,
/// each valid, none excluded, none with an existing directory; the batch
/// then asks for exactly N clone commands, one per repository, in listing
/// order, and each repository's outcome under a successful clone is
/// `Cloned`.
pub proof fn lemma_fresh_batch_clones_each(
    t: SyncTargetModel,
    provider: Provider,
    excl: Seq<Seq<char>>,
    mode: UpdateMode,
    policy: OverwritePolicy,
    mirror: bool,
    env: UserEnvModel,
)
    requires
        env_wf(env),
        env.fetch is Listed,
        forall|i: int| 0 <= i < env.fetch->Listed_0.len() ==> spec_valid_fields(
            #[trigger] env.fetch->Listed_0[i],
        ),
        forall|i: int| 0 <= i < env.fetch->Listed_0.len() ==> !excl.contains(
            spec_full_name(t.name, spec_repo_of(#[trigger] env.fetch->Listed_0[i]).name),
        ),
        forall|i: int| 0 <= i < env.locals.len() ==> !(#[trigger] env.locals[i]).exists,
    ensures
        ({
            let fs = env.fetch->Listed_0;
            let cmds = spec_batch_commands(
                spec_user_report(t, provider, excl, mode, policy, mirror, env).repos,
            );
            &&& cmds.len() == fs.len()
            &&& forall|i: int| 0 <= i < fs.len() ==> cmds[i] == (CommandModel::GitClone {
                url: spec_repo_of(fs[i]).url,
                dir: spec_repo_dir(t.dir, spec_repo_of(fs[i]).name),
                mirror,
            })
        }),
{
    let fs = env.fetch->Listed_0;
    let r = spec_user_report(t, provider, excl, mode, policy, mirror, env);
    assert forall|i: int| 0 <= i < r.repos.len() implies (#[trigger] r.repos[i]).commands.len()
        == 1 by {
        assert(r.repos[i] == spec_repo_step(
            t.dir,
            t.name,
            excl,
            mode,
            policy,
            mirror,
            fs[i],
            env.locals[i],
        ));
    }
    lemma_batch_commands_of_singletons(r.repos);
    assert forall|i: int| 0 <= i < fs.len() implies spec_batch_commands(r.repos)[i]
        == (CommandModel::GitClone {
        url: spec_repo_of(fs[i]).url,
        dir: spec_repo_dir(t.dir, spec_repo_of(fs[i]).name),
        mirror,
    }) by {
        assert(r.repos[i] == spec_repo_step(
            t.dir,
            t.name,
            excl,
            mode,
            policy,
            mirror,
            fs[i],
            env.locals[i],
        ));
        assert(spec_batch_commands(r.repos)[i] == r.repos[i].commands[0]);
    }
}

} // verus!
