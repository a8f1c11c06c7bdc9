use clonetool::engine::{
    decide_repo, needs_prompt, outcome_of, plan_commands, plan_run, plan_user, proceed_after,
    repo_step, Command, ExecResult, FailReason, FetchOutcome, LocalState, OverwritePolicy,
    RepoPlan, SyncOutcome, UpdateMode, UserEnv,
};
use clonetool::model::{ExclusionSet, RemoteRepo, RepoFields, SyncTarget};
use clonetool::provider::Provider;
use clonetool::validate::ValidationError;

fn fields(name: &str, url: &str) -> RepoFields {
    RepoFields { name: Some(name.to_string()), url: Some(url.to_string()) }
}

fn local(exists: bool) -> LocalState {
    LocalState { exists, confirm: false, remove_ok: true, process: ExecResult::Success }
}

fn no_exclusions() -> ExclusionSet {
    ExclusionSet::new(Vec::new())
}

fn assert_clone(c: &Command, url: &str, dir: &str) {
    match c {
        Command::GitClone { url: u, dir: d, mirror } => {
            assert_eq!(u, url);
            assert_eq!(d, dir);
            assert!(!mirror);
        },
        _ => panic!("expected a clone command"),
    }
}

#[test]
fn accepts_entry_with_both_fields() {
    let r = RemoteRepo::from_fields(&fields("r1", "https://x/r1.git")).unwrap();
    assert_eq!(r.name, "r1");
    assert_eq!(r.url, "https://x/r1.git");
}

#[test]
fn rejects_entry_with_missing_or_empty_field() {
    assert!(RemoteRepo::from_fields(&RepoFields { name: None, url: Some("u".to_string()) })
        .is_none());
    assert!(RemoteRepo::from_fields(&RepoFields { name: Some("r".to_string()), url: None })
        .is_none());
    assert!(RemoteRepo::from_fields(&fields("", "u")).is_none());
    assert!(RemoteRepo::from_fields(&fields("r", "")).is_none());
}

#[test]
fn exclusion_set_is_membership_only() {
    let ex = ExclusionSet::new(vec!["alice/r1".to_string(), "bob/r2".to_string()]);
    assert!(ex.contains_name("alice/r1"));
    assert!(ex.contains_name("bob/r2"));
    assert!(!ex.contains_name("alice/r2"));
    assert!(!ex.contains_name("alice"));
    assert!(!no_exclusions().contains_name("alice/r1"));
}

#[test]
fn decides_every_branch() {
    let m = UpdateMode::CloneFresh;
    assert_eq!(
        decide_repo(true, false, m, OverwritePolicy::AutoSkip, false),
        RepoPlan::SkipExcluded
    );
    assert_eq!(
        decide_repo(false, false, m, OverwritePolicy::AutoSkip, false),
        RepoPlan::CloneNew
    );
    assert_eq!(
        decide_repo(false, true, UpdateMode::Pull, OverwritePolicy::AutoSkip, false),
        RepoPlan::PullExisting
    );
    assert_eq!(
        decide_repo(false, true, m, OverwritePolicy::AutoConfirm, false),
        RepoPlan::RemoveThenClone
    );
    assert_eq!(
        decide_repo(false, true, m, OverwritePolicy::AutoSkip, true),
        RepoPlan::SkipExisting
    );
    assert_eq!(
        decide_repo(false, true, m, OverwritePolicy::Interactive, true),
        RepoPlan::RemoveThenClone
    );
    assert_eq!(
        decide_repo(false, true, m, OverwritePolicy::Interactive, false),
        RepoPlan::SkipExisting
    );
}

#[test]
fn commands_follow_the_plan() {
    let cs = plan_commands(RepoPlan::CloneNew, "u", "d", false);
    assert_eq!(cs.len(), 1);
    assert_clone(&cs[0], "u", "d");

    let cs = plan_commands(RepoPlan::PullExisting, "u", "d", false);
    assert_eq!(cs.len(), 1);
    assert!(matches!(&cs[0], Command::GitPull { dir } if dir == "d"));

    let cs = plan_commands(RepoPlan::RemoveThenClone, "u", "d", false);
    assert_eq!(cs.len(), 2);
    assert!(matches!(&cs[0], Command::RemoveDir { dir } if dir == "d"));
    assert_clone(&cs[1], "u", "d");

    assert!(plan_commands(RepoPlan::SkipExcluded, "u", "d", false).is_empty());
    assert!(plan_commands(RepoPlan::SkipExisting, "u", "d", false).is_empty());
    assert!(plan_commands(RepoPlan::InvalidEntry, "u", "d", false).is_empty());
}

#[test]
fn mirror_flag_reaches_the_clone_command() {
    let cs = plan_commands(RepoPlan::CloneNew, "u", "d", true);
    assert_eq!(cs.len(), 1);
    assert!(matches!(&cs[0], Command::GitClone { mirror: true, .. }));
}

#[test]
fn prompt_only_for_interactive_existing() {
    let m = UpdateMode::CloneFresh;
    let i = OverwritePolicy::Interactive;
    assert!(needs_prompt(false, true, m, i));
    assert!(!needs_prompt(true, true, m, i));
    assert!(!needs_prompt(false, false, m, i));
    assert!(!needs_prompt(false, true, UpdateMode::Pull, i));
    assert!(!needs_prompt(false, true, m, OverwritePolicy::AutoConfirm));
    assert!(!needs_prompt(false, true, m, OverwritePolicy::AutoSkip));
}

#[test]
fn later_commands_stop_after_a_failure() {
    let rm = Command::RemoveDir { dir: "d".to_string() };
    let cl = Command::GitClone { url: "u".to_string(), dir: "d".to_string(), mirror: false };
    let pl = Command::GitPull { dir: "d".to_string() };
    assert!(proceed_after(&rm, ExecResult::Success));
    assert!(!proceed_after(&rm, ExecResult::ExitFailure));
    assert!(proceed_after(&cl, ExecResult::Success));
    assert!(!proceed_after(&cl, ExecResult::ExitFailure));
    assert!(!proceed_after(&cl, ExecResult::LaunchFailure));
    assert!(proceed_after(&pl, ExecResult::Success));
    assert!(proceed_after(&pl, ExecResult::ExitFailure));
    assert!(!proceed_after(&pl, ExecResult::LaunchFailure));
}

#[test]
fn outcomes_follow_plan_and_process() {
    let ok = local(false);
    let exit = LocalState { process: ExecResult::ExitFailure, ..ok };
    let launch = LocalState { process: ExecResult::LaunchFailure, ..ok };
    let remove_fail = LocalState { remove_ok: false, ..ok };

    assert_eq!(outcome_of(RepoPlan::InvalidEntry, ok), SyncOutcome::Failed(FailReason::MissingField));
    assert_eq!(outcome_of(RepoPlan::SkipExcluded, ok), SyncOutcome::SkippedExcluded);
    assert_eq!(outcome_of(RepoPlan::SkipExisting, ok), SyncOutcome::SkippedExisting);
    assert_eq!(outcome_of(RepoPlan::CloneNew, ok), SyncOutcome::Cloned);
    assert_eq!(outcome_of(RepoPlan::CloneNew, exit), SyncOutcome::Failed(FailReason::CloneFailed));
    assert_eq!(
        outcome_of(RepoPlan::CloneNew, launch),
        SyncOutcome::Failed(FailReason::CloneFailed)
    );
    assert_eq!(outcome_of(RepoPlan::PullExisting, ok), SyncOutcome::Pulled);
    assert_eq!(outcome_of(RepoPlan::PullExisting, exit), SyncOutcome::Pulled);
    assert_eq!(
        outcome_of(RepoPlan::PullExisting, launch),
        SyncOutcome::Failed(FailReason::PullFailed)
    );
    assert_eq!(outcome_of(RepoPlan::RemoveThenClone, ok), SyncOutcome::OverwrittenAndCloned);
    assert_eq!(
        outcome_of(RepoPlan::RemoveThenClone, remove_fail),
        SyncOutcome::Failed(FailReason::RemoveFailed)
    );
    assert_eq!(
        outcome_of(RepoPlan::RemoveThenClone, exit),
        SyncOutcome::Failed(FailReason::CloneFailed)
    );
}

#[test]
fn invalid_entry_gets_no_command() {
    let ex = no_exclusions();
    let r = repo_step(
        "/m/alice",
        "alice",
        &ex,
        UpdateMode::CloneFresh,
        OverwritePolicy::AutoSkip,
        false,
        &RepoFields { name: Some("r".to_string()), url: None },
        local(false),
    );
    assert_eq!(r.plan, RepoPlan::InvalidEntry);
    assert!(r.commands.is_empty());
    assert_eq!(r.outcome, SyncOutcome::Failed(FailReason::MissingField));
}

#[test]
fn excluded_repo_untouched_sibling_processed() {
    let target = SyncTarget::new("/m", "alice").unwrap();
    let ex = ExclusionSet::new(vec!["alice/r1".to_string()]);
    let env = UserEnv {
        fetch: FetchOutcome::Listed(vec![
            fields("r1", "https://x/r1.git"),
            fields("r2", "https://x/r2.git"),
        ]),
        locals: vec![local(false), local(false)],
    };
    let rep = plan_user(
        &target,
        Provider::Github,
        &ex,
        UpdateMode::CloneFresh,
        OverwritePolicy::AutoSkip,
        false,
        &env,
    );
    assert!(rep.fetched);
    assert_eq!(rep.repos.len(), 2);
    assert_eq!(rep.repos[0].plan, RepoPlan::SkipExcluded);
    assert!(rep.repos[0].commands.is_empty());
    assert_eq!(rep.repos[0].outcome, SyncOutcome::SkippedExcluded);
    assert_eq!(rep.repos[1].plan, RepoPlan::CloneNew);
    assert_eq!(rep.repos[1].commands.len(), 1);
    assert_clone(&rep.repos[1].commands[0], "https://x/r2.git", "/m/alice/r2");
    assert_eq!(rep.repos[1].outcome, SyncOutcome::Cloned);
}

#[test]
fn empty_listing_completes_idle() {
    let target = SyncTarget::new("/m", "alice").unwrap();
    let env = UserEnv { fetch: FetchOutcome::Listed(Vec::new()), locals: Vec::new() };
    let rep = plan_user(
        &target,
        Provider::Github,
        &no_exclusions(),
        UpdateMode::CloneFresh,
        OverwritePolicy::AutoSkip,
        false,
        &env,
    );
    assert!(rep.fetched);
    assert!(rep.repos.is_empty());
    assert_eq!(rep.url, "https://api.github.com/users/alice/repos?per_page=1000");
}

#[test]
fn existing_repo_auto_skip_untouched() {
    let target = SyncTarget::new("/m", "alice").unwrap();
    let env = UserEnv {
        fetch: FetchOutcome::Listed(vec![fields("r1", "https://x/r1.git")]),
        locals: vec![local(true)],
    };
    let rep = plan_user(
        &target,
        Provider::Github,
        &no_exclusions(),
        UpdateMode::CloneFresh,
        OverwritePolicy::AutoSkip,
        false,
        &env,
    );
    assert_eq!(rep.repos[0].plan, RepoPlan::SkipExisting);
    assert!(rep.repos[0].commands.is_empty());
    assert_eq!(rep.repos[0].outcome, SyncOutcome::SkippedExisting);
}

#[test]
fn existing_repo_auto_confirm_removed_once_then_cloned() {
    let target = SyncTarget::new("/m", "alice").unwrap();
    let env = UserEnv {
        fetch: FetchOutcome::Listed(vec![fields("r1", "https://x/r1.git")]),
        locals: vec![local(true)],
    };
    let rep = plan_user(
        &target,
        Provider::Github,
        &no_exclusions(),
        UpdateMode::CloneFresh,
        OverwritePolicy::AutoConfirm,
        false,
        &env,
    );
    let cs = &rep.repos[0].commands;
    assert_eq!(cs.len(), 2);
    assert!(matches!(&cs[0], Command::RemoveDir { dir } if dir == "/m/alice/r1"));
    assert_clone(&cs[1], "https://x/r1.git", "/m/alice/r1");
    assert_eq!(rep.repos[0].outcome, SyncOutcome::OverwrittenAndCloned);
}

#[test]
fn existing_repo_pull_mode_pulls() {
    let target = SyncTarget::new("/m", "alice").unwrap();
    let env = UserEnv {
        fetch: FetchOutcome::Listed(vec![fields("r1", "https://x/r1.git")]),
        locals: vec![local(true)],
    };
    let rep = plan_user(
        &target,
        Provider::Github,
        &no_exclusions(),
        UpdateMode::Pull,
        OverwritePolicy::AutoSkip,
        false,
        &env,
    );
    assert_eq!(rep.repos[0].plan, RepoPlan::PullExisting);
    assert!(matches!(&rep.repos[0].commands[0], Command::GitPull { dir } if dir == "/m/alice/r1"));
    assert_eq!(rep.repos[0].outcome, SyncOutcome::Pulled);
}

#[test]
fn fresh_batch_clones_each_in_order() {
    let target = SyncTarget::new("/m", "alice").unwrap();
    let env = UserEnv {
        fetch: FetchOutcome::Listed(vec![
            fields("r1", "https://x/r1.git"),
            fields("r2", "https://x/r2.git"),
            fields("r3", "https://x/r3.git"),
        ]),
        locals: vec![local(false), local(false), local(false)],
    };
    let rep = plan_user(
        &target,
        Provider::Github,
        &no_exclusions(),
        UpdateMode::CloneFresh,
        OverwritePolicy::AutoSkip,
        false,
        &env,
    );
    let all: Vec<&Command> = rep.repos.iter().flat_map(|r| r.commands.iter()).collect();
    assert_eq!(all.len(), 3);
    assert_clone(all[0], "https://x/r1.git", "/m/alice/r1");
    assert_clone(all[1], "https://x/r2.git", "/m/alice/r2");
    assert_clone(all[2], "https://x/r3.git", "/m/alice/r3");
    for r in &rep.repos {
        assert_eq!(r.outcome, SyncOutcome::Cloned);
    }
}

#[test]
fn run_stops_on_invalid_username_before_anything() {
    let usernames = vec!["alice".to_string(), "bad name".to_string()];
    let env = vec![
        UserEnv { fetch: FetchOutcome::Transport, locals: Vec::new() },
        UserEnv { fetch: FetchOutcome::Transport, locals: Vec::new() },
    ];
    let r = plan_run(
        &usernames,
        "/m",
        "github",
        &no_exclusions(),
        UpdateMode::CloneFresh,
        OverwritePolicy::AutoSkip,
        false,
        &env,
    );
    assert_eq!(r.err(), Some(ValidationError::InvalidUsername));
}

#[test]
fn run_stops_on_relative_path() {
    let usernames = vec!["alice".to_string()];
    let env = vec![UserEnv { fetch: FetchOutcome::Transport, locals: Vec::new() }];
    let r = plan_run(
        &usernames,
        "mirrors",
        "github",
        &no_exclusions(),
        UpdateMode::CloneFresh,
        OverwritePolicy::AutoSkip,
        false,
        &env,
    );
    assert_eq!(r.err(), Some(ValidationError::PathNotAbsolute));
}

#[test]
fn run_stops_on_unknown_provider() {
    let usernames = vec!["alice".to_string()];
    let env = vec![UserEnv { fetch: FetchOutcome::Transport, locals: Vec::new() }];
    let r = plan_run(
        &usernames,
        "/m",
        "sourceforge",
        &no_exclusions(),
        UpdateMode::CloneFresh,
        OverwritePolicy::AutoSkip,
        false,
        &env,
    );
    assert_eq!(r.err(), Some(ValidationError::InvalidProvider));
}

#[test]
fn one_users_transport_failure_leaves_other_processed() {
    let usernames = vec!["alice".to_string(), "bob".to_string()];
    let env = vec![
        UserEnv { fetch: FetchOutcome::Transport, locals: Vec::new() },
        UserEnv {
            fetch: FetchOutcome::Listed(vec![fields("r1", "https://x/bob-r1.git")]),
            locals: vec![local(false)],
        },
    ];
    let run = plan_run(
        &usernames,
        "/m",
        "github",
        &no_exclusions(),
        UpdateMode::CloneFresh,
        OverwritePolicy::AutoSkip,
        false,
        &env,
    )
    .unwrap();
    assert_eq!(run.users.len(), 2);
    assert!(!run.users[0].fetched);
    assert!(run.users[0].repos.is_empty());
    assert!(run.users[1].fetched);
    assert_eq!(run.users[1].repos.len(), 1);
    assert_clone(&run.users[1].repos[0].commands[0], "https://x/bob-r1.git", "/m/bob/r1");
    assert_eq!(run.users[1].repos[0].outcome, SyncOutcome::Cloned);
}

#[test]
fn failed_fetch_statuses_leave_batch_unfetched() {
    let target = SyncTarget::new("/m", "alice").unwrap();
    for fetch in [FetchOutcome::Transport, FetchOutcome::HttpStatus(404), FetchOutcome::Malformed]
    {
        let env = UserEnv { fetch, locals: Vec::new() };
        let rep = plan_user(
            &target,
            Provider::Github,
            &no_exclusions(),
            UpdateMode::CloneFresh,
            OverwritePolicy::AutoSkip,
            false,
            &env,
        );
        assert!(!rep.fetched);
        assert!(rep.repos.is_empty());
    }
}
