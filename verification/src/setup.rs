//! Planning for the idempotent setup steps: clone-or-update a
//! repository, build a named artifact if it is absent, and apply a named
//! group of configuration toggles.
//!
//! The decisions live here, verified; the caller observes the world
//! (does the directory exist? did the invocation succeed?) and performs
//! the planned action with git, a build tool, or a shell.

use crate::command::str_views;
use crate::outcome::OutcomeKind;
use vstd::prelude::*;

verus! {

/// What the clone-or-update helper decides to do.
#[derive(Debug, Clone, Copy, PartialEq, Eq, Structural)]
pub enum RepoAction {
    /// The target directory is absent: clone from the fixed source,
    /// optionally at a named branch.
    CloneRepo,
    /// The target exists and updating was asked for: fast-forward-only
    /// pull.
    UpdateRepo,
    /// The target exists and no update was asked for: leave it alone.
    LeaveRepo,
}

/// The model of one repository target: whether its directory exists and
/// whether its content matches the upstream source.
#[derive(Debug, Clone, Copy, PartialEq, Eq, Structural)]
pub struct RepoState {
    pub present: bool,
    pub up_to_date: bool,
}

/// A repository that exists and matches upstream.
pub open spec fn repo_synced(s: RepoState) -> bool {
    s.present && s.up_to_date
}

/// The decision rule: clone when absent, pull when asked, else no-op.
pub open spec fn plan_repo_sync_spec(present: bool, update: bool) -> RepoAction {
    if !present {
        RepoAction::CloneRepo
    } else if update {
        RepoAction::UpdateRepo
    } else {
        RepoAction::LeaveRepo
    }
}

/// Decide what to do about one repository target.
pub fn plan_repo_sync(present: bool, update: bool) -> (r: RepoAction)
    ensures
        r == plan_repo_sync_spec(present, update),
{
    if !present {
        RepoAction::CloneRepo
    } else if update {
        RepoAction::UpdateRepo
    } else {
        RepoAction::LeaveRepo
    }
}

/// How each action changes a repository target: a clone makes it present
/// and current; a fast-forward-only pull of a present repository makes it
/// current; leaving it changes nothing.
pub open spec fn apply_repo_action_spec(s: RepoState, a: RepoAction) -> RepoState {
    match a {
        RepoAction::CloneRepo => RepoState { present: true, up_to_date: true },
        RepoAction::UpdateRepo => RepoState { present: s.present, up_to_date: true },
        RepoAction::LeaveRepo => s,
    }
}

/// Apply one planned action to the model of a repository target.
pub fn apply_repo_action(s: RepoState, a: RepoAction) -> (r: RepoState)
    ensures
        r == apply_repo_action_spec(s, a),
{
    match a {
        RepoAction::CloneRepo => RepoState { present: true, up_to_date: true },
        RepoAction::UpdateRepo => RepoState { present: s.present, up_to_date: true },
        RepoAction::LeaveRepo => s,
    }
}

/// One full pass of the helper over a repository target.
pub open spec fn repo_sync_once(s: RepoState, update: bool) -> RepoState {
    apply_repo_action_spec(s, plan_repo_sync_spec(s.present, update))
}

/// The helper is idempotent: a second pass with the same flag changes
/// nothing beyond the first, from any starting state.
pub proof fn lemma_repo_sync_idempotent(s: RepoState, update: bool)
    ensures
        repo_sync_once(repo_sync_once(s, update), update) == repo_sync_once(s, update),
{
}

/// On a repository that is already cloned and up to date, a pass is a
/// no-op: the target's content does not change, whatever the flag.
pub proof fn lemma_repo_sync_no_change_when_synced(s: RepoState, update: bool)
    requires
        repo_synced(s),
    ensures
        repo_sync_once(s, update) == s,
{
}

/// A pass always leaves the target present.
pub proof fn lemma_repo_sync_makes_present(s: RepoState, update: bool)
    ensures
        repo_sync_once(s, update).present,
{
}

/// What the build-if-absent helper decides to do.
#[derive(Debug, Clone, Copy, PartialEq, Eq, Structural)]
pub enum BuildAction {
    /// The expected output artifact already exists: skip the build.
    SkipBuild,
    /// The artifact is absent: invoke the named build.
    RunBuild,
}

/// Decide whether a named artifact must be built: skip exactly when the
/// expected output path already exists.
pub fn plan_build(artifact_present: bool) -> (r: BuildAction)
    ensures
        r == (if artifact_present {
            BuildAction::SkipBuild
        } else {
            BuildAction::RunBuild
        }),
{
    if artifact_present {
        BuildAction::SkipBuild
    } else {
        BuildAction::RunBuild
    }
}

/// A setup step that did not go through, with what is needed to report it.
#[derive(Debug, Clone)]
pub enum SetupError {
    /// The build of a named artifact was invoked and did not succeed.
    BuildFailed { package: String },
    /// Applying a named group of configuration toggles did not succeed.
    ConfigGroupFailed { group: String },
}

/// Judge a build invocation: a build that was skipped or succeeded is
/// fine; any other outcome is fatal, with the package name attached.
pub fn confirm_build(action: BuildAction, run_kind: &OutcomeKind, package: String) -> (r: Result<
    (),
    SetupError,
>)
    ensures
        action is SkipBuild ==> r is Ok,
        action is RunBuild && run_kind is Success ==> r is Ok,
        action is RunBuild && !(run_kind is Success) ==> (r matches Err(e) && e
            == (SetupError::BuildFailed { package })),
{
    match action {
        BuildAction::SkipBuild => Ok(()),
        BuildAction::RunBuild => match run_kind {
            OutcomeKind::Success => Ok(()),
            _ => Err(SetupError::BuildFailed { package }),
        },
    }
}

/// Judge one batch of configuration toggles: failure carries the group
/// name, success carries nothing.
pub fn confirm_toggle_group(applied: bool, group: String) -> (r: Result<(), SetupError>)
    ensures
        applied ==> r is Ok,
        !applied ==> (r matches Err(e) && e == (SetupError::ConfigGroupFailed { group })),
{
    if applied {
        Ok(())
    } else {
        Err(SetupError::ConfigGroupFailed { group })
    }
}

/// The single argument string that switches a group of configuration
/// entries on: `--enable <first> --enable <second> ...` with a trailing
/// space after each entry.
pub open spec fn enable_args_spec(configs: Seq<Seq<char>>) -> Seq<char>
    decreases configs.len(),
{
    if configs.len() == 0 {
        Seq::empty()
    } else {
        enable_args_spec(configs.drop_last()) + "--enable "@ + configs.last() + " "@
    }
}

/// Build the argument string that enables every entry of one group.
pub fn enable_args(configs: &Vec<String>) -> (r: String)
    ensures
        r@ == enable_args_spec(str_views(configs@)),
{
    let mut s = String::new();
    let mut idx: usize = 0;
    while idx < configs.len()
        invariant
            idx <= configs.len(),
            s@ =~= enable_args_spec(str_views(configs@.take(idx as int))),
        decreases configs.len() - idx,
    {
        s.append("--enable ");
        s.append(configs[idx].as_str());
        s.append(" ");
        idx = idx + 1;
        proof {
            assert(str_views(configs@.take(idx as int)).drop_last() =~= str_views(
                configs@.take(idx - 1),
            ));
            assert(str_views(configs@.take(idx as int)).last() == configs@[idx - 1]@);
        }
    }
    proof {
        assert(configs@.take(configs@.len() as int) =~= configs@);
    }
    s
}

} // verus!
