use supervised_run::outcome::OutcomeKind;
use supervised_run::setup::{
    apply_repo_action, confirm_build, confirm_toggle_group, enable_args, plan_build,
    plan_repo_sync, BuildAction, RepoAction, RepoState, SetupError,
};

#[test]
fn absent_repo_is_cloned() {
    assert_eq!(plan_repo_sync(false, false), RepoAction::CloneRepo);
    assert_eq!(plan_repo_sync(false, true), RepoAction::CloneRepo);
}

#[test]
fn present_repo_is_updated_only_on_request() {
    assert_eq!(plan_repo_sync(true, true), RepoAction::UpdateRepo);
    assert_eq!(plan_repo_sync(true, false), RepoAction::LeaveRepo);
}

#[test]
fn clone_or_update_twice_changes_nothing_more() {
    // An already-cloned, up-to-date repository: two passes in a row leave
    // the target exactly as it was, with or without the update flag.
    for update in [false, true] {
        let start = RepoState { present: true, up_to_date: true };
        let once = apply_repo_action(start, plan_repo_sync(start.present, update));
        assert_eq!(once, start);
        let twice = apply_repo_action(once, plan_repo_sync(once.present, update));
        assert_eq!(twice, once);
    }
}

#[test]
fn clone_then_second_pass_is_stable() {
    // From an absent target, the first pass clones; the second pass is a
    // no-op or a fast-forward pull, and the state no longer moves.
    for update in [false, true] {
        let start = RepoState { present: false, up_to_date: false };
        let once = apply_repo_action(start, plan_repo_sync(start.present, update));
        assert_eq!(once, RepoState { present: true, up_to_date: true });
        let twice = apply_repo_action(once, plan_repo_sync(once.present, update));
        assert_eq!(twice, once);
    }
}

#[test]
fn build_skipped_when_artifact_exists() {
    assert_eq!(plan_build(true), BuildAction::SkipBuild);
    assert_eq!(plan_build(false), BuildAction::RunBuild);
}

#[test]
fn build_failure_is_fatal_with_package_name() {
    let r = confirm_build(
        BuildAction::RunBuild,
        &OutcomeKind::NonZeroExit { exit_code: 101 },
        "tmk_vmm".to_string(),
    );
    assert!(matches!(r, Err(SetupError::BuildFailed { ref package }) if package == "tmk_vmm"));

    let r = confirm_build(BuildAction::RunBuild, &OutcomeKind::Success, "tmk_vmm".to_string());
    assert!(r.is_ok());

    let r = confirm_build(
        BuildAction::SkipBuild,
        &OutcomeKind::SpawnFailed { reason: "unused".to_string() },
        "simple_tmk".to_string(),
    );
    assert!(r.is_ok());
}

#[test]
fn enable_args_lists_each_entry() {
    let configs: Vec<String> = ["CONFIG_VIRT_DRIVERS", "CONFIG_ARM_CCA_GUEST"]
        .iter()
        .map(|s| s.to_string())
        .collect();
    assert_eq!(
        enable_args(&configs),
        "--enable CONFIG_VIRT_DRIVERS --enable CONFIG_ARM_CCA_GUEST "
    );
    let none: Vec<String> = Vec::new();
    assert_eq!(enable_args(&none), "");
}

#[test]
fn toggle_group_failure_names_the_group() {
    let r = confirm_toggle_group(false, "Hyper-V".to_string());
    assert!(matches!(r, Err(SetupError::ConfigGroupFailed { ref group }) if group == "Hyper-V"));
    assert!(confirm_toggle_group(true, "CCA".to_string()).is_ok());
}
