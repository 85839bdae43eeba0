use irq_core::tooling::make_git_lfs;
use irq_core::tooling::git_submodule_update;
use irq_core::tooling::update_all;
use irq_core::tooling::GitLfsMissing;
use irq_core::tooling::ToolCommand;

#[test]
fn make_git_lfs_plans_install_and_pull_when_found() {
    let out = b"git-lfs/3.2.0 (GitHub; linux amd64)".to_vec();
    assert_eq!(
        make_git_lfs(Some(&out)),
        Ok(vec![ToolCommand::GitLfsInstall, ToolCommand::GitLfsPull])
    );
}

#[test]
fn make_git_lfs_reports_missing_on_foreign_output() {
    let out = b"git version 2.39.0".to_vec();
    assert_eq!(make_git_lfs(Some(&out)), Err(GitLfsMissing));
    let short = b"git-lfs".to_vec();
    assert_eq!(make_git_lfs(Some(&short)), Err(GitLfsMissing));
}

#[test]
fn make_git_lfs_reports_missing_when_probe_failed() {
    assert_eq!(make_git_lfs(None), Err(GitLfsMissing));
}

#[test]
fn git_submodule_update_passes_init_through() {
    assert_eq!(
        git_submodule_update(true),
        vec![ToolCommand::GitSubmoduleUpdate { init: true }]
    );
    assert_eq!(
        git_submodule_update(false),
        vec![ToolCommand::GitSubmoduleUpdate { init: false }]
    );
}

#[test]
fn update_all_refreshes_submodules_toolchain_then_cargo() {
    assert_eq!(
        update_all(),
        vec![
            ToolCommand::GitSubmoduleUpdate { init: false },
            ToolCommand::RustupUpdate,
            ToolCommand::CargoUpdate,
        ]
    );
}
