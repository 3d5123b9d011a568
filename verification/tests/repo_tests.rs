use githooks::hookspath::HookPaths;
use githooks::paths::{join_path, Platform};

#[test]
fn test_resolution_without_config_returns_default_candidate() {
    let td = tempfile::TempDir::new().unwrap();
    let repo = git2::Repository::init(td.path()).unwrap();
    let hp = HookPaths::new(Platform::Unix, &repo, None, "pre-commit").unwrap();
    let git_dir = repo.path().to_str().unwrap();
    let expected = join_path(
        Platform::Unix,
        &join_path(Platform::Unix, git_dir, "hooks"),
        "pre-commit",
    );
    assert_eq!(hp.hook, expected);
    assert_eq!(hp.pwd, repo.workdir().unwrap().to_str().unwrap());
    assert_eq!(hp.git, git_dir);
}

#[test]
fn test_resolution_relative_config_resolves_against_worktree() {
    let td = tempfile::TempDir::new().unwrap();
    let repo = git2::Repository::init(td.path()).unwrap();
    let mut config = repo.config().unwrap();
    config.set_str("core.hooksPath", "my_hooks").unwrap();
    let hp = HookPaths::new(Platform::Unix, &repo, None, "commit-msg").unwrap();
    let workdir = repo.workdir().unwrap().to_str().unwrap();
    let expected = join_path(Platform::Unix, workdir, "my_hooks/commit-msg");
    assert_eq!(hp.hook, expected);
}

#[test]
fn test_resolution_absolute_config_used_as_is() {
    let td = tempfile::TempDir::new().unwrap();
    let repo = git2::Repository::init(td.path()).unwrap();
    let hooks_dir = td.path().join("elsewhere");
    let hooks_dir_str = hooks_dir.to_str().unwrap();
    let mut config = repo.config().unwrap();
    config.set_str("core.hooksPath", hooks_dir_str).unwrap();
    let hp = HookPaths::new(Platform::Unix, &repo, None, "commit-msg").unwrap();
    let expected = join_path(Platform::Unix, hooks_dir_str, "commit-msg");
    assert_eq!(hp.hook, expected);
}

#[test]
fn test_resolution_bare_repo_runs_in_git_dir() {
    let td = tempfile::TempDir::new().unwrap();
    let repo = git2::Repository::init_bare(td.path()).unwrap();
    let hp = HookPaths::new(Platform::Unix, &repo, None, "post-commit").unwrap();
    let git_dir = repo.path().to_str().unwrap();
    assert_eq!(hp.pwd, git_dir);
    let expected = join_path(
        Platform::Unix,
        &join_path(Platform::Unix, git_dir, "hooks"),
        "post-commit",
    );
    assert_eq!(hp.hook, expected);
}
