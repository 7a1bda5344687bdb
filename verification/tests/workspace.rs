use std::path::PathBuf;

use sandbox_pipeline::command::base_command;
use tempfile::TempDir;

#[test]
fn two_workspaces_never_collide() {
    // Two independent submissions must get distinct workspaces, so neither
    // can observe the other's source or artifact.
    let first = TempDir::new().expect("workspace creation");
    let second = TempDir::new().expect("workspace creation");
    assert_ne!(first.path(), second.path());
    assert!(first.path().is_dir());
    assert!(second.path().is_dir());
}

#[test]
fn two_workspaces_get_distinct_bind_mounts() {
    let first = TempDir::new().expect("workspace creation");
    let second = TempDir::new().expect("workspace creation");
    let first_argv = base_command(first.path().to_str().expect("utf-8 path"));
    let second_argv = base_command(second.path().to_str().expect("utf-8 path"));
    assert_ne!(first_argv[4], second_argv[4]);
}

#[test]
fn workspace_is_removed_when_released() {
    // The workspace must be gone once the owning pipeline's lifetime ends.
    let workspace = TempDir::new().expect("workspace creation");
    let path: PathBuf = workspace.path().to_path_buf();
    assert!(path.is_dir());
    drop(workspace);
    assert!(!path.exists());
}
