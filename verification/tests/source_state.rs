use buildinfo::buildenv::{BuildEnvironment, BuildInfo};
use buildinfo::env::Env;
use buildinfo::errors::DetectError;
use buildinfo::git::{
    assemble_local_git_info, git_info, is_dirty, reference_name, STATUS_IGNORED,
};

const STATUS_WT_NEW: u32 = 128;

fn ci_build(environment: BuildEnvironment) -> BuildInfo {
    BuildInfo {
        environment,
        trigger: "t".to_string(),
        number: 1,
        timestamp: "now".to_string(),
    }
}

#[test]
fn ignored_entries_are_clean() {
    assert!(!is_dirty(&vec![]));
    assert!(!is_dirty(&vec![STATUS_IGNORED, STATUS_IGNORED]));
}

#[test]
fn one_untracked_entry_is_dirty() {
    assert!(is_dirty(&vec![STATUS_IGNORED, STATUS_WT_NEW]));
    assert!(is_dirty(&vec![STATUS_WT_NEW]));
}

#[test]
fn reference_falls_back_to_default() {
    assert_eq!(reference_name(Some("main".to_string())), "main");
    assert_eq!(reference_name(None), "default");
}

#[test]
fn local_state_is_assembled_from_working_copy_reads() {
    let commit = "abc1230000000000000000000000000000000000".to_string();
    let g = assemble_local_git_info(
        commit.clone(),
        Some("main".to_string()),
        "/work/demo".to_string(),
        &vec![STATUS_IGNORED, STATUS_WT_NEW],
    );
    assert_eq!(g.commit, commit);
    assert_eq!(g.reference, "main");
    assert_eq!(g.repository, "/work/demo");
    assert!(g.dirty);
}

#[test]
fn github_source_state() {
    let mut env = Env::empty();
    env.github_sha = Some("deadbeef".to_string());
    env.github_ref_name = Some("release".to_string());
    env.github_repository = Some("org/repo".to_string());
    let g = git_info(&ci_build(BuildEnvironment::GitHub), &env, ".").unwrap();
    assert_eq!(g.commit, "deadbeef");
    assert_eq!(g.reference, "release");
    assert_eq!(g.repository, "org/repo");
    assert!(!g.dirty);
}

#[test]
fn github_source_state_missing_sha() {
    let mut env = Env::empty();
    env.github_ref_name = Some("release".to_string());
    env.github_repository = Some("org/repo".to_string());
    let r = git_info(&ci_build(BuildEnvironment::GitHub), &env, ".");
    assert_eq!(r.unwrap_err(), DetectError::MissingEnvironmentData);
}

#[test]
fn bitbucket_branch_wins_over_tag() {
    let mut env = Env::empty();
    env.bitbucket_commit = Some("c0ffee".to_string());
    env.bitbucket_branch = Some("main".to_string());
    env.bitbucket_tag = Some("v1".to_string());
    env.bitbucket_repo_full_name = Some("team/repo".to_string());
    let g = git_info(&ci_build(BuildEnvironment::BitBucket), &env, ".").unwrap();
    assert_eq!(g.reference, "main");
}

#[test]
fn bitbucket_falls_back_to_tag() {
    let mut env = Env::empty();
    env.bitbucket_commit = Some("c0ffee".to_string());
    env.bitbucket_tag = Some("v1".to_string());
    env.bitbucket_repo_full_name = Some("team/repo".to_string());
    let g = git_info(&ci_build(BuildEnvironment::BitBucket), &env, ".").unwrap();
    assert_eq!(g.reference, "v1");
    assert!(!g.dirty);
}

#[test]
fn bitbucket_without_branch_or_tag_fails() {
    let mut env = Env::empty();
    env.bitbucket_commit = Some("c0ffee".to_string());
    env.bitbucket_repo_full_name = Some("team/repo".to_string());
    let r = git_info(&ci_build(BuildEnvironment::BitBucket), &env, ".");
    assert_eq!(r.unwrap_err(), DetectError::MissingEnvironmentData);
}

#[test]
fn codebuild_reference_has_undefined_fallback() {
    let mut env = Env::empty();
    env.codebuild_resolved_source_version = Some("1234abcd".to_string());
    env.codebuild_source_repo_url = Some("https://example.invalid/repo".to_string());
    let g = git_info(&ci_build(BuildEnvironment::CodeBuild), &env, ".").unwrap();
    assert_eq!(g.reference, "undefined");
    assert_eq!(g.commit, "1234abcd");
    assert!(!g.dirty);
}
