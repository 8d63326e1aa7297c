//! The process environment, modelled as an explicit key-value snapshot.
//!
//! Each field holds the value of one fixed environment variable, or `None`
//! when that variable is not set. The caller takes the snapshot once and
//! hands it to every detector, so detection never reads ambient process
//! state. An empty string counts as present, exactly as a set-but-empty
//! environment variable does.

use vstd::prelude::*;

verus! {

/// Snapshot of every environment variable the detectors consume.
#[derive(Debug, Clone)]
pub struct Env {
    pub github_run_number: Option<String>,
    pub github_actor: Option<String>,
    pub github_sha: Option<String>,
    pub github_ref_name: Option<String>,
    pub github_repository: Option<String>,

    pub bitbucket_build_number: Option<String>,
    pub bitbucket_build_creator: Option<String>,
    pub bitbucket_build_created_on: Option<String>,
    pub bitbucket_commit: Option<String>,
    pub bitbucket_branch: Option<String>,
    pub bitbucket_tag: Option<String>,
    pub bitbucket_repo_full_name: Option<String>,

    pub codebuild_build_id: Option<String>,
    pub codebuild_initiator: Option<String>,
    pub codebuild_build_number: Option<String>,
    pub codebuild_start_time: Option<String>,
    pub codebuild_resolved_source_version: Option<String>,
    pub codebuild_source_version: Option<String>,
    pub codebuild_source_repo_url: Option<String>,
}

impl Env {
    /// An environment with no variable set: what a plain local shell
    /// without any CI marker looks like to the detectors.
    pub fn empty() -> (e: Env)
        ensures
            e.github_run_number is None,
            e.github_actor is None,
            e.github_sha is None,
            e.github_ref_name is None,
            e.github_repository is None,
            e.bitbucket_build_number is None,
            e.bitbucket_build_creator is None,
            e.bitbucket_build_created_on is None,
            e.bitbucket_commit is None,
            e.bitbucket_branch is None,
            e.bitbucket_tag is None,
            e.bitbucket_repo_full_name is None,
            e.codebuild_build_id is None,
            e.codebuild_initiator is None,
            e.codebuild_build_number is None,
            e.codebuild_start_time is None,
            e.codebuild_resolved_source_version is None,
            e.codebuild_source_version is None,
            e.codebuild_source_repo_url is None,
    {
        Env {
            github_run_number: None,
            github_actor: None,
            github_sha: None,
            github_ref_name: None,
            github_repository: None,
            bitbucket_build_number: None,
            bitbucket_build_creator: None,
            bitbucket_build_created_on: None,
            bitbucket_commit: None,
            bitbucket_branch: None,
            bitbucket_tag: None,
            bitbucket_repo_full_name: None,
            codebuild_build_id: None,
            codebuild_initiator: None,
            codebuild_build_number: None,
            codebuild_start_time: None,
            codebuild_resolved_source_version: None,
            codebuild_source_version: None,
            codebuild_source_repo_url: None,
        }
    }
}

} // verus!
