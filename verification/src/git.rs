//! Source-control state detection: repository identity and commit state,
//! read from a local working copy or from provider-supplied variables.

use vstd::prelude::*;

use crate::buildenv::{BuildEnvironment, BuildInfo};
use crate::env::Env;
use crate::errors::DetectError;

verus! {

/// The source-control state a build was made from.
#[derive(Debug, Clone)]
pub struct GitInfo {
    pub commit: String,
    pub reference: String,
    pub repository: String,
    pub dirty: bool,
}

/// The status bit git assigns to an entry it merely ignores: the value of
/// git2::Status::IGNORED, one bit at position fourteen.
pub const STATUS_IGNORED: u32 = 16384;

/// A working copy is dirty when some status entry is anything other than
/// "ignored": modified, new, deleted, renamed or conflicted all count.
pub open spec fn dirty_spec(status_bits: Seq<u32>) -> bool {
    exists|i: int| 0 <= i < status_bits.len() && status_bits[i] != STATUS_IGNORED
}

#[verifier::external_type_specification]
#[verifier::external_body]
pub struct ExRepository(git2::Repository);

#[verifier::external_type_specification]
#[verifier::external_body]
pub struct ExGitError(git2::Error);

/// Relies on git2::Repository::discover: searches upward from `path` for
/// an enclosing repository, failing when none is found.
#[verifier::external_body]
fn repo_discover(path: &str) -> (r: Result<git2::Repository, git2::Error>) {
    git2::Repository::discover(path)
}

/// Relies on git2::Repository::head, git2::Reference::peel_to_commit and
/// git2::Oid::to_string: the full hex hash of the commit HEAD points at.
#[verifier::external_body]
fn repo_head_commit(repo: &git2::Repository) -> (r: Result<String, git2::Error>) {
    let head = repo.head()?;
    let commit = head.peel_to_commit()?;
    Ok(commit.id().to_string())
}

/// Relies on git2::Repository::head and git2::Reference::shorthand: the
/// short human-readable name of HEAD, or nothing where none can be given.
#[verifier::external_body]
fn repo_head_shorthand(repo: &git2::Repository) -> (r: Result<Option<String>, git2::Error>) {
    let head = repo.head()?;
    Ok(head.shorthand().ok().map(|s| s.to_string()))
}

/// Relies on git2::Repository::workdir: the root of the working copy,
/// absent for a bare repository.
#[verifier::external_body]
fn repo_workdir(repo: &git2::Repository) -> (r: Option<String>) {
    repo.workdir().map(|p| p.to_string_lossy().to_string())
}

/// Relies on git2::Repository::statuses and git2::StatusEntry::status: the
/// status bits of every working-tree entry, in the order git reports them.
#[verifier::external_body]
fn repo_status_bits(repo: &git2::Repository) -> (r: Result<Vec<u32>, git2::Error>) {
    let statuses = repo.statuses(None)?;
    Ok(statuses.iter().map(|e| e.status().bits()).collect())
}

/// Decides dirtiness from the status entries: ignored-only listings are
/// clean, anything else makes the working copy dirty.
pub fn is_dirty(status_bits: &Vec<u32>) -> (r: bool)
    ensures
        r == dirty_spec(status_bits@),
{
    let mut i: usize = 0;
    while i < status_bits.len()
        invariant
            0 <= i <= status_bits@.len(),
            forall|j: int| 0 <= j < i ==> status_bits@[j] == STATUS_IGNORED,
        decreases status_bits@.len() - i,
    {
        if status_bits[i] != STATUS_IGNORED {
            return true;
        }
        i = i + 1;
    }
    false
}

/// Dirty-detection law: a working copy whose entries are all ignored is
/// clean, and one further entry of any other status makes it dirty.
pub proof fn lemma_dirty_detection(status_bits: Seq<u32>, extra: u32)
    ensures
        (forall|i: int| 0 <= i < status_bits.len() ==> status_bits[i] == STATUS_IGNORED)
            ==> !dirty_spec(status_bits),
        extra != STATUS_IGNORED ==> dirty_spec(status_bits.push(extra)),
{
    if extra != STATUS_IGNORED {
        assert(status_bits.push(extra)[status_bits.len() as int] == extra);
    }
}

/// The symbolic name of HEAD, or the fixed fallback where HEAD has no
/// short name.
pub fn reference_name(shorthand: Option<String>) -> (r: String)
    ensures
        shorthand matches Some(s) ==> r@ == s@,
        shorthand is None ==> r@ == "default"@,
{
    match shorthand {
        Option::Some(s) => s,
        Option::None => "default".to_owned(),
    }
}

/// Combines what was read from a live working copy into its record; the
/// dirty flag comes from the status entries alone.
pub fn assemble_local_git_info(
    commit: String,
    shorthand: Option<String>,
    workdir: String,
    status_bits: &Vec<u32>,
) -> (g: GitInfo)
    ensures
        g.commit@ == commit@,
        shorthand matches Some(s) ==> g.reference@ == s@,
        shorthand is None ==> g.reference@ == "default"@,
        g.repository@ == workdir@,
        g.dirty == dirty_spec(status_bits@),
{
    let dirty = is_dirty(status_bits);
    GitInfo {
        commit,
        reference: reference_name(shorthand),
        repository: workdir,
        dirty,
    }
}

/// Queries the enclosing working copy, searching upward from `path`.
/// What comes back depends on the repository on disk, which no contract
/// over the arguments can pin down; the combination of the five reads is
/// `assemble_local_git_info`, whose contract is exact for every value
/// they can take. In particular the dirty flag is `is_dirty` of whatever
/// status entries `repo_status_bits` reports: an entry that is exactly
/// ignored never counts, anything else does. No repository maps to
/// `RepositoryNotFound` (a bare repository has no working copy), any
/// later failed read to `IoError`.
pub fn local_git_info(path: &str) -> (r: Result<GitInfo, DetectError>)
    ensures
        r matches Err(e) ==> (e == DetectError::RepositoryNotFound || e == DetectError::IoError),
{
    let repo = match repo_discover(path) {
        Ok(repo) => repo,
        Err(_) => {
            return Err(DetectError::RepositoryNotFound);
        },
    };
    let commit = match repo_head_commit(&repo) {
        Ok(commit) => commit,
        Err(_) => {
            return Err(DetectError::IoError);
        },
    };
    let shorthand = match repo_head_shorthand(&repo) {
        Ok(shorthand) => shorthand,
        Err(_) => {
            return Err(DetectError::IoError);
        },
    };
    let workdir = match repo_workdir(&repo) {
        Option::Some(workdir) => workdir,
        Option::None => {
            return Err(DetectError::RepositoryNotFound);
        },
    };
    let status_bits = match repo_status_bits(&repo) {
        Ok(bits) => bits,
        Err(_) => {
            return Err(DetectError::IoError);
        },
    };
    Ok(assemble_local_git_info(commit, shorthand, workdir, &status_bits))
}

/// What CI extraction returns under a GitHub classification: commit,
/// reference and repository slug are read directly, and the checkout is
/// clean by construction.
pub open spec fn github_git_outcome(env: &Env, r: Result<GitInfo, DetectError>) -> bool {
    match (env.github_sha, env.github_ref_name, env.github_repository) {
        (Option::Some(sha), Option::Some(ref_name), Option::Some(repository)) => r matches Ok(g)
            && g.commit@ == sha@
            && g.reference@ == ref_name@
            && g.repository@ == repository@
            && !g.dirty,
        _ => r == Err::<GitInfo, DetectError>(DetectError::MissingEnvironmentData),
    }
}

/// What CI extraction returns under a BitBucket classification: the
/// reference falls back from branch to tag, and fails only when neither
/// is present.
pub open spec fn bitbucket_git_outcome(env: &Env, r: Result<GitInfo, DetectError>) -> bool {
    match env.bitbucket_commit {
        Option::None => r == Err::<GitInfo, DetectError>(DetectError::MissingEnvironmentData),
        Option::Some(commit) => match (env.bitbucket_branch, env.bitbucket_tag) {
            (Option::None, Option::None) => r == Err::<GitInfo, DetectError>(
                DetectError::MissingEnvironmentData,
            ),
            (branch, tag) => match env.bitbucket_repo_full_name {
                Option::None => r == Err::<GitInfo, DetectError>(DetectError::MissingEnvironmentData),
                Option::Some(repository) => r matches Ok(g)
                    && g.commit@ == commit@
                    && (match branch {
                        Option::Some(b) => g.reference@ == b@,
                        Option::None => g.reference@ == tag.unwrap()@,
                    })
                    && g.repository@ == repository@
                    && !g.dirty,
            },
        },
    }
}

/// What CI extraction returns under a CodeBuild classification: the
/// source version has a documented literal fallback instead of failing.
pub open spec fn codebuild_git_outcome(env: &Env, r: Result<GitInfo, DetectError>) -> bool {
    match (env.codebuild_resolved_source_version, env.codebuild_source_repo_url) {
        (Option::Some(commit), Option::Some(repository)) => r matches Ok(g)
            && g.commit@ == commit@
            && (match env.codebuild_source_version {
                Option::Some(v) => g.reference@ == v@,
                Option::None => g.reference@ == "undefined"@,
            })
            && g.repository@ == repository@
            && !g.dirty,
        _ => r == Err::<GitInfo, DetectError>(DetectError::MissingEnvironmentData),
    }
}

/// Extracts GitHub source state from the environment.
pub fn github_git_info(env: &Env) -> (r: Result<GitInfo, DetectError>)
    ensures
        github_git_outcome(env, r),
{
    let commit = match &env.github_sha {
        Option::Some(sha) => sha.clone(),
        Option::None => {
            return Err(DetectError::MissingEnvironmentData);
        },
    };
    let reference = match &env.github_ref_name {
        Option::Some(ref_name) => ref_name.clone(),
        Option::None => {
            return Err(DetectError::MissingEnvironmentData);
        },
    };
    let repository = match &env.github_repository {
        Option::Some(repository) => repository.clone(),
        Option::None => {
            return Err(DetectError::MissingEnvironmentData);
        },
    };
    Ok(GitInfo { commit, reference, repository, dirty: false })
}

/// Extracts BitBucket source state from the environment, falling back
/// from branch to tag for the reference.
pub fn bitbucket_git_info(env: &Env) -> (r: Result<GitInfo, DetectError>)
    ensures
        bitbucket_git_outcome(env, r),
{
    let commit = match &env.bitbucket_commit {
        Option::Some(commit) => commit.clone(),
        Option::None => {
            return Err(DetectError::MissingEnvironmentData);
        },
    };
    let reference = match &env.bitbucket_branch {
        Option::Some(branch) => branch.clone(),
        Option::None => match &env.bitbucket_tag {
            Option::Some(tag) => tag.clone(),
            Option::None => {
                return Err(DetectError::MissingEnvironmentData);
            },
        },
    };
    let repository = match &env.bitbucket_repo_full_name {
        Option::Some(repository) => repository.clone(),
        Option::None => {
            return Err(DetectError::MissingEnvironmentData);
        },
    };
    Ok(GitInfo { commit, reference, repository, dirty: false })
}

/// Extracts CodeBuild source state from the environment, with the
/// documented fallback for an absent source version.
pub fn codebuild_git_info(env: &Env) -> (r: Result<GitInfo, DetectError>)
    ensures
        codebuild_git_outcome(env, r),
{
    let commit = match &env.codebuild_resolved_source_version {
        Option::Some(commit) => commit.clone(),
        Option::None => {
            return Err(DetectError::MissingEnvironmentData);
        },
    };
    let reference = match &env.codebuild_source_version {
        Option::Some(v) => v.clone(),
        Option::None => "undefined".to_owned(),
    };
    let repository = match &env.codebuild_source_repo_url {
        Option::Some(repository) => repository.clone(),
        Option::None => {
            return Err(DetectError::MissingEnvironmentData);
        },
    };
    Ok(GitInfo { commit, reference, repository, dirty: false })
}

/// What source-state detection returns for the CI classifications, where
/// everything is read from the environment.
pub open spec fn git_ci_outcome(
    environment: BuildEnvironment,
    env: &Env,
    r: Result<GitInfo, DetectError>,
) -> bool {
    match environment {
        BuildEnvironment::GitHub => github_git_outcome(env, r),
        BuildEnvironment::BitBucket => bitbucket_git_outcome(env, r),
        BuildEnvironment::CodeBuild => codebuild_git_outcome(env, r),
        BuildEnvironment::Local => true,
    }
}

/// Detects the source-control state for the classified environment. The
/// local branch queries the working copy enclosing `path`; every CI
/// branch reads the environment alone, with an exact outcome.
pub fn git_info(environment: &BuildInfo, env: &Env, path: &str) -> (r: Result<GitInfo, DetectError>)
    ensures
        git_ci_outcome(environment.environment, env, r),
        environment.environment != BuildEnvironment::Local ==> (r matches Ok(g) ==> !g.dirty),
        environment.environment == BuildEnvironment::Local ==> (r matches Err(e)
            ==> (e == DetectError::RepositoryNotFound || e == DetectError::IoError)),
{
    match environment.environment {
        BuildEnvironment::Local => local_git_info(path),
        BuildEnvironment::GitHub => github_git_info(env),
        BuildEnvironment::BitBucket => bitbucket_git_info(env),
        BuildEnvironment::CodeBuild => codebuild_git_info(env),
    }
}

/// Clean-checkout law: a record produced by any CI branch never reports a
/// dirty working copy; only a live local working copy can.
pub proof fn lemma_ci_never_dirty(
    environment: BuildEnvironment,
    env: &Env,
    r: Result<GitInfo, DetectError>,
)
    requires
        environment != BuildEnvironment::Local,
        git_ci_outcome(environment, env, r),
    ensures
        r matches Ok(g) ==> !g.dirty,
{
}

} // verus!
