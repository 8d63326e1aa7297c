//! The combined build-info record and its assembler: the three detectors'
//! outputs merged into the one versioned artifact that is persisted.

use vstd::prelude::*;

use std::collections::HashMap;

use crate::buildenv;
use crate::buildenv::{BuildEnvironment, build_outcome, classify};
use crate::env::Env;
use crate::git::GitInfo;
use crate::project;

verus! {

/// The project identity as persisted.
#[derive(Debug)]
pub struct ProjectInfo {
    pub name: String,
    pub version: String,
}

/// The source-control state as persisted.
#[derive(Debug)]
pub struct RepoInfo {
    pub repository: String,
    pub reference: String,
    pub commit: String,
    pub dirty: bool,
}

/// The build metadata as persisted, with the environment flattened to its
/// fixed lowercase label.
#[derive(Debug)]
pub struct BuilderInfo {
    pub environment: String,
    pub timestamp: String,
    pub number: u32,
    pub trigger: String,
}

/// The whole persisted record; `properties` is reserved for extension and
/// always empty here.
#[derive(Debug)]
pub struct BuildInfo {
    pub project: ProjectInfo,
    pub git: RepoInfo,
    pub build: BuilderInfo,
    pub properties: HashMap<String, String>,
}

/// The fixed lowercase serialization label of each build environment.
pub open spec fn environment_label(e: BuildEnvironment) -> Seq<char> {
    match e {
        BuildEnvironment::Local => "local"@,
        BuildEnvironment::GitHub => "github"@,
        BuildEnvironment::BitBucket => "bitbucket"@,
        BuildEnvironment::CodeBuild => "codebuild"@,
    }
}

/// How the combined record relates to the three detector outputs it was
/// assembled from: every field carried over unchanged, the environment
/// replaced by its label, and the properties mapping empty.
pub open spec fn assembled(
    r: &BuildInfo,
    b: &buildenv::BuildInfo,
    g: &GitInfo,
    p: &project::ProjectInfo,
) -> bool {
    r.project.name@ == p.name@ && r.project.version@ == p.version@ && r.git.repository@
        == g.repository@ && r.git.reference@ == g.reference@ && r.git.commit@ == g.commit@
        && r.git.dirty == g.dirty && r.build.environment@ == environment_label(b.environment)
        && r.build.timestamp@ == b.timestamp@ && r.build.number == b.number && r.build.trigger@
        == b.trigger@ && r.properties@ == Map::<String, String>::empty()
}

/// Merges the three detectors' outputs into one record; a pure step with
/// no failure mode, working only on already-validated inputs.
pub fn build(
    build_info: &buildenv::BuildInfo,
    git_info: &GitInfo,
    project_info: &project::ProjectInfo,
) -> (r: BuildInfo)
    ensures
        assembled(&r, build_info, git_info, project_info),
{
    BuildInfo {
        project: ProjectInfo {
            name: project_info.name.clone(),
            version: project_info.version.clone(),
        },
        git: RepoInfo {
            repository: git_info.repository.clone(),
            reference: git_info.reference.clone(),
            commit: git_info.commit.clone(),
            dirty: git_info.dirty,
        },
        build: BuilderInfo {
            environment: match build_info.environment {
                BuildEnvironment::Local => "local".to_owned(),
                BuildEnvironment::GitHub => "github".to_owned(),
                BuildEnvironment::BitBucket => "bitbucket".to_owned(),
                BuildEnvironment::CodeBuild => "codebuild".to_owned(),
            },
            timestamp: build_info.timestamp.clone(),
            number: build_info.number,
            trigger: build_info.trigger.clone(),
        },
        properties: HashMap::new(),
    }
}

/// Two records agree everywhere but possibly in the build timestamp.
pub open spec fn same_except_timestamp(a: &BuildInfo, b: &BuildInfo) -> bool {
    a.project.name@ == b.project.name@ && a.project.version@ == b.project.version@
        && a.git.repository@ == b.git.repository@ && a.git.reference@ == b.git.reference@
        && a.git.commit@ == b.git.commit@ && a.git.dirty == b.git.dirty && a.build.environment@
        == b.build.environment@ && a.build.number == b.build.number && a.build.trigger@
        == b.build.trigger@ && a.properties@ == b.properties@
}

/// Idempotence law: two generations against one environment, one
/// source-control state and one project identity assemble records that
/// differ at most in the build timestamp; and under the providers whose
/// timestamp comes from the environment rather than the local clock, not
/// even there.
pub proof fn lemma_generation_idempotent(
    env: &Env,
    user: Seq<char>,
    now1: Seq<char>,
    now2: Seq<char>,
    b1: buildenv::BuildInfo,
    b2: buildenv::BuildInfo,
    g1: &GitInfo,
    g2: &GitInfo,
    p1: &project::ProjectInfo,
    p2: &project::ProjectInfo,
    r1: &BuildInfo,
    r2: &BuildInfo,
)
    requires
        build_outcome(env, user, now1, Ok(b1)),
        build_outcome(env, user, now2, Ok(b2)),
        g1.repository@ == g2.repository@,
        g1.reference@ == g2.reference@,
        g1.commit@ == g2.commit@,
        g1.dirty == g2.dirty,
        p1.name@ == p2.name@,
        p1.version@ == p2.version@,
        assembled(r1, &b1, g1, p1),
        assembled(r2, &b2, g2, p2),
    ensures
        same_except_timestamp(r1, r2),
        classify(env) == BuildEnvironment::BitBucket || classify(env) == BuildEnvironment::CodeBuild
            ==> r1.build.timestamp@ == r2.build.timestamp@,
{
}

} // verus!
