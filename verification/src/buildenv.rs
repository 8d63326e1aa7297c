//! Build-environment detection: classifies the execution context into one of
//! a fixed set of providers and extracts the provider's build metadata.

use vstd::prelude::*;

use crate::digits::{digits_part, decimal_value, is_valid_u32, parse_u32};
use crate::env::Env;
use crate::errors::DetectError;

verus! {

/// The execution context a build runs under, decided once per run.
#[derive(Debug, Clone, Copy, PartialEq, Eq, Structural)]
pub enum BuildEnvironment {
    GitHub,
    BitBucket,
    CodeBuild,
    Local,
}

/// Which provider an environment classifies as: the first provider whose
/// marker variable is present wins, and a host with no marker is Local.
pub open spec fn classify(env: &Env) -> BuildEnvironment {
    if env.github_run_number is Some {
        BuildEnvironment::GitHub
    } else if env.bitbucket_build_number is Some {
        BuildEnvironment::BitBucket
    } else if env.codebuild_build_id is Some {
        BuildEnvironment::CodeBuild
    } else {
        BuildEnvironment::Local
    }
}

/// Classifies the environment by probing the provider markers in the fixed
/// precedence order.
pub fn build_environment(env: &Env) -> (r: BuildEnvironment)
    ensures
        r == classify(env),
{
    if env.github_run_number.is_some() {
        BuildEnvironment::GitHub
    } else if env.bitbucket_build_number.is_some() {
        BuildEnvironment::BitBucket
    } else if env.codebuild_build_id.is_some() {
        BuildEnvironment::CodeBuild
    } else {
        BuildEnvironment::Local
    }
}

/// One build's metadata: where it ran, who triggered it, its sequence
/// number, and when it started.
#[derive(Debug, Clone)]
pub struct BuildInfo {
    pub environment: BuildEnvironment,
    pub trigger: String,
    pub number: u32,
    pub timestamp: String,
}

/// What extraction returns under a GitHub classification: the actor and the
/// run number are read from the environment, the timestamp is the captured
/// local instant. A missing actor is reported before a bad run number.
pub open spec fn github_outcome(env: &Env, now: Seq<char>, r: Result<BuildInfo, DetectError>) -> bool {
    match env.github_actor {
        Option::None => r == Err::<BuildInfo, DetectError>(DetectError::MissingEnvironmentData),
        Option::Some(actor) => match env.github_run_number {
            Option::None => false,  // excluded by the GitHub classification
            Option::Some(number) => if !is_valid_u32(number@) {
                r == Err::<BuildInfo, DetectError>(DetectError::MalformedBuildNumber)
            } else {
                r matches Ok(b)
                    && b.environment == BuildEnvironment::GitHub
                    && b.trigger@ == actor@
                    && b.number == decimal_value(digits_part(number@))
                    && b.timestamp@ == now
            },
        },
    }
}

/// What extraction returns under a BitBucket classification: creator, build
/// number and creation time are read from the environment. Errors are
/// reported in that order of reads.
pub open spec fn bitbucket_outcome(env: &Env, r: Result<BuildInfo, DetectError>) -> bool {
    match env.bitbucket_build_creator {
        Option::None => r == Err::<BuildInfo, DetectError>(DetectError::MissingEnvironmentData),
        Option::Some(creator) => match env.bitbucket_build_number {
            Option::None => false,  // excluded by the BitBucket classification
            Option::Some(number) => if !is_valid_u32(number@) {
                r == Err::<BuildInfo, DetectError>(DetectError::MalformedBuildNumber)
            } else {
                match env.bitbucket_build_created_on {
                    Option::None => r == Err::<BuildInfo, DetectError>(DetectError::MissingEnvironmentData),
                    Option::Some(created_on) => r matches Ok(b)
                        && b.environment == BuildEnvironment::BitBucket
                        && b.trigger@ == creator@
                        && b.number == decimal_value(digits_part(number@))
                        && b.timestamp@ == created_on@,
                }
            },
        },
    }
}

/// What extraction returns under a CodeBuild classification: initiator,
/// build number and start time are read from the environment; unlike the
/// other providers the build number is not the marker, so it too can be
/// absent. Errors are reported in that order of reads.
pub open spec fn codebuild_outcome(env: &Env, r: Result<BuildInfo, DetectError>) -> bool {
    match env.codebuild_initiator {
        Option::None => r == Err::<BuildInfo, DetectError>(DetectError::MissingEnvironmentData),
        Option::Some(initiator) => match env.codebuild_build_number {
            Option::None => r == Err::<BuildInfo, DetectError>(DetectError::MissingEnvironmentData),
            Option::Some(number) => if !is_valid_u32(number@) {
                r == Err::<BuildInfo, DetectError>(DetectError::MalformedBuildNumber)
            } else {
                match env.codebuild_start_time {
                    Option::None => r == Err::<BuildInfo, DetectError>(DetectError::MissingEnvironmentData),
                    Option::Some(start_time) => r matches Ok(b)
                        && b.environment == BuildEnvironment::CodeBuild
                        && b.trigger@ == initiator@
                        && b.number == decimal_value(digits_part(number@))
                        && b.timestamp@ == start_time@,
                }
            },
        },
    }
}

/// What detection returns as a whole: the classified environment selects
/// the extraction branch; a local build is synthesized from the current
/// user and the captured instant and always succeeds with number 1.
pub open spec fn build_outcome(
    env: &Env,
    user: Seq<char>,
    now: Seq<char>,
    r: Result<BuildInfo, DetectError>,
) -> bool {
    match classify(env) {
        BuildEnvironment::GitHub => github_outcome(env, now, r),
        BuildEnvironment::BitBucket => bitbucket_outcome(env, r),
        BuildEnvironment::CodeBuild => codebuild_outcome(env, r),
        BuildEnvironment::Local => r matches Ok(b)
            && b.environment == BuildEnvironment::Local
            && b.trigger@ == user
            && b.number == 1
            && b.timestamp@ == now,
    }
}

/// Extracts GitHub build metadata; `now` is the captured local instant,
/// which this provider uses as the build timestamp.
pub fn github_build_info(env: &Env, now: &str) -> (r: Result<BuildInfo, DetectError>)
    requires
        classify(env) == BuildEnvironment::GitHub,
    ensures
        github_outcome(env, now@, r),
{
    let trigger = match &env.github_actor {
        Option::Some(actor) => actor.clone(),
        Option::None => {
            return Err(DetectError::MissingEnvironmentData);
        },
    };
    let number = match &env.github_run_number {
        Option::Some(number) => match parse_u32(number.as_str()) {
            Option::Some(n) => n,
            Option::None => {
                return Err(DetectError::MalformedBuildNumber);
            },
        },
        Option::None => {
            return Err(DetectError::MissingEnvironmentData);
        },
    };
    Ok(BuildInfo {
        environment: BuildEnvironment::GitHub,
        trigger,
        number,
        timestamp: now.to_owned(),
    })
}

/// Extracts BitBucket build metadata, whose timestamp is the pipeline's
/// own creation time.
pub fn bitbucket_build_info(env: &Env) -> (r: Result<BuildInfo, DetectError>)
    requires
        classify(env) == BuildEnvironment::BitBucket,
    ensures
        bitbucket_outcome(env, r),
{
    let trigger = match &env.bitbucket_build_creator {
        Option::Some(creator) => creator.clone(),
        Option::None => {
            return Err(DetectError::MissingEnvironmentData);
        },
    };
    let number = match &env.bitbucket_build_number {
        Option::Some(number) => match parse_u32(number.as_str()) {
            Option::Some(n) => n,
            Option::None => {
                return Err(DetectError::MalformedBuildNumber);
            },
        },
        Option::None => {
            return Err(DetectError::MissingEnvironmentData);
        },
    };
    let timestamp = match &env.bitbucket_build_created_on {
        Option::Some(created_on) => created_on.clone(),
        Option::None => {
            return Err(DetectError::MissingEnvironmentData);
        },
    };
    Ok(BuildInfo {
        environment: BuildEnvironment::BitBucket,
        trigger,
        number,
        timestamp,
    })
}

/// Extracts CodeBuild build metadata, whose timestamp is the build's
/// recorded start time.
pub fn codebuild_build_info(env: &Env) -> (r: Result<BuildInfo, DetectError>)
    requires
        classify(env) == BuildEnvironment::CodeBuild,
    ensures
        codebuild_outcome(env, r),
{
    let trigger = match &env.codebuild_initiator {
        Option::Some(initiator) => initiator.clone(),
        Option::None => {
            return Err(DetectError::MissingEnvironmentData);
        },
    };
    let number = match &env.codebuild_build_number {
        Option::Some(number) => match parse_u32(number.as_str()) {
            Option::Some(n) => n,
            Option::None => {
                return Err(DetectError::MalformedBuildNumber);
            },
        },
        Option::None => {
            return Err(DetectError::MissingEnvironmentData);
        },
    };
    let timestamp = match &env.codebuild_start_time {
        Option::Some(start_time) => start_time.clone(),
        Option::None => {
            return Err(DetectError::MissingEnvironmentData);
        },
    };
    Ok(BuildInfo {
        environment: BuildEnvironment::CodeBuild,
        trigger,
        number,
        timestamp,
    })
}

/// Synthesizes local build metadata: the current user as trigger, a fixed
/// sequence number of 1, and the captured instant as timestamp.
pub fn local_build_info(user: &str, now: &str) -> (r: BuildInfo)
    ensures
        r.environment == BuildEnvironment::Local,
        r.trigger@ == user@,
        r.number == 1,
        r.timestamp@ == now@,
{
    BuildInfo {
        environment: BuildEnvironment::Local,
        trigger: user.to_owned(),
        number: 1,
        timestamp: now.to_owned(),
    }
}

/// Detects the build environment and extracts its metadata. `user` is the
/// current OS user name and `now` the local instant captured once per run;
/// both are consumed only by the branches whose providers do not supply
/// the corresponding value themselves.
pub fn build_info(env: &Env, user: &str, now: &str) -> (r: Result<BuildInfo, DetectError>)
    ensures
        build_outcome(env, user@, now@, r),
{
    match build_environment(env) {
        BuildEnvironment::Local => Ok(local_build_info(user, now)),
        BuildEnvironment::GitHub => github_build_info(env, now),
        BuildEnvironment::BitBucket => bitbucket_build_info(env),
        BuildEnvironment::CodeBuild => codebuild_build_info(env),
    }
}

/// Local-counter law: no real build counter exists locally, so a record
/// detected in a local environment always carries sequence number 1.
pub proof fn lemma_local_build_number(
    env: &Env,
    user: Seq<char>,
    now: Seq<char>,
    r: Result<BuildInfo, DetectError>,
)
    requires
        classify(env) == BuildEnvironment::Local,
        build_outcome(env, user, now, r),
    ensures
        r matches Ok(b) && b.number == 1,
{
}

/// Precedence law: when markers of two providers are present at once, the
/// earlier provider in the fixed order is selected, never the later one.
pub proof fn lemma_classification_precedence(env: &Env)
    ensures
        env.github_run_number is Some ==> classify(env) == BuildEnvironment::GitHub,
        env.github_run_number is None && env.bitbucket_build_number is Some
            ==> classify(env) == BuildEnvironment::BitBucket,
        env.github_run_number is None && env.bitbucket_build_number is None
            && env.codebuild_build_id is Some
            ==> classify(env) == BuildEnvironment::CodeBuild,
        env.github_run_number is None && env.bitbucket_build_number is None
            && env.codebuild_build_id is None
            ==> classify(env) == BuildEnvironment::Local,
{
}

} // verus!
