use buildinfo::buildenv::build_info;
use buildinfo::env::Env;
use buildinfo::git::{assemble_local_git_info, git_info};
use buildinfo::project::{project_info, ManifestFiles};
use buildinfo::v1;

const STATUS_WT_NEW: u32 = 128;

#[test]
fn local_scenario_record() {
    let commit = "abc1234567890123456789012345678901234567".to_string();
    let env = Env::empty();
    let b = build_info(&env, "alice", "2024-05-01T10:00:00Z").unwrap();
    let g = assemble_local_git_info(
        commit.clone(),
        Some("main".to_string()),
        "/work/demo".to_string(),
        &vec![STATUS_WT_NEW],
    );
    let files = ManifestFiles {
        cargo_toml: Some("[package]\nname = \"demo\"\nversion = \"0.1.0\"\n".to_string()),
        pom_xml: None,
        package_json: None,
    };
    let p = project_info(&files, "/work/demo").unwrap();
    assert_eq!(p.target_path, "/work/demo/src/buildinfo.json");

    let record = v1::build(&b, &g, &p);
    assert_eq!(record.project.name, "demo");
    assert_eq!(record.project.version, "0.1.0");
    assert_eq!(record.git.commit, commit);
    assert!(record.git.dirty);
    assert_eq!(record.git.reference, "main");
    assert_eq!(record.git.repository, "/work/demo");
    assert_eq!(record.build.environment, "local");
    assert_eq!(record.build.number, 1);
    assert_eq!(record.build.trigger, "alice");
    assert_eq!(record.build.timestamp, "2024-05-01T10:00:00Z");
    assert!(record.properties.is_empty());
}

#[test]
fn github_scenario_record_is_clean() {
    let mut env = Env::empty();
    env.github_run_number = Some("9".to_string());
    env.github_actor = Some("alice".to_string());
    env.github_sha = Some("deadbeef".to_string());
    env.github_ref_name = Some("release".to_string());
    env.github_repository = Some("org/repo".to_string());
    let b = build_info(&env, "u", "2024-05-01T10:00:00Z").unwrap();
    let g = git_info(&b, &env, ".").unwrap();
    let files = ManifestFiles {
        cargo_toml: None,
        pom_xml: None,
        package_json: None,
    };
    let p = project_info(&files, "/ci/checkout").unwrap();
    let record = v1::build(&b, &g, &p);
    assert_eq!(record.build.environment, "github");
    assert_eq!(record.git.commit, "deadbeef");
    assert!(!record.git.dirty);
    assert_eq!(record.project.name, "unknown");
    assert_eq!(record.project.version, "unknown");
}

#[test]
fn repeated_generation_differs_only_in_timestamp() {
    let env = Env::empty();
    let b1 = build_info(&env, "alice", "2024-05-01T10:00:00Z").unwrap();
    let b2 = build_info(&env, "alice", "2024-05-01T10:00:07Z").unwrap();
    let make_git = || {
        assemble_local_git_info(
            "abc1234567890123456789012345678901234567".to_string(),
            Some("main".to_string()),
            "/work/demo".to_string(),
            &vec![],
        )
    };
    let files = ManifestFiles {
        cargo_toml: Some("[package]\nname = \"demo\"\nversion = \"0.1.0\"\n".to_string()),
        pom_xml: None,
        package_json: None,
    };
    let p1 = project_info(&files, "/work/demo").unwrap();
    let p2 = project_info(&files, "/work/demo").unwrap();
    let r1 = v1::build(&b1, &make_git(), &p1);
    let r2 = v1::build(&b2, &make_git(), &p2);
    assert_eq!(r1.project.name, r2.project.name);
    assert_eq!(r1.project.version, r2.project.version);
    assert_eq!(r1.git.repository, r2.git.repository);
    assert_eq!(r1.git.reference, r2.git.reference);
    assert_eq!(r1.git.commit, r2.git.commit);
    assert_eq!(r1.git.dirty, r2.git.dirty);
    assert_eq!(r1.build.environment, r2.build.environment);
    assert_eq!(r1.build.number, r2.build.number);
    assert_eq!(r1.build.trigger, r2.build.trigger);
    assert_eq!(r1.properties.len(), r2.properties.len());
    assert_ne!(r1.build.timestamp, r2.build.timestamp);
}
