use buildinfo::errors::DetectError;
use buildinfo::project::{
    extract_pom_fields, java_project_info, javascript_project_info, project_info, project_type,
    rust_project_info, ManifestFiles, ProjectType, XmlEvent,
};

fn no_files() -> ManifestFiles {
    ManifestFiles {
        cargo_toml: None,
        pom_xml: None,
        package_json: None,
    }
}

#[test]
fn classification_priority_order() {
    let mut files = no_files();
    assert_eq!(project_type(&files), ProjectType::Other);
    files.package_json = Some("{}".to_string());
    assert_eq!(project_type(&files), ProjectType::JavaScript);
    files.pom_xml = Some("<project/>".to_string());
    assert_eq!(project_type(&files), ProjectType::Java);
    files.cargo_toml = Some("[package]".to_string());
    assert_eq!(project_type(&files), ProjectType::Rust);
}

#[test]
fn rust_manifest_extraction() {
    let content = "[package]\nname = \"demo\"\nversion = \"0.1.0\"\n";
    let p = rust_project_info(content, "/work/demo").unwrap();
    assert_eq!(p.project_type, ProjectType::Rust);
    assert_eq!(p.name, "demo");
    assert_eq!(p.version, "0.1.0");
    assert_eq!(p.target_path, "/work/demo/src/buildinfo.json");
}

#[test]
fn rust_manifest_missing_version_falls_back() {
    let content = "[package]\nname = \"demo\"\n";
    let p = rust_project_info(content, "/w").unwrap();
    assert_eq!(p.name, "demo");
    assert_eq!(p.version, "unknown");
}

#[test]
fn rust_manifest_non_string_field_falls_back() {
    let content = "[package]\nname = \"demo\"\nversion = 3\n";
    let p = rust_project_info(content, "/w").unwrap();
    assert_eq!(p.version, "unknown");
}

#[test]
fn rust_manifest_unparsable_fails() {
    let r = rust_project_info("not [ valid toml", "/w");
    assert_eq!(r.unwrap_err(), DetectError::ManifestParseError);
}

#[test]
fn javascript_manifest_extraction() {
    let content = "{\"name\": \"app\", \"version\": \"2.0.0\"}";
    let p = javascript_project_info(content, "/work/app").unwrap();
    assert_eq!(p.project_type, ProjectType::JavaScript);
    assert_eq!(p.name, "app");
    assert_eq!(p.version, "2.0.0");
    assert_eq!(p.target_path, "/work/app/src/buildinfo.json");
}

#[test]
fn javascript_manifest_missing_name_falls_back() {
    let content = "{\"version\": \"2.0.0\"}";
    let p = javascript_project_info(content, "/w").unwrap();
    assert_eq!(p.name, "unknown");
    assert_eq!(p.version, "2.0.0");
}

#[test]
fn javascript_manifest_unparsable_fails() {
    let r = javascript_project_info("{\"name\":", "/w");
    assert_eq!(r.unwrap_err(), DetectError::ManifestParseError);
}

#[test]
fn java_manifest_extraction() {
    let content = "<project><groupId>com.acme</groupId>\
                   <artifactId>app</artifactId>\
                   <version>1.2.3</version>\
                   <dependencies><dependency><groupId>x</groupId></dependency></dependencies>\
                   </project>";
    let p = java_project_info(content, "/work/java").unwrap();
    assert_eq!(p.project_type, ProjectType::Java);
    assert_eq!(p.name, "com.acme/app");
    assert_eq!(p.version, "1.2.3");
    assert_eq!(
        p.target_path,
        "/work/java/src/main/resources/META-INF/buildinfo.json"
    );
}

#[test]
fn java_manifest_missing_version_falls_back() {
    let content = "<project><groupId>g</groupId><artifactId>a</artifactId></project>";
    let p = java_project_info(content, "/w").unwrap();
    assert_eq!(p.name, "g/a");
    assert_eq!(p.version, "unknown");
}

#[test]
fn java_manifest_missing_group_makes_name_unknown() {
    let content = "<project><artifactId>a</artifactId><version>9</version></project>";
    let p = java_project_info(content, "/w").unwrap();
    assert_eq!(p.name, "unknown");
    assert_eq!(p.version, "9");
}

#[test]
fn java_manifest_unparsable_fails() {
    let r = java_project_info("<project><groupId>g</artifactId></project>", "/w");
    assert_eq!(r.unwrap_err(), DetectError::ManifestParseError);
}

#[test]
fn pom_fields_follow_the_event_stream() {
    let events = vec![
        XmlEvent::Start("project".to_string()),
        XmlEvent::Start("groupId".to_string()),
        XmlEvent::Text("com.acme".to_string()),
        XmlEvent::End,
        XmlEvent::Start("dependencies".to_string()),
        XmlEvent::Start("groupId".to_string()),
        XmlEvent::Text("nested".to_string()),
        XmlEvent::End,
        XmlEvent::End,
        XmlEvent::Start("version".to_string()),
        XmlEvent::Text("1.0".to_string()),
        XmlEvent::End,
        XmlEvent::End,
        XmlEvent::Eof,
    ];
    let fields = extract_pom_fields(&events).unwrap();
    assert_eq!(fields.group_id, Some("com.acme".to_string()));
    assert_eq!(fields.artifact_id, None);
    assert_eq!(fields.version, Some("1.0".to_string()));
}

#[test]
fn no_manifest_yields_unknown_identity() {
    let p = project_info(&no_files(), "/work/none").unwrap();
    assert_eq!(p.project_type, ProjectType::Other);
    assert_eq!(p.name, "unknown");
    assert_eq!(p.version, "unknown");
    assert_eq!(p.target_path, "/work/none/buildinfo.json");
}

#[test]
fn dispatch_prefers_rust_manifest() {
    let mut files = no_files();
    files.cargo_toml = Some("[package]\nname = \"demo\"\n".to_string());
    files.package_json = Some("{\"name\": \"app\"}".to_string());
    let p = project_info(&files, "/w").unwrap();
    assert_eq!(p.project_type, ProjectType::Rust);
    assert_eq!(p.name, "demo");
}
