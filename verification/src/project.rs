//! Project-manifest detection: classifies the project's ecosystem from the
//! manifest files present, and extracts its name and version.

use vstd::prelude::*;
use vstd::string::StringExecFns;

use crate::errors::DetectError;

verus! {

/// The ecosystem a project belongs to, decided by which manifest file is
/// present.
#[derive(Debug, Clone, Copy, PartialEq, Eq, Structural)]
pub enum ProjectType {
    Rust,
    Java,
    JavaScript,
    Other,
}

/// The project's identity and where its generated record belongs.
#[derive(Debug, Clone)]
pub struct ProjectInfo {
    pub project_type: ProjectType,
    pub name: String,
    pub version: String,
    pub target_path: String,
}

/// The manifest files found in the target directory: presence means the
/// file exists, and the payload is its content.
#[derive(Debug, Clone)]
pub struct ManifestFiles {
    pub cargo_toml: Option<String>,
    pub pom_xml: Option<String>,
    pub package_json: Option<String>,
}

/// Which ecosystem the manifests classify as: probed in a fixed priority
/// order, first existing manifest wins, none at all is Other.
pub open spec fn classify_project(files: &ManifestFiles) -> ProjectType {
    if files.cargo_toml is Some {
        ProjectType::Rust
    } else if files.pom_xml is Some {
        ProjectType::Java
    } else if files.package_json is Some {
        ProjectType::JavaScript
    } else {
        ProjectType::Other
    }
}

/// Classifies the project by probing the manifests in the fixed priority
/// order.
pub fn project_type(files: &ManifestFiles) -> (r: ProjectType)
    ensures
        r == classify_project(files),
{
    if files.cargo_toml.is_some() {
        ProjectType::Rust
    } else if files.pom_xml.is_some() {
        ProjectType::Java
    } else if files.package_json.is_some() {
        ProjectType::JavaScript
    } else {
        ProjectType::Other
    }
}

/// The string at `table.key` of `content` read as TOML: the outer option
/// is whether `content` parses at all, the inner one whether a string
/// stands at that place. A function of the arguments alone.
pub uninterp spec fn toml_str_at(content: Seq<char>, table: Seq<char>, key: Seq<char>) -> Option<
    Option<Seq<char>>,
>;

/// Relies on toml::from_str, toml::map::Map::get, toml::Value::get and
/// toml::Value::as_str: parses `content` as a TOML document and reads the
/// string under `table.key`, a result the arguments alone determine.
#[verifier::external_body]
fn toml_lookup(content: &str, table: &str, key: &str) -> (r: Option<Option<String>>)
    ensures
        match r {
            Option::None => toml_str_at(content@, table@, key@) is None,
            Option::Some(Option::None) => toml_str_at(content@, table@, key@) == Option::Some(
                Option::<Seq<char>>::None,
            ),
            Option::Some(Option::Some(s)) => toml_str_at(content@, table@, key@) == Option::Some(
                Option::Some(s@),
            ),
        },
{
    match toml::from_str::<toml::Table>(content) {
        Ok(t) => Some(
            t.get(table).and_then(|v| v.get(key)).and_then(|v| v.as_str()).map(|s| s.to_string()),
        ),
        Err(_) => None,
    }
}

/// The string under `key` of `content` read as JSON: the outer option is
/// whether `content` parses at all, the inner one whether a string stands
/// under that key. A function of the arguments alone.
pub uninterp spec fn json_str_at(content: Seq<char>, key: Seq<char>) -> Option<Option<Seq<char>>>;

/// Relies on serde_json::from_str, serde_json::Value::get and
/// serde_json::Value::as_str: parses `content` as a JSON document and
/// reads the string under `key`, a result the arguments alone determine.
#[verifier::external_body]
fn json_lookup(content: &str, key: &str) -> (r: Option<Option<String>>)
    ensures
        match r {
            Option::None => json_str_at(content@, key@) is None,
            Option::Some(Option::None) => json_str_at(content@, key@) == Option::Some(
                Option::<Seq<char>>::None,
            ),
            Option::Some(Option::Some(s)) => json_str_at(content@, key@) == Option::Some(
                Option::Some(s@),
            ),
        },
{
    match serde_json::from_str::<serde_json::Value>(content) {
        Ok(v) => Some(v.get(key).and_then(|f| f.as_str()).map(|s| s.to_string())),
        Err(_) => None,
    }
}

/// A manifest field with the fixed fallback applied: the field's string
/// where one stands in the manifest, the literal "unknown" otherwise.
pub open spec fn field_or_unknown(field: Option<Seq<char>>) -> Seq<char> {
    match field {
        Option::Some(s) => s,
        Option::None => "unknown"@,
    }
}

/// Turns an optional manifest field into its output value, applying the
/// fixed fallback.
fn unknown_if_absent(field: Option<String>) -> (r: String)
    ensures
        r@ == field_or_unknown(match field {
            Option::Some(s) => Option::Some(s@),
            Option::None => Option::<Seq<char>>::None,
        }),
{
    match field {
        Option::Some(s) => s,
        Option::None => "unknown".to_owned(),
    }
}

/// What Rust-manifest extraction returns: name and version from the
/// package table with the fixed fallback for an absent field, and a
/// failure exactly when the manifest does not parse.
pub open spec fn rust_project_outcome(
    content: Seq<char>,
    base: Seq<char>,
    r: Result<ProjectInfo, DetectError>,
) -> bool {
    match (toml_str_at(content, "package"@, "name"@), toml_str_at(
        content,
        "package"@,
        "version"@,
    )) {
        (Option::Some(name), Option::Some(version)) => r matches Ok(p)
            && p.project_type == ProjectType::Rust
            && p.name@ == field_or_unknown(name)
            && p.version@ == field_or_unknown(version)
            && p.target_path@ == base + "/src/buildinfo.json"@,
        _ => r == Err::<ProjectInfo, DetectError>(DetectError::ManifestParseError),
    }
}

/// Extracts the Rust project identity from a Cargo manifest; `base` is
/// the target directory the record's path is anchored at.
pub fn rust_project_info(content: &str, base: &str) -> (r: Result<ProjectInfo, DetectError>)
    ensures
        rust_project_outcome(content@, base@, r),
{
    let name = match toml_lookup(content, "package", "name") {
        Option::Some(name) => name,
        Option::None => {
            return Err(DetectError::ManifestParseError);
        },
    };
    let version = match toml_lookup(content, "package", "version") {
        Option::Some(version) => version,
        Option::None => {
            return Err(DetectError::ManifestParseError);
        },
    };
    let mut target_path = base.to_owned();
    target_path.append("/src/buildinfo.json");
    Ok(ProjectInfo {
        project_type: ProjectType::Rust,
        name: unknown_if_absent(name),
        version: unknown_if_absent(version),
        target_path,
    })
}

/// What JavaScript-manifest extraction returns: name and version from the
/// top-level fields with the fixed fallback for an absent field, and a
/// failure exactly when the manifest does not parse.
pub open spec fn javascript_project_outcome(
    content: Seq<char>,
    base: Seq<char>,
    r: Result<ProjectInfo, DetectError>,
) -> bool {
    match (json_str_at(content, "name"@), json_str_at(content, "version"@)) {
        (Option::Some(name), Option::Some(version)) => r matches Ok(p)
            && p.project_type == ProjectType::JavaScript
            && p.name@ == field_or_unknown(name)
            && p.version@ == field_or_unknown(version)
            && p.target_path@ == base + "/src/buildinfo.json"@,
        _ => r == Err::<ProjectInfo, DetectError>(DetectError::ManifestParseError),
    }
}

/// Extracts the JavaScript project identity from a package manifest.
pub fn javascript_project_info(content: &str, base: &str) -> (r: Result<ProjectInfo, DetectError>)
    ensures
        javascript_project_outcome(content@, base@, r),
{
    let name = match json_lookup(content, "name") {
        Option::Some(name) => name,
        Option::None => {
            return Err(DetectError::ManifestParseError);
        },
    };
    let version = match json_lookup(content, "version") {
        Option::Some(version) => version,
        Option::None => {
            return Err(DetectError::ManifestParseError);
        },
    };
    let mut target_path = base.to_owned();
    target_path.append("/src/buildinfo.json");
    Ok(ProjectInfo {
        project_type: ProjectType::JavaScript,
        name: unknown_if_absent(name),
        version: unknown_if_absent(version),
        target_path,
    })
}

/// One parsing event of the XML manifest, reduced to plain values: start
/// and empty tags carry their element name, text its content.
#[derive(Debug, Clone, PartialEq, Eq)]
pub enum XmlEvent {
    Start(String),
    End,
    Empty(String),
    Text(String),
    Skip,
    Eof,
    Malformed,
}

/// A pull parser over the manifest's text, opaque to verification; its
/// events come out through `xml_next` one at a time.
#[verifier::external_body]
pub struct XmlReader<'a> {
    inner: fast_xml::Reader<&'a [u8]>,
}

/// Relies on fast_xml::Reader::from_str and fast_xml::Reader::trim_text:
/// a pull parser over `content` that discards whitespace-only text.
#[verifier::external_body]
fn xml_reader<'a>(content: &'a str) -> (r: XmlReader<'a>) {
    let mut reader = fast_xml::Reader::from_str(content);
    reader.trim_text(true);
    XmlReader { inner: reader }
}

/// Relies on fast_xml::Reader::read_event_unbuffered and
/// fast_xml::events::BytesText::unescaped: the reader's next event,
/// reduced to an owned plain value arm by arm.
#[verifier::external_body]
fn xml_next(reader: &mut XmlReader) -> (r: XmlEvent) {
    match reader.inner.read_event_unbuffered() {
        Ok(fast_xml::events::Event::Start(s)) => XmlEvent::Start(String::from_utf8_lossy(s.name()).into_owned()),
        Ok(fast_xml::events::Event::Empty(s)) => XmlEvent::Empty(String::from_utf8_lossy(s.name()).into_owned()),
        Ok(fast_xml::events::Event::End(_)) => XmlEvent::End,
        Ok(fast_xml::events::Event::Text(t)) => match t.unescaped() {
            Ok(c) => XmlEvent::Text(String::from_utf8_lossy(&c).into_owned()),
            Err(_) => XmlEvent::Malformed,
        },
        Ok(fast_xml::events::Event::Eof) => XmlEvent::Eof,
        Ok(_) => XmlEvent::Skip,
        Err(_) => XmlEvent::Malformed,
    }
}

/// The event stream fast_xml reads `content` into, in order, ending with
/// the end-of-document event or with the first malformed piece: a
/// function of the content alone.
pub uninterp spec fn xml_events_of(content: Seq<char>) -> Seq<XmlEvent>;

/// Relies on fast_xml::Reader::read_event_unbuffered, through
/// `xml_reader` and `xml_next`: the whole event stream of `content`,
/// which the content alone determines.
#[verifier::external_body]
fn xml_parse_events(content: &str) -> (r: Vec<XmlEvent>)
    ensures
        r@ == xml_events_of(content@),
{
    let mut reader = xml_reader(content);
    let mut events = Vec::new();
    loop {
        let event = xml_next(&mut reader);
        let stop = matches!(event, XmlEvent::Eof | XmlEvent::Malformed);
        events.push(event);
        if stop {
            return events;
        }
    }
}

/// The fields read from a Java manifest, each absent where the manifest
/// has no such element.
#[derive(Debug, Clone)]
pub struct PomFields {
    pub group_id: Option<String>,
    pub artifact_id: Option<String>,
    pub version: Option<String>,
}

/// The view of an optional string.
pub open spec fn opt_view(o: Option<String>) -> Option<Seq<char>> {
    match o {
        Option::Some(s) => Option::Some(s@),
        Option::None => Option::<Seq<char>>::None,
    }
}

/// How the Java manifest's event stream is read, one event at a time:
/// `depth` is the element nesting, `current` the name of the depth-one
/// child element being read, and the three accumulators keep the first
/// text seen under the matching child of the root. A malformed event
/// fails the whole scan; the end of the stream yields the fields.
pub open spec fn pom_scan(
    events: Seq<XmlEvent>,
    i: int,
    depth: int,
    current: Option<Seq<char>>,
    group_id: Option<Seq<char>>,
    artifact_id: Option<Seq<char>>,
    version: Option<Seq<char>>,
) -> Option<(Option<Seq<char>>, Option<Seq<char>>, Option<Seq<char>>)>
    decreases events.len() - i,
{
    if i < 0 || i >= events.len() {
        Option::Some((group_id, artifact_id, version))
    } else {
        match events[i] {
            XmlEvent::Malformed => Option::None,
            XmlEvent::Eof => Option::Some((group_id, artifact_id, version)),
            XmlEvent::Start(name) => pom_scan(
                events,
                i + 1,
                depth + 1,
                if depth + 1 == 2 {
                    Option::Some(name@)
                } else {
                    current
                },
                group_id,
                artifact_id,
                version,
            ),
            XmlEvent::End => pom_scan(
                events,
                i + 1,
                depth - 1,
                if depth == 2 {
                    Option::<Seq<char>>::None
                } else {
                    current
                },
                group_id,
                artifact_id,
                version,
            ),
            XmlEvent::Empty(name) => pom_scan(
                events,
                i + 1,
                depth,
                current,
                if depth == 1 && name@ == "groupId"@ && group_id is None {
                    Option::Some(Seq::<char>::empty())
                } else {
                    group_id
                },
                if depth == 1 && name@ == "artifactId"@ && artifact_id is None {
                    Option::Some(Seq::<char>::empty())
                } else {
                    artifact_id
                },
                if depth == 1 && name@ == "version"@ && version is None {
                    Option::Some(Seq::<char>::empty())
                } else {
                    version
                },
            ),
            XmlEvent::Text(text) => pom_scan(
                events,
                i + 1,
                depth,
                current,
                if depth == 2 && current == Option::Some("groupId"@) && group_id is None {
                    Option::Some(text@)
                } else {
                    group_id
                },
                if depth == 2 && current == Option::Some("artifactId"@) && artifact_id is None {
                    Option::Some(text@)
                } else {
                    artifact_id
                },
                if depth == 2 && current == Option::Some("version"@) && version is None {
                    Option::Some(text@)
                } else {
                    version
                },
            ),
            XmlEvent::Skip => pom_scan(events, i + 1, depth, current, group_id, artifact_id, version),
        }
    }
}

/// Walks an event stream and gathers the group, artifact and version
/// fields of a Java manifest, exactly as `pom_scan` reads it; `None` when
/// the stream holds a malformed piece.
pub fn extract_pom_fields(events: &Vec<XmlEvent>) -> (r: Option<PomFields>)
    ensures
        match pom_scan(
            events@,
            0,
            0,
            Option::None,
            Option::None,
            Option::None,
            Option::None,
        ) {
            Option::None => r is None,
            Option::Some(t) => r matches Some(f) && opt_view(f.group_id) == t.0 && opt_view(
                f.artifact_id,
            ) == t.1 && opt_view(f.version) == t.2,
        },
{
    let key_group = String::from_str("groupId");
    let key_artifact = String::from_str("artifactId");
    let key_version = String::from_str("version");
    let mut i: usize = 0;
    let mut depth: i128 = 0;
    let mut current: Option<String> = None;
    let mut group_id: Option<String> = None;
    let mut artifact_id: Option<String> = None;
    let mut version: Option<String> = None;
    while i < events.len()
        invariant
            0 <= i <= events@.len(),
            -(i as int) <= depth as int <= i as int,
            key_group@ == "groupId"@,
            key_artifact@ == "artifactId"@,
            key_version@ == "version"@,
            pom_scan(
                events@,
                0,
                0,
                Option::None,
                Option::None,
                Option::None,
                Option::None,
            ) == pom_scan(
                events@,
                i as int,
                depth as int,
                opt_view(current),
                opt_view(group_id),
                opt_view(artifact_id),
                opt_view(version),
            ),
        decreases events@.len() - i,
    {
        match &events[i] {
            XmlEvent::Malformed => {
                return None;
            },
            XmlEvent::Eof => {
                return Some(PomFields { group_id, artifact_id, version });
            },
            XmlEvent::Start(name) => {
                depth = depth + 1;
                if depth == 2 {
                    current = Some(name.clone());
                }
            },
            XmlEvent::End => {
                if depth == 2 {
                    current = None;
                }
                depth = depth - 1;
            },
            XmlEvent::Empty(name) => {
                if depth == 1 {
                    if group_id.is_none() && *name == key_group {
                        group_id = Some(String::new());
                    }
                    if artifact_id.is_none() && *name == key_artifact {
                        artifact_id = Some(String::new());
                    }
                    if version.is_none() && *name == key_version {
                        version = Some(String::new());
                    }
                }
            },
            XmlEvent::Text(text) => {
                if depth == 2 {
                    match &current {
                        Some(c) => {
                            if group_id.is_none() && *c == key_group {
                                group_id = Some(text.clone());
                            }
                            if artifact_id.is_none() && *c == key_artifact {
                                artifact_id = Some(text.clone());
                            }
                            if version.is_none() && *c == key_version {
                                version = Some(text.clone());
                            }
                        },
                        None => {},
                    }
                }
            },
            XmlEvent::Skip => {},
        }
        i = i + 1;
    }
    Some(PomFields { group_id, artifact_id, version })
}

/// Combines the Java manifest's fields into the project record: the name
/// is the group and artifact joined by a slash, with the fixed fallback
/// where either part or the version is absent.
pub fn pom_project_info(fields: PomFields, base: &str) -> (p: ProjectInfo)
    ensures
        p.project_type == ProjectType::Java,
        fields.group_id is Some && fields.artifact_id is Some ==> p.name@
            == fields.group_id.unwrap()@ + "/"@ + fields.artifact_id.unwrap()@,
        fields.group_id is None || fields.artifact_id is None ==> p.name@ == "unknown"@,
        p.version@ == field_or_unknown(opt_view(fields.version)),
        p.target_path@ == base@ + "/src/main/resources/META-INF/buildinfo.json"@,
{
    let name = match (fields.group_id, fields.artifact_id) {
        (Some(g), Some(a)) => {
            let mut name = g;
            name.append("/");
            name.append(a.as_str());
            name
        },
        _ => "unknown".to_owned(),
    };
    let mut target_path = base.to_owned();
    target_path.append("/src/main/resources/META-INF/buildinfo.json");
    ProjectInfo {
        project_type: ProjectType::Java,
        name,
        version: unknown_if_absent(fields.version),
        target_path,
    }
}

/// What Java-manifest extraction returns: the group, artifact and
/// version elements read from the manifest's event stream, the name
/// joined from group and artifact with the fixed fallback where either
/// is absent, and a failure exactly when the stream holds a malformed
/// piece.
pub open spec fn java_project_outcome(
    content: Seq<char>,
    base: Seq<char>,
    r: Result<ProjectInfo, DetectError>,
) -> bool {
    match pom_scan(
        xml_events_of(content),
        0,
        0,
        Option::None,
        Option::None,
        Option::None,
        Option::None,
    ) {
        Option::None => r == Err::<ProjectInfo, DetectError>(DetectError::ManifestParseError),
        Option::Some(t) => r matches Ok(p) && p.project_type == ProjectType::Java && (match (
            t.0,
            t.1,
        ) {
            (Option::Some(g), Option::Some(a)) => p.name@ == g + "/"@ + a,
            _ => p.name@ == "unknown"@,
        }) && p.version@ == field_or_unknown(t.2) && p.target_path@ == base
            + "/src/main/resources/META-INF/buildinfo.json"@,
    }
}

/// Extracts the Java project identity from a Java manifest: the event
/// stream is read once, and `extract_pom_fields` and `pom_project_info`
/// turn it into the record.
pub fn java_project_info(content: &str, base: &str) -> (r: Result<ProjectInfo, DetectError>)
    ensures
        java_project_outcome(content@, base@, r),
{
    let events = xml_parse_events(content);
    match extract_pom_fields(&events) {
        Some(fields) => Ok(pom_project_info(fields, base)),
        None => Err(DetectError::ManifestParseError),
    }
}

/// What whole-project detection returns for each classification; the
/// ecosystem picked by the priority order decides the branch, and a
/// project with no known manifest gets the fixed fallback identity and
/// the path at the directory root.
pub open spec fn project_outcome(
    files: &ManifestFiles,
    base: Seq<char>,
    r: Result<ProjectInfo, DetectError>,
) -> bool {
    match classify_project(files) {
        ProjectType::Rust => rust_project_outcome(files.cargo_toml.unwrap()@, base, r),
        ProjectType::JavaScript => javascript_project_outcome(files.package_json.unwrap()@, base, r),
        ProjectType::Java => java_project_outcome(files.pom_xml.unwrap()@, base, r),
        ProjectType::Other => r matches Ok(p) && p.project_type == ProjectType::Other && p.name@
            == "unknown"@ && p.version@ == "unknown"@ && p.target_path@ == base
            + "/buildinfo.json"@,
    }
}

/// Determinism law: manifest detection reads nothing but the manifest
/// contents, so two detections over the same files and base agree in
/// every field, and fail together.
pub proof fn lemma_project_detection_deterministic(
    files: &ManifestFiles,
    base: Seq<char>,
    r1: Result<ProjectInfo, DetectError>,
    r2: Result<ProjectInfo, DetectError>,
)
    requires
        project_outcome(files, base, r1),
        project_outcome(files, base, r2),
    ensures
        r1 matches Ok(p1) ==> (r2 matches Ok(p2) && p1.project_type == p2.project_type && p1.name@
            == p2.name@ && p1.version@ == p2.version@ && p1.target_path@ == p2.target_path@),
        r1 is Err ==> r2 == r1,
{
}

/// Detects the project's ecosystem and identity from the manifests found
/// in the target directory; `base` anchors the record's output path.
pub fn project_info(files: &ManifestFiles, base: &str) -> (r: Result<ProjectInfo, DetectError>)
    ensures
        project_outcome(files, base@, r),
{
    match project_type(files) {
        ProjectType::Rust => match &files.cargo_toml {
            Some(content) => rust_project_info(content.as_str(), base),
            None => Err(DetectError::ManifestParseError),  // unreachable: Rust means the manifest is present
        },
        ProjectType::Java => match &files.pom_xml {
            Some(content) => java_project_info(content.as_str(), base),
            None => Err(DetectError::ManifestParseError),  // unreachable: Java means the manifest is present
        },
        ProjectType::JavaScript => match &files.package_json {
            Some(content) => javascript_project_info(content.as_str(), base),
            None => Err(DetectError::ManifestParseError),  // unreachable: JavaScript means the manifest is present
        },
        ProjectType::Other => {
            let mut target_path = base.to_owned();
            target_path.append("/buildinfo.json");
            Ok(ProjectInfo {
                project_type: ProjectType::Other,
                name: "unknown".to_owned(),
                version: "unknown".to_owned(),
                target_path,
            })
        },
    }
}

} // verus!
