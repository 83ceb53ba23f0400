//! Tests of the JavaScript-style `package.json` pipeline: normalization
//! rules, the required name, author and repository forms.

use axoproject::javascript::{get_project, js_package_info, JsManifest, PersonField, Repository};
use axoproject::{AxoprojectError, FsPath, PackageVersion, Warning, WorkspaceKind, WorkspaceSearch};

fn fs_path(parts: &[&str]) -> FsPath {
    FsPath { components: parts.iter().map(|s| s.to_string()).collect() }
}

fn js_fixture(name: &str, contents: &str) -> (Vec<String>, String) {
    let base = format!("/tmp/axoproject_js_{name}");
    axoasset::LocalAsset::create_dir_all(&base).unwrap();
    axoasset::LocalAsset::write_new(contents, format!("{base}/package.json")).unwrap();
    (vec!["tmp".to_string(), format!("axoproject_js_{name}")], base)
}

fn bare_manifest(name: Option<&str>) -> JsManifest {
    JsManifest {
        name: name.map(|s| s.to_string()),
        version: None,
        description: None,
        author: None,
        license: None,
        repository: None,
        homepage: None,
    }
}

#[test]
fn project_with_full_manifest_is_found() {
    let (root, _) = js_fixture(
        "full",
        "{\"name\":\"app\",\"version\":\"1.0.0\",\"author\":\"Ann\",\"license\":\"MIT\",\"repository\":\"https://example.invalid/app\",\"description\":\"an app\"}",
    );
    let start = FsPath { components: root.clone() };
    let ws = match get_project(&start) {
        WorkspaceSearch::Found(ws) => ws,
        _ => panic!("expected Found"),
    };
    assert!(matches!(ws.kind, WorkspaceKind::Javascript));
    assert_eq!(ws.package_info.len(), 1);
    let pkg = &ws.package_info[0];
    assert_eq!(pkg.name, "app");
    assert_eq!(pkg.binaries, vec!["app".to_string()]);
    assert_eq!(pkg.authors, vec!["Ann".to_string()]);
    assert_eq!(pkg.license.as_deref(), Some("MIT"));
    assert_eq!(pkg.description.as_deref(), Some("an app"));
    assert_eq!(pkg.repository_url.as_deref(), Some("https://example.invalid/app"));
    assert_eq!(ws.repository_url.as_deref(), Some("https://example.invalid/app"));
    match &pkg.version {
        Some(PackageVersion::JavaScript(v)) => assert_eq!(v, "1.0.0"),
        _ => panic!("expected a JavaScript version"),
    }
    assert!(pkg.publish);
    let mut target = root.clone();
    target.push("node_modules".to_string());
    assert_eq!(ws.target_dir.components, target);
    assert!(ws.warnings.is_empty());
}

#[test]
fn manifest_without_name_fails_discovery() {
    let (root, base) = js_fixture("unnamed", "{\"version\":\"0.1.0\"}");
    let start = FsPath { components: root.clone() };
    match get_project(&start) {
        WorkspaceSearch::Broken { manifest_path, cause } => {
            assert_eq!(manifest_path.render(), format!("{base}/package.json"));
            match cause {
                AxoprojectError::ManifestMissingName { path } => {
                    assert_eq!(path.components, manifest_path.components);
                }
                _ => panic!("expected a missing-name cause"),
            }
        }
        _ => panic!("expected Broken, not a nameless package"),
    }
}

#[test]
fn empty_js_name_is_broken() {
    let (root, _) = js_fixture("empty_name", "{\"name\":\"\"}");
    let start = FsPath { components: root };
    assert!(matches!(
        get_project(&start),
        WorkspaceSearch::Broken { cause: AxoprojectError::ParseError { .. }, .. }
    ));
}

#[test]
fn structured_author_is_dropped_with_a_warning() {
    let (root, _) = js_fixture(
        "author_obj",
        "{\"name\":\"obj\",\"author\":{\"name\":\"Ann\",\"email\":\"a@example.invalid\"}}",
    );
    let start = FsPath { components: root.clone() };
    let ws = match get_project(&start) {
        WorkspaceSearch::Found(ws) => ws,
        _ => panic!("expected Found"),
    };
    assert!(ws.package_info[0].authors.is_empty());
    assert_eq!(ws.warnings.len(), 1);
    assert!(matches!(ws.warnings[0], Warning::StructuredAuthorIgnored { .. }));
}

#[test]
fn repository_object_url_is_used_verbatim() {
    let (root, _) = js_fixture(
        "repo_obj",
        "{\"name\":\"robj\",\"repository\":{\"type\":\"git\",\"url\":\"git+https://example.invalid/r.git\"}}",
    );
    let start = FsPath { components: root };
    let ws = match get_project(&start) {
        WorkspaceSearch::Found(ws) => ws,
        _ => panic!("expected Found"),
    };
    assert_eq!(
        ws.package_info[0].repository_url.as_deref(),
        Some("git+https://example.invalid/r.git")
    );
}

#[test]
fn repository_object_without_url_yields_none() {
    let (root, _) = js_fixture("repo_obj_no_url", "{\"name\":\"rnone\",\"repository\":{\"type\":\"git\"}}");
    let start = FsPath { components: root };
    let ws = match get_project(&start) {
        WorkspaceSearch::Found(ws) => ws,
        _ => panic!("expected Found"),
    };
    assert!(ws.package_info[0].repository_url.is_none());
    assert!(ws.repository_url.is_none());
}

#[test]
fn shorthand_repository_passes_through_unresolved() {
    let (root, _) = js_fixture("repo_shorthand", "{\"name\":\"sh\",\"repository\":\"user/repo\"}");
    let start = FsPath { components: root };
    let ws = match get_project(&start) {
        WorkspaceSearch::Found(ws) => ws,
        _ => panic!("expected Found"),
    };
    assert_eq!(ws.package_info[0].repository_url.as_deref(), Some("user/repo"));
}

#[test]
fn auto_includes_apply_to_js_packages() {
    let (root, base) = js_fixture("auto", "{\"name\":\"inc\"}");
    axoasset::LocalAsset::write_new("# inc", format!("{base}/README.md")).unwrap();
    let start = FsPath { components: root };
    let ws = match get_project(&start) {
        WorkspaceSearch::Found(ws) => ws,
        _ => panic!("expected Found"),
    };
    assert_eq!(
        ws.package_info[0].readme_file.as_deref(),
        Some(format!("{base}/README.md").as_str())
    );
}

#[test]
fn workspace_root_finds_the_nearest_manifest_directory() {
    let (root, base) = js_fixture("nearest_root", "{\"name\":\"outer\"}");
    axoasset::LocalAsset::create_dir_all(format!("{base}/pkg/src")).unwrap();
    axoasset::LocalAsset::write_new("{\"name\":\"inner\"}", format!("{base}/pkg/package.json"))
        .unwrap();

    let mut start_parts = root.clone();
    start_parts.push("pkg".to_string());
    start_parts.push("src".to_string());
    let start = FsPath { components: start_parts };
    let found = axoproject::javascript::workspace_root(&start).unwrap();
    let mut expected = root.clone();
    expected.push("pkg".to_string());
    assert_eq!(found.components, expected);
}

#[test]
fn js_normalizer_defaults_one_binary_named_after_the_package() {
    let manifest_path = fs_path(&["srv", "js", "package.json"]);
    let root = fs_path(&["srv", "js"]);
    let (info, warnings) =
        js_package_info(bare_manifest(Some("tool")), &manifest_path, &root).unwrap();
    assert_eq!(info.name, "tool");
    assert_eq!(info.binaries, vec!["tool".to_string()]);
    assert!(info.publish);
    assert!(info.version.is_none());
    assert!(info.readme_file.is_none());
    assert!(info.license_files.is_empty());
    assert!(info.documentation_url.is_none());
    assert!(info.build_command.is_none());
    assert!(warnings.is_empty());
}

#[test]
fn js_normalizer_rejects_a_nameless_manifest() {
    let manifest_path = fs_path(&["srv", "js2", "package.json"]);
    let root = fs_path(&["srv", "js2"]);
    match js_package_info(bare_manifest(None), &manifest_path, &root) {
        Err(AxoprojectError::ManifestMissingName { path }) => {
            assert_eq!(path.components, manifest_path.components);
        }
        _ => panic!("expected a missing-name error"),
    }
}

#[test]
fn js_normalizer_keeps_a_plain_string_author() {
    let manifest_path = fs_path(&["srv", "js3", "package.json"]);
    let root = fs_path(&["srv", "js3"]);
    let mut manifest = bare_manifest(Some("a"));
    manifest.author = Some(PersonField::Str("Bea".to_string()));
    let (info, warnings) = js_package_info(manifest, &manifest_path, &root).unwrap();
    assert_eq!(info.authors, vec!["Bea".to_string()]);
    assert!(warnings.is_empty());

    let mut with_obj = bare_manifest(Some("b"));
    with_obj.author = Some(PersonField::Obj);
    with_obj.repository = Some(Repository::Str("u/r".to_string()));
    let (info, warnings) = js_package_info(with_obj, &manifest_path, &root).unwrap();
    assert!(info.authors.is_empty());
    assert_eq!(info.repository_url.as_deref(), Some("u/r"));
    assert_eq!(warnings.len(), 1);
}
