//! End-to-end tests of the generic `dist.toml` pipeline against real
//! directory trees.

use axoproject::generic::get_workspace;
use axoproject::{AxoprojectError, FsPath, PackageVersion, WorkspaceKind, WorkspaceSearch};

fn fixture_dir(name: &str) -> (String, Vec<String>) {
    let base = format!("/tmp/axoproject_fixture_{name}");
    axoasset::LocalAsset::create_dir_all(&base).unwrap();
    (base.clone(), vec!["tmp".to_string(), format!("axoproject_fixture_{name}")])
}

fn path_from(components: &[String], more: &[&str]) -> FsPath {
    let mut all = components.to_vec();
    all.extend(more.iter().map(|s| s.to_string()));
    FsPath { components: all }
}

#[test]
fn round_trip_single_package() {
    let (base, root) = fixture_dir("round_trip");
    axoasset::LocalAsset::write_new(
        "[package]\nname = \"demo\"\nbinaries = [\"demo\"]\nbuild-command = [\"make\"]\nversion = \"1.2.3\"\n",
        format!("{base}/dist.toml"),
    )
    .unwrap();

    let start = path_from(&root, &[]);
    let found = get_workspace(&start, Some(&start));
    let ws = match found {
        WorkspaceSearch::Found(ws) => ws,
        _ => panic!("expected Found"),
    };
    assert!(matches!(ws.kind, WorkspaceKind::Generic));
    assert_eq!(ws.package_info.len(), 1);
    let pkg = &ws.package_info[0];
    assert_eq!(pkg.name, "demo");
    assert_eq!(pkg.binaries, vec!["demo".to_string()]);
    assert!(pkg.publish);
    match &pkg.version {
        Some(PackageVersion::Generic(v)) => {
            assert_eq!(*v, semver::Version::parse("1.2.3").unwrap());
        }
        _ => panic!("expected a generic version"),
    }
    assert!(pkg.build_command.as_deref() == Some(&["make".to_string()][..]));
    assert_eq!(pkg.package_root.components, start.components);
    assert_eq!(ws.manifest_path.components, path_from(&root, &["dist.toml"]).components);
    assert_eq!(ws.workspace_dir.components, start.components);
    assert_eq!(ws.target_dir.components, path_from(&root, &["target"]).components);
}

#[test]
fn search_finds_manifest_from_below() {
    let (base, root) = fixture_dir("from_below");
    axoasset::LocalAsset::write_new(
        "[package]\nname = \"deep\"\nbinaries = [\"deep\"]\nbuild-command = [\"make\"]\n",
        format!("{base}/dist.toml"),
    )
    .unwrap();
    axoasset::LocalAsset::create_dir_all(format!("{base}/a/b")).unwrap();

    let clamp = path_from(&root, &[]);
    let start = path_from(&root, &["a", "b"]);
    let found = get_workspace(&start, Some(&clamp));
    match found {
        WorkspaceSearch::Found(ws) => {
            assert_eq!(
                ws.manifest_path.components,
                path_from(&root, &["dist.toml"]).components
            );
        }
        _ => panic!("expected Found"),
    }
}

#[test]
fn search_never_escapes_the_clamp() {
    let (base, root) = fixture_dir("clamped");
    // The manifest sits above the clamp directory, so it must not be found.
    axoasset::LocalAsset::write_new(
        "[package]\nname = \"above\"\nbinaries = [\"above\"]\nbuild-command = [\"make\"]\n",
        format!("{base}/dist.toml"),
    )
    .unwrap();
    axoasset::LocalAsset::create_dir_all(format!("{base}/inner/leaf")).unwrap();

    let clamp = path_from(&root, &["inner"]);
    let start = path_from(&root, &["inner", "leaf"]);
    let missing = get_workspace(&start, Some(&clamp));
    assert!(matches!(missing, WorkspaceSearch::Missing(_)));
}

#[test]
fn missing_manifest_is_missing_not_broken() {
    let (base, root) = fixture_dir("missing");
    axoasset::LocalAsset::create_dir_all(format!("{base}/sub")).unwrap();

    let clamp = path_from(&root, &[]);
    let start = path_from(&root, &["sub"]);
    match get_workspace(&start, Some(&clamp)) {
        WorkspaceSearch::Missing(AxoprojectError::NotFound { target, start_dir, clamp_to_dir }) => {
            assert_eq!(target, "dist.toml");
            assert_eq!(start_dir.components, start.components);
            assert_eq!(clamp_to_dir.unwrap().components, clamp.components);
        }
        _ => panic!("expected Missing with a NotFound cause"),
    }
}

#[test]
fn manifest_without_sections_is_broken() {
    let (base, root) = fixture_dir("malformed");
    axoasset::LocalAsset::write_new("[other]\nx = 1\n", format!("{base}/dist.toml")).unwrap();

    let start = path_from(&root, &[]);
    match get_workspace(&start, Some(&start)) {
        WorkspaceSearch::Broken { manifest_path, cause } => {
            let expected = path_from(&root, &["dist.toml"]);
            assert_eq!(manifest_path.components, expected.components);
            match cause {
                AxoprojectError::DistTomlMalformedError { path } => {
                    assert_eq!(path.components, expected.components);
                }
                _ => panic!("expected a malformed-manifest cause"),
            }
        }
        _ => panic!("expected Broken"),
    }
}

#[test]
fn workspace_with_two_members_resolves_both() {
    let (base, root) = fixture_dir("two_members");
    axoasset::LocalAsset::write_new(
        "[workspace]\nmembers = [\"a\", \"b\"]\n",
        format!("{base}/dist.toml"),
    )
    .unwrap();
    axoasset::LocalAsset::create_dir_all(format!("{base}/a")).unwrap();
    axoasset::LocalAsset::create_dir_all(format!("{base}/b")).unwrap();
    axoasset::LocalAsset::write_new(
        "[package]\nname = \"alpha\"\nbinaries = [\"alpha\"]\nbuild-command = [\"make\"]\n",
        format!("{base}/a/dist.toml"),
    )
    .unwrap();
    axoasset::LocalAsset::write_new(
        "[package]\nname = \"beta\"\nbinaries = [\"beta\"]\nbuild-command = [\"make\"]\n",
        format!("{base}/b/dist.toml"),
    )
    .unwrap();

    let start = path_from(&root, &[]);
    let ws = match get_workspace(&start, Some(&start)) {
        WorkspaceSearch::Found(ws) => ws,
        _ => panic!("expected Found"),
    };
    assert_eq!(ws.package_info.len(), 2);
    assert_eq!(ws.package_info[0].name, "alpha");
    assert_eq!(ws.package_info[1].name, "beta");
    assert_ne!(ws.package_info[0].name, ws.package_info[1].name);
    assert!(ws.repository_url.is_none());
    assert_eq!(
        ws.package_info[0].package_root.components,
        path_from(&root, &["a"]).components
    );
    assert_eq!(
        ws.package_info[1].package_root.components,
        path_from(&root, &["b"]).components
    );
}

#[test]
fn duplicate_member_names_are_broken() {
    let (base, root) = fixture_dir("dup_names");
    axoasset::LocalAsset::write_new(
        "[workspace]\nmembers = [\"a\", \"b\"]\n",
        format!("{base}/dist.toml"),
    )
    .unwrap();
    axoasset::LocalAsset::create_dir_all(format!("{base}/a")).unwrap();
    axoasset::LocalAsset::create_dir_all(format!("{base}/b")).unwrap();
    let same = "[package]\nname = \"twin\"\nbinaries = [\"twin\"]\nbuild-command = [\"make\"]\n";
    axoasset::LocalAsset::write_new(same, format!("{base}/a/dist.toml")).unwrap();
    axoasset::LocalAsset::write_new(same, format!("{base}/b/dist.toml")).unwrap();

    let start = path_from(&root, &[]);
    match get_workspace(&start, Some(&start)) {
        WorkspaceSearch::Broken {
            cause: AxoprojectError::DuplicatePackageName { name, path }, ..
        } => {
            assert_eq!(name, "twin");
            assert_eq!(path.components, path_from(&root, &["b", "dist.toml"]).components);
        }
        _ => panic!("expected Broken with a duplicate-name cause"),
    }
}

#[test]
fn empty_package_name_is_broken() {
    let (base, root) = fixture_dir("empty_name");
    axoasset::LocalAsset::write_new(
        "[package]\nname = \"\"\nbinaries = [\"x\"]\nbuild-command = [\"make\"]\n",
        format!("{base}/dist.toml"),
    )
    .unwrap();

    let start = path_from(&root, &[]);
    assert!(matches!(
        get_workspace(&start, Some(&start)),
        WorkspaceSearch::Broken { cause: AxoprojectError::ParseError { .. }, .. }
    ));
}

#[test]
fn member_without_package_section_is_broken() {
    let (base, root) = fixture_dir("member_no_package");
    axoasset::LocalAsset::write_new(
        "[workspace]\nmembers = [\"a\"]\n",
        format!("{base}/dist.toml"),
    )
    .unwrap();
    axoasset::LocalAsset::create_dir_all(format!("{base}/a")).unwrap();
    axoasset::LocalAsset::write_new("[workspace]\n", format!("{base}/a/dist.toml")).unwrap();

    let start = path_from(&root, &[]);
    match get_workspace(&start, Some(&start)) {
        WorkspaceSearch::Broken { cause: AxoprojectError::PackageMissingError { path }, .. } => {
            assert_eq!(path.components, path_from(&root, &["a", "dist.toml"]).components);
        }
        _ => panic!("expected Broken with a missing-package cause"),
    }
}

#[test]
fn member_without_manifest_is_broken() {
    let (base, root) = fixture_dir("member_no_manifest");
    axoasset::LocalAsset::write_new(
        "[workspace]\nmembers = [\"ghost\"]\n",
        format!("{base}/dist.toml"),
    )
    .unwrap();

    let start = path_from(&root, &[]);
    match get_workspace(&start, Some(&start)) {
        WorkspaceSearch::Broken { cause: AxoprojectError::ReadFailed { path }, .. } => {
            assert_eq!(
                path.components,
                path_from(&root, &["ghost", "dist.toml"]).components
            );
        }
        _ => panic!("expected Broken with a read failure"),
    }
}

#[test]
fn unparseable_manifest_is_broken() {
    let (base, root) = fixture_dir("bad_toml");
    axoasset::LocalAsset::write_new("not [ toml", format!("{base}/dist.toml")).unwrap();

    let start = path_from(&root, &[]);
    match get_workspace(&start, Some(&start)) {
        WorkspaceSearch::Broken { cause: AxoprojectError::ParseError { path }, .. } => {
            assert_eq!(path.components, path_from(&root, &["dist.toml"]).components);
        }
        _ => panic!("expected Broken with a parse failure"),
    }
}

#[test]
fn invalid_semver_is_broken() {
    let (base, root) = fixture_dir("bad_semver");
    axoasset::LocalAsset::write_new(
        "[package]\nname = \"x\"\nbinaries = [\"x\"]\nbuild-command = [\"make\"]\nversion = \"not-a-version\"\n",
        format!("{base}/dist.toml"),
    )
    .unwrap();

    let start = path_from(&root, &[]);
    assert!(matches!(
        get_workspace(&start, Some(&start)),
        WorkspaceSearch::Broken { cause: AxoprojectError::ParseError { .. }, .. }
    ));
}

#[test]
fn auto_includes_fill_undeclared_fields() {
    let (base, root) = fixture_dir("auto_includes");
    axoasset::LocalAsset::write_new(
        "[package]\nname = \"inc\"\nbinaries = [\"inc\"]\nbuild-command = [\"make\"]\n",
        format!("{base}/dist.toml"),
    )
    .unwrap();
    axoasset::LocalAsset::write_new("# inc", format!("{base}/README.md")).unwrap();
    axoasset::LocalAsset::write_new("license text", format!("{base}/LICENSE")).unwrap();
    axoasset::LocalAsset::write_new("changes", format!("{base}/CHANGELOG.md")).unwrap();

    let start = path_from(&root, &[]);
    let ws = match get_workspace(&start, Some(&start)) {
        WorkspaceSearch::Found(ws) => ws,
        _ => panic!("expected Found"),
    };
    let pkg = &ws.package_info[0];
    assert_eq!(
        pkg.readme_file.as_deref(),
        Some("/tmp/axoproject_fixture_auto_includes/README.md")
    );
    assert_eq!(pkg.license_files, vec!["/tmp/axoproject_fixture_auto_includes/LICENSE".to_string()]);
    assert_eq!(
        pkg.changelog_file.as_deref(),
        Some("/tmp/axoproject_fixture_auto_includes/CHANGELOG.md")
    );
    assert_eq!(
        ws.root_auto_includes.readme_file.as_deref(),
        Some("/tmp/axoproject_fixture_auto_includes/README.md")
    );
}

#[test]
fn license_comes_before_unlicense() {
    let (base, root) = fixture_dir("license_order");
    axoasset::LocalAsset::write_new(
        "[package]\nname = \"lic\"\nbinaries = [\"lic\"]\nbuild-command = [\"make\"]\n",
        format!("{base}/dist.toml"),
    )
    .unwrap();
    axoasset::LocalAsset::write_new("a", format!("{base}/LICENSE")).unwrap();
    axoasset::LocalAsset::write_new("b", format!("{base}/UNLICENSE")).unwrap();

    let start = path_from(&root, &[]);
    let ws = match get_workspace(&start, Some(&start)) {
        WorkspaceSearch::Found(ws) => ws,
        _ => panic!("expected Found"),
    };
    assert_eq!(
        ws.root_auto_includes.license_files,
        vec![
            "/tmp/axoproject_fixture_license_order/LICENSE".to_string(),
            "/tmp/axoproject_fixture_license_order/UNLICENSE".to_string(),
        ]
    );
}

#[test]
fn declared_readme_is_not_overwritten() {
    let (base, root) = fixture_dir("declared_readme");
    axoasset::LocalAsset::write_new(
        "[package]\nname = \"keep\"\nbinaries = [\"keep\"]\nbuild-command = [\"make\"]\nreadme = \"NOTES.md\"\n",
        format!("{base}/dist.toml"),
    )
    .unwrap();
    axoasset::LocalAsset::write_new("# readme", format!("{base}/README.md")).unwrap();

    let start = path_from(&root, &[]);
    let ws = match get_workspace(&start, Some(&start)) {
        WorkspaceSearch::Found(ws) => ws,
        _ => panic!("expected Found"),
    };
    assert_eq!(ws.package_info[0].readme_file.as_deref(), Some("NOTES.md"));
}
