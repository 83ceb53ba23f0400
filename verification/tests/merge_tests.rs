//! Tests of the auto-include merger: it fills only absent fields, never
//! overwrites, and is idempotent.

use axoproject::types::merge_auto_includes;
use axoproject::{AutoIncludes, FsPath, PackageInfo};

fn fs_path(parts: &[&str]) -> FsPath {
    FsPath { components: parts.iter().map(|s| s.to_string()).collect() }
}

fn blank_package(name: &str) -> PackageInfo {
    PackageInfo {
        manifest_path: fs_path(&["srv", "p", "dist.toml"]),
        package_root: fs_path(&["srv", "p"]),
        name: name.to_string(),
        version: None,
        description: None,
        authors: vec![],
        license: None,
        publish: true,
        keywords: None,
        repository_url: None,
        homepage_url: None,
        documentation_url: None,
        readme_file: None,
        license_files: vec![],
        changelog_file: None,
        binaries: vec![name.to_string()],
        cstaticlibs: vec![],
        cdylibs: vec![],
        build_command: None,
    }
}

fn sample_includes() -> AutoIncludes {
    AutoIncludes {
        readme_file: Some("/srv/p/README.md".to_string()),
        license_files: vec!["/srv/p/LICENSE".to_string()],
        changelog_file: Some("/srv/p/CHANGELOG.md".to_string()),
    }
}

#[test]
fn merge_fills_absent_fields() {
    let mut info = blank_package("m");
    merge_auto_includes(&mut info, &sample_includes());
    assert_eq!(info.readme_file.as_deref(), Some("/srv/p/README.md"));
    assert_eq!(info.license_files, vec!["/srv/p/LICENSE".to_string()]);
    assert_eq!(info.changelog_file.as_deref(), Some("/srv/p/CHANGELOG.md"));
}

#[test]
fn merge_never_overwrites_populated_fields() {
    let mut info = blank_package("keep");
    info.readme_file = Some("NOTES.md".to_string());
    info.license_files = vec!["COPYING".to_string()];
    info.changelog_file = Some("NEWS".to_string());
    merge_auto_includes(&mut info, &sample_includes());
    assert_eq!(info.readme_file.as_deref(), Some("NOTES.md"));
    assert_eq!(info.license_files, vec!["COPYING".to_string()]);
    assert_eq!(info.changelog_file.as_deref(), Some("NEWS"));
}

#[test]
fn merge_twice_equals_merge_once() {
    let includes = sample_includes();
    let mut once = blank_package("idem");
    merge_auto_includes(&mut once, &includes);
    let mut twice = blank_package("idem");
    merge_auto_includes(&mut twice, &includes);
    merge_auto_includes(&mut twice, &includes);
    assert_eq!(once.readme_file, twice.readme_file);
    assert_eq!(once.license_files, twice.license_files);
    assert_eq!(once.changelog_file, twice.changelog_file);
    assert_eq!(once.name, twice.name);
    assert_eq!(once.binaries, twice.binaries);
}

#[test]
fn merge_leaves_unrelated_fields_alone() {
    let mut info = blank_package("rest");
    info.description = Some("d".to_string());
    info.repository_url = Some("https://example.invalid/r".to_string());
    merge_auto_includes(&mut info, &sample_includes());
    assert_eq!(info.description.as_deref(), Some("d"));
    assert_eq!(info.repository_url.as_deref(), Some("https://example.invalid/r"));
    assert_eq!(info.name, "rest");
    assert!(info.publish);
}
