//! Support for generic projects described by a declarative `dist.toml`
//! manifest: locating the manifest, reading it into its raw shape, resolving
//! the workspace topology, normalizing each member package, and classifying
//! the outcome.

use vstd::prelude::*;

use crate::ext::{
    load_file_string, parse_semver, semver_parses, toml_check, toml_get_str, toml_get_str_list,
    toml_key_present, toml_key_present_of, toml_parses, toml_root_key_is_table,
    toml_root_key_present, toml_root_key_present_of, toml_root_key_table_of, toml_str_list_of,
    toml_str_of,
};
use crate::paths::{clone_opt_string, clone_string_vec, FsPath};
use crate::search::{clamp_view, find_auto_includes, find_file, on_search_chain, search_floor};
use crate::types::{
    merge_auto_includes, AxoprojectError, PackageInfo, PackageInfoV, PackageVersion,
    WorkspaceInfo, WorkspaceKind, WorkspaceSearch,
};

verus! {

/// The raw shape of a declarative manifest: an optional workspace section and
/// an optional inline package section.
pub struct Manifest {
    pub workspace: Option<Workspace>,
    pub package: Option<Package>,
}

/// The raw `workspace` section: an optional list of member names.
pub struct Workspace {
    pub members: Option<Vec<String>>,
}

/// The raw `package` section, fields as declared in the manifest; absent
/// list fields already default to empty lists.
pub struct Package {
    pub name: String,
    pub repository: Option<String>,
    pub homepage: Option<String>,
    pub documentation: Option<String>,
    pub description: Option<String>,
    pub readme: Option<String>,
    pub authors: Vec<String>,
    pub binaries: Vec<String>,
    pub license: Option<String>,
    pub changelog: Option<String>,
    pub license_files: Vec<String>,
    pub cstaticlibs: Vec<String>,
    pub cdylibs: Vec<String>,
    pub build_command: Vec<String>,
    pub version: Option<semver::Version>,
}

/// The member list of a manifest's workspace section, when both are present.
pub open spec fn members_of(m: Manifest) -> Option<Seq<Seq<char>>> {
    match m.workspace {
        Some(w) => w.members.deep_view(),
        None => None,
    }
}

impl Manifest {
    /// The declared workspace members, when this manifest has a workspace
    /// section that lists them.
    pub fn workspace_members(&self) -> (r: Option<Vec<String>>)
        ensures
            r.deep_view() == members_of(*self),
    {
        if let Some(workspace) = &self.workspace {
            match &workspace.members {
                Some(members) => {
                    let cloned = clone_string_vec(members);
                    proof {
                        assert(Some(cloned).deep_view() =~~= members_of(*self));
                    }
                    Some(cloned)
                },
                None => None,
            }
        } else {
            None
        }
    }
}

/// The candidate member directories a manifest resolves to: the workspace
/// members joined onto the workspace directory when a member list is
/// declared, else the workspace directory itself when an inline package is
/// declared, else nothing.
pub open spec fn expected_paths_spec(m: Manifest, workspace_dir: Seq<Seq<char>>) -> Option<
    Seq<Seq<Seq<char>>>,
> {
    match members_of(m) {
        Some(ms) => Some(Seq::new(ms.len(), |i: int| workspace_dir.push(ms[i]))),
        None => if m.package is Some {
            Some(seq![workspace_dir])
        } else {
            None
        },
    }
}

/// Resolves a manifest's topology into candidate member directories, without
/// yet checking that any of them holds a manifest. A manifest with a
/// workspace member list resolves to those names joined onto the workspace
/// directory, in order; one with only a package section resolves to the
/// workspace directory alone; one with neither is malformed, and the error
/// names the manifest's path. When both sections are present the member list
/// takes precedence and the inline package section is ignored here; callers
/// must not rely on it being honoured.
pub fn expected_member_paths(
    manifest: &Manifest,
    workspace_dir: &FsPath,
    manifest_path: &FsPath,
) -> (r: Result<Vec<FsPath>, AxoprojectError>)
    ensures
        r is Ok <==> expected_paths_spec(*manifest, workspace_dir@) is Some,
        r matches Ok(paths) ==> paths.deep_view() == expected_paths_spec(
            *manifest,
            workspace_dir@,
        ).unwrap(),
        r matches Err(e) ==> e matches AxoprojectError::DistTomlMalformedError { path }
            && path@ == manifest_path@,
{
    match manifest.workspace_members() {
        Some(members) => {
            let mut paths: Vec<FsPath> = Vec::new();
            let mut i: usize = 0;
            while i < members.len()
                invariant
                    i <= members@.len(),
                    paths@.len() == i,
                    forall|j: int|
                        0 <= j < i ==> (#[trigger] paths@[j])@ == workspace_dir@.push(
                            members@[j]@,
                        ),
                decreases members@.len() - i,
            {
                paths.push(workspace_dir.join(members[i].as_str()));
                i += 1;
            }
            proof {
                assert(members.deep_view().len() == members@.len());
                assert(paths.deep_view() =~~= expected_paths_spec(
                    *manifest,
                    workspace_dir@,
                ).unwrap());
            }
            Ok(paths)
        },
        None => {
            if manifest.package.is_some() {
                let mut paths: Vec<FsPath> = Vec::new();
                paths.push(workspace_dir.clone_path());
                proof {
                    assert(paths.deep_view() =~~= expected_paths_spec(
                        *manifest,
                        workspace_dir@,
                    ).unwrap());
                }
                Ok(paths)
            } else {
                Err(
                    AxoprojectError::DistTomlMalformedError {
                        path: manifest_path.clone_path(),
                    },
                )
            }
        },
    }
}

/// What normalizing one raw package section yields: every declared field
/// carried over, absent lists as empty lists, the version tagged as coming
/// from this ecosystem, and the package always publishable.
pub open spec fn normalize_generic(
    p: Package,
    manifest_path: FsPath,
    package_root: FsPath,
) -> PackageInfoV {
    PackageInfoV {
        manifest_path: manifest_path@,
        package_root: package_root@,
        name: p.name@,
        version: match p.version {
            Some(v) => Some(PackageVersion::Generic(v)),
            None => None,
        },
        description: p.description.deep_view(),
        authors: p.authors.deep_view(),
        license: p.license.deep_view(),
        publish: true,
        keywords: None,
        repository_url: p.repository.deep_view(),
        homepage_url: p.homepage.deep_view(),
        documentation_url: p.documentation.deep_view(),
        readme_file: p.readme.deep_view(),
        license_files: p.license_files.deep_view(),
        changelog_file: p.changelog.deep_view(),
        binaries: p.binaries.deep_view(),
        cstaticlibs: p.cstaticlibs.deep_view(),
        cdylibs: p.cdylibs.deep_view(),
        build_command: Some(p.build_command.deep_view()),
    }
}

/// Normalizes one raw package section into the shared package record.
pub fn package_info_from(
    package: Package,
    manifest_path: FsPath,
    package_root: FsPath,
) -> (r: PackageInfo)
    ensures
        r@ == normalize_generic(package, manifest_path, package_root),
{
    let Package {
        name,
        repository,
        homepage,
        documentation,
        description,
        readme,
        authors,
        binaries,
        license,
        changelog,
        license_files,
        cstaticlibs,
        cdylibs,
        build_command,
        version,
    } = package;
    let r = PackageInfo {
        manifest_path,
        package_root,
        name,
        version: match version {
            Some(v) => Some(PackageVersion::Generic(v)),
            None => None,
        },
        description,
        authors,
        license,
        publish: true,
        keywords: None,
        repository_url: repository,
        homepage_url: homepage,
        documentation_url: documentation,
        readme_file: readme,
        license_files,
        changelog_file: changelog,
        binaries,
        cstaticlibs,
        cdylibs,
        build_command: Some(build_command),
    };
    proof {
        assert(r@ =~~= normalize_generic(package, manifest_path, package_root));
    }
    r
}

/// Whether an optional string field of the package section has an accepted
/// shape: when present, it must be a string.
pub open spec fn opt_str_field_ok(s: Seq<char>, key: Seq<char>) -> bool {
    toml_key_present_of(s, "package"@, key) ==> toml_str_of(s, "package"@, key) is Some
}

/// The value an optional string field of the package section yields: the
/// declared text, or nothing when the field is absent.
pub open spec fn opt_str_field_spec(s: Seq<char>, key: Seq<char>) -> Option<Seq<char>> {
    if toml_key_present_of(s, "package"@, key) {
        toml_str_of(s, "package"@, key)
    } else {
        None
    }
}

/// Whether an optional string-list field of the package section has an
/// accepted shape: when present, it must be an array of strings.
pub open spec fn opt_list_field_ok(s: Seq<char>, key: Seq<char>) -> bool {
    toml_key_present_of(s, "package"@, key) ==> toml_str_list_of(s, "package"@, key) is Some
}

/// The value an optional string-list field of the package section yields:
/// the declared list, or the empty list when the field is absent — absent
/// list fields default to empty, never to nothing.
pub open spec fn opt_list_field_spec(s: Seq<char>, key: Seq<char>) -> Seq<Seq<char>> {
    if toml_key_present_of(s, "package"@, key) {
        toml_str_list_of(s, "package"@, key).unwrap()
    } else {
        Seq::empty()
    }
}

/// Whether a workspace section conforms to the schema: it is a table, and
/// its member list, when declared, is a list of strings.
pub open spec fn workspace_section_ok(s: Seq<char>) -> bool {
    &&& toml_root_key_table_of(s, "workspace"@)
    &&& (toml_key_present_of(s, "workspace"@, "members"@) ==> toml_str_list_of(
        s,
        "workspace"@,
        "members"@,
    ) is Some)
}

/// Whether a package section conforms to the schema: it is a table with a
/// non-empty string `name`, string lists `binaries` and `build-command`, a
/// valid semantic version when one is declared, and every optional field of
/// an accepted shape.
pub open spec fn package_section_ok(s: Seq<char>) -> bool {
    &&& toml_root_key_table_of(s, "package"@)
    &&& (match toml_str_of(s, "package"@, "name"@) {
        Some(n) => n.len() > 0,
        None => false,
    })
    &&& opt_str_field_ok(s, "repository"@)
    &&& opt_str_field_ok(s, "homepage"@)
    &&& opt_str_field_ok(s, "documentation"@)
    &&& opt_str_field_ok(s, "description"@)
    &&& opt_str_field_ok(s, "readme"@)
    &&& opt_str_field_ok(s, "license"@)
    &&& opt_str_field_ok(s, "changelog"@)
    &&& opt_list_field_ok(s, "authors"@)
    &&& opt_list_field_ok(s, "license-files"@)
    &&& opt_list_field_ok(s, "cstaticlibs"@)
    &&& opt_list_field_ok(s, "cdylibs"@)
    &&& toml_str_list_of(s, "package"@, "binaries"@) is Some
    &&& toml_str_list_of(s, "package"@, "build-command"@) is Some
    &&& (toml_key_present_of(s, "package"@, "version"@) ==> (match toml_str_of(
        s,
        "package"@,
        "version"@,
    ) {
        Some(v) => semver_parses(v),
        None => false,
    }))
}

/// Whether a text conforms to the manifest schema: it is well-formed TOML,
/// and each of the two sections, when present, conforms.
pub open spec fn generic_manifest_ok(s: Seq<char>) -> bool {
    &&& toml_parses(s)
    &&& (toml_root_key_present_of(s, "workspace"@) ==> workspace_section_ok(s))
    &&& (toml_root_key_present_of(s, "package"@) ==> package_section_ok(s))
}

/// How a package section read from an accepted text relates to the text:
/// each field equals its extraction, absent lists are empty, and the version
/// is declared exactly when one is carried.
pub open spec fn package_matches(p: Package, s: Seq<char>) -> bool {
    &&& Some(p.name@) == toml_str_of(s, "package"@, "name"@)
    &&& p.name@.len() > 0
    &&& p.repository.deep_view() == opt_str_field_spec(s, "repository"@)
    &&& p.homepage.deep_view() == opt_str_field_spec(s, "homepage"@)
    &&& p.documentation.deep_view() == opt_str_field_spec(s, "documentation"@)
    &&& p.description.deep_view() == opt_str_field_spec(s, "description"@)
    &&& p.readme.deep_view() == opt_str_field_spec(s, "readme"@)
    &&& p.license.deep_view() == opt_str_field_spec(s, "license"@)
    &&& p.changelog.deep_view() == opt_str_field_spec(s, "changelog"@)
    &&& p.authors.deep_view() == opt_list_field_spec(s, "authors"@)
    &&& p.license_files.deep_view() == opt_list_field_spec(s, "license-files"@)
    &&& p.cstaticlibs.deep_view() == opt_list_field_spec(s, "cstaticlibs"@)
    &&& p.cdylibs.deep_view() == opt_list_field_spec(s, "cdylibs"@)
    &&& Some(p.binaries.deep_view()) == toml_str_list_of(s, "package"@, "binaries"@)
    &&& Some(p.build_command.deep_view()) == toml_str_list_of(s, "package"@, "build-command"@)
    &&& (p.version is Some <==> toml_key_present_of(s, "package"@, "version"@))
}

/// How a manifest read from an accepted text relates to the text: each
/// section is carried exactly when it is present, and its fields equal their
/// extractions.
pub open spec fn manifest_matches(m: Manifest, s: Seq<char>) -> bool {
    &&& (m.workspace is Some <==> toml_root_key_present_of(s, "workspace"@))
    &&& (m.workspace matches Some(w) ==> w.members.deep_view() == (if toml_key_present_of(
        s,
        "workspace"@,
        "members"@,
    ) {
        toml_str_list_of(s, "workspace"@, "members"@)
    } else {
        None
    }))
    &&& (m.package is Some <==> toml_root_key_present_of(s, "package"@))
    &&& (m.package matches Some(p) ==> package_matches(p, s))
}

/// An optional string field of the package section: its text when declared,
/// nothing when absent, and an error when it is declared with another shape.
fn opt_package_str(src: &str, key: &str) -> (r: Result<Option<String>, ()>)
    ensures
        r is Ok <==> opt_str_field_ok(src@, key@),
        r matches Ok(v) ==> v.deep_view() == opt_str_field_spec(src@, key@),
{
    if toml_key_present(src, "package", key) {
        match toml_get_str(src, "package", key) {
            Some(s) => Ok(Some(s)),
            None => Err(()),
        }
    } else {
        Ok(None)
    }
}

/// An optional string-list field of the package section: its elements when
/// declared, the empty list when absent, and an error when it is declared
/// with another shape.
fn opt_package_list(src: &str, key: &str) -> (r: Result<Vec<String>, ()>)
    ensures
        r is Ok <==> opt_list_field_ok(src@, key@),
        r matches Ok(v) ==> v.deep_view() == opt_list_field_spec(src@, key@),
{
    if toml_key_present(src, "package", key) {
        match toml_get_str_list(src, "package", key) {
            Some(list) => Ok(list),
            None => Err(()),
        }
    } else {
        Ok(Vec::new())
    }
}

/// Deserializes a manifest from its text; all-or-nothing, no partial
/// manifest on failure. Success holds exactly when the text is well-formed
/// TOML conforming to the manifest schema; the accepted record's fields
/// equal their extractions from the text; and every failure is a parse error
/// naming the manifest's path.
pub fn manifest_from_str(src: &str, manifest_path: &FsPath) -> (r: Result<
    Manifest,
    AxoprojectError,
>)
    ensures
        r is Ok <==> generic_manifest_ok(src@),
        r matches Ok(m) ==> manifest_matches(m, src@),
        r matches Err(e) ==> e matches AxoprojectError::ParseError { path } && path@
            == manifest_path@,
{
    if !toml_check(src) {
        return Err(AxoprojectError::ParseError { path: manifest_path.clone_path() });
    }

    let workspace = if toml_root_key_present(src, "workspace") {
        if !toml_root_key_is_table(src, "workspace") {
            return Err(AxoprojectError::ParseError { path: manifest_path.clone_path() });
        }
        let members = if toml_key_present(src, "workspace", "members") {
            match toml_get_str_list(src, "workspace", "members") {
                Some(list) => Some(list),
                None => {
                    return Err(
                        AxoprojectError::ParseError { path: manifest_path.clone_path() },
                    );
                },
            }
        } else {
            None
        };
        Some(Workspace { members })
    } else {
        None
    };

    let package = if toml_root_key_present(src, "package") {
        if !toml_root_key_is_table(src, "package") {
            return Err(AxoprojectError::ParseError { path: manifest_path.clone_path() });
        }
        let name = match toml_get_str(src, "package", "name") {
            Some(n) => n,
            None => {
                return Err(AxoprojectError::ParseError { path: manifest_path.clone_path() });
            },
        };
        if name.as_str().unicode_len() == 0 {
            return Err(AxoprojectError::ParseError { path: manifest_path.clone_path() });
        }
        let version = if toml_key_present(src, "package", "version") {
            let version_text = match toml_get_str(src, "package", "version") {
                Some(v) => v,
                None => {
                    return Err(
                        AxoprojectError::ParseError { path: manifest_path.clone_path() },
                    );
                },
            };
            match parse_semver(version_text.as_str()) {
                Ok(v) => Some(v),
                Err(_) => {
                    return Err(
                        AxoprojectError::ParseError { path: manifest_path.clone_path() },
                    );
                },
            }
        } else {
            None
        };
        let binaries = match toml_get_str_list(src, "package", "binaries") {
            Some(list) => list,
            None => {
                return Err(AxoprojectError::ParseError { path: manifest_path.clone_path() });
            },
        };
        let build_command = match toml_get_str_list(src, "package", "build-command") {
            Some(list) => list,
            None => {
                return Err(AxoprojectError::ParseError { path: manifest_path.clone_path() });
            },
        };
        let fields = (
            opt_package_str(src, "repository"),
            opt_package_str(src, "homepage"),
            opt_package_str(src, "documentation"),
            opt_package_str(src, "description"),
            opt_package_str(src, "readme"),
            opt_package_str(src, "license"),
            opt_package_str(src, "changelog"),
            opt_package_list(src, "authors"),
            opt_package_list(src, "license-files"),
            opt_package_list(src, "cstaticlibs"),
            opt_package_list(src, "cdylibs"),
        );
        match fields {
            (
                Ok(repository),
                Ok(homepage),
                Ok(documentation),
                Ok(description),
                Ok(readme),
                Ok(license),
                Ok(changelog),
                Ok(authors),
                Ok(license_files),
                Ok(cstaticlibs),
                Ok(cdylibs),
            ) => Some(
                Package {
                    name,
                    repository,
                    homepage,
                    documentation,
                    description,
                    readme,
                    authors,
                    binaries,
                    license,
                    changelog,
                    license_files,
                    cstaticlibs,
                    cdylibs,
                    build_command,
                    version,
                },
            ),
            _ => {
                return Err(AxoprojectError::ParseError { path: manifest_path.clone_path() });
            },
        }
    } else {
        None
    };

    Ok(Manifest { workspace, package })
}

/// Loads and deserializes the manifest at the given path; all-or-nothing,
/// and every error names that path. A read failure is the only source of
/// `ReadFailed`; everything about the text itself is judged by
/// [`manifest_from_str`].
pub fn load_root_dist_toml(manifest_path: &FsPath) -> (r: Result<Manifest, AxoprojectError>)
    ensures
        r matches Err(e) ==> {
            ||| (e matches AxoprojectError::ReadFailed { path } && path@ == manifest_path@)
            ||| (e matches AxoprojectError::ParseError { path } && path@ == manifest_path@)
        },
        r matches Ok(m) ==> (m.package matches Some(p) ==> p.name@.len() > 0),
{
    let rendered = manifest_path.render();
    let src = match load_file_string(rendered.as_str()) {
        Ok(s) => s,
        Err(_) => {
            return Err(AxoprojectError::ReadFailed { path: manifest_path.clone_path() });
        },
    };
    manifest_from_str(src.as_str(), manifest_path)
}

/// Whether a member-resolution error names the member's manifest path.
pub open spec fn err_names_member(e: AxoprojectError, manifest_path: Seq<Seq<char>>) -> bool {
    ||| (e matches AxoprojectError::ReadFailed { path } && path@ == manifest_path)
    ||| (e matches AxoprojectError::ParseError { path } && path@ == manifest_path)
    ||| (e matches AxoprojectError::PackageMissingError { path } && path@ == manifest_path)
}

/// The package section a member's manifest must hold: the section itself
/// when one is declared, else the missing-package error naming the member's
/// manifest path — never a placeholder package.
pub fn member_package(manifest: Manifest, manifest_path: &FsPath) -> (r: Result<
    Package,
    AxoprojectError,
>)
    ensures
        r is Ok <==> manifest.package is Some,
        r matches Ok(p) ==> Some(p) == manifest.package,
        r matches Err(e) ==> e matches AxoprojectError::PackageMissingError { path } && path@
            == manifest_path@,
{
    match manifest.package {
        Some(package) => Ok(package),
        None => Err(AxoprojectError::PackageMissingError { path: manifest_path.clone_path() }),
    }
}

/// Resolves one candidate member directory: loads its own manifest and
/// normalizes its package section. A member whose manifest has no package
/// section is an error, never a placeholder package.
pub fn package_info(manifest_root: &FsPath) -> (r: Result<PackageInfo, AxoprojectError>)
    ensures
        r matches Ok(info) ==> {
            &&& info@.manifest_path == manifest_root@.push("dist.toml"@)
            &&& info@.package_root == manifest_root@
            &&& info@.name.len() > 0
            &&& info@.publish
            &&& info@.keywords is None
            &&& info@.build_command is Some
        },
        r matches Err(e) ==> err_names_member(e, manifest_root@.push("dist.toml"@)),
{
    let manifest_path = manifest_root.join("dist.toml");
    let manifest = match load_root_dist_toml(&manifest_path) {
        Ok(m) => m,
        Err(e) => {
            return Err(e);
        },
    };
    let package = match member_package(manifest, &manifest_path) {
        Ok(package) => package,
        Err(e) => {
            return Err(e);
        },
    };
    Ok(package_info_from(package, manifest_path, manifest_root.clone_path()))
}

/// Whether an error arose from resolving one of the candidate members: it
/// names some member's manifest, either as a read, parse or missing-package
/// failure of that member, or as a repeated package name first seen there.
pub open spec fn member_resolution_err(e: AxoprojectError, expected: Seq<FsPath>) -> bool {
    exists|i: int|
        0 <= i < expected.len() && {
            ||| err_names_member(e, (#[trigger] expected[i])@.push("dist.toml"@))
            ||| (e matches AxoprojectError::DuplicatePackageName { name, path } && path@
                == expected[i]@.push("dist.toml"@))
        }
}

/// Assembles the workspace record: resolves and normalizes every candidate
/// member in order, overlays the root's discovered conventional files onto
/// each, and inherits the repository URL from the first member. The first
/// failing member fails the whole assembly: no partial workspace is ever
/// returned, and the error always names the failing member's manifest.
/// Package names key the members, so a repeated name fails the assembly too.
pub fn workspace_info(
    manifest_path: &FsPath,
    workspace_dir: &FsPath,
    expected_paths: &Vec<FsPath>,
) -> (r: Result<WorkspaceInfo, AxoprojectError>)
    ensures
        r matches Ok(ws) ==> {
            &&& ws.kind is Generic
            &&& ws.workspace_dir@ == workspace_dir@
            &&& ws.manifest_path@ == manifest_path@
            &&& ws.target_dir@ == workspace_dir@.push("target"@)
            &&& ws.package_info@.len() == expected_paths@.len()
            &&& forall|i: int|
                0 <= i < ws.package_info@.len() ==> (#[trigger] ws.package_info@[i])@.package_root
                    == expected_paths@[i]@
            &&& forall|i: int|
                0 <= i < ws.package_info@.len() ==> (#[trigger] ws.package_info@[i])@.manifest_path
                    == expected_paths@[i]@.push("dist.toml"@)
            &&& forall|i: int|
                0 <= i < ws.package_info@.len() ==> (#[trigger] ws.package_info@[i])@.name.len()
                    > 0
            &&& forall|i: int, j: int|
                0 <= i < j < ws.package_info@.len() ==> (#[trigger] ws.package_info@[i])@.name
                    != (#[trigger] ws.package_info@[j])@.name
            &&& ws.repository_url == (if ws.package_info@.len() > 0 {
                ws.package_info@[0].repository_url
            } else {
                None::<String>
            })
            &&& ws.warnings@.len() == 0
            &&& (match ws.root_auto_includes.readme_file {
                Some(p) => p@ == crate::paths::render_comps(workspace_dir@.push("README.md"@)),
                None => true,
            })
            &&& (match ws.root_auto_includes.changelog_file {
                Some(p) => p@ == crate::paths::render_comps(
                    workspace_dir@.push("CHANGELOG.md"@),
                ),
                None => true,
            })
            &&& crate::search::license_list_shape(
                ws.root_auto_includes.license_files.deep_view(),
                workspace_dir@,
            )
        },
        r matches Err(e) ==> {
            &&& !(e is NotFound)
            &&& !(e is DistTomlMalformedError)
            &&& member_resolution_err(e, expected_paths@)
        },
{
    let root_auto_includes = find_auto_includes(workspace_dir);

    let mut package_infos: Vec<PackageInfo> = Vec::new();
    let mut i: usize = 0;
    while i < expected_paths.len()
        invariant
            i <= expected_paths@.len(),
            package_infos@.len() == i,
            forall|j: int|
                0 <= j < i ==> (#[trigger] package_infos@[j])@.package_root
                    == expected_paths@[j]@,
            forall|j: int|
                0 <= j < i ==> (#[trigger] package_infos@[j])@.manifest_path
                    == expected_paths@[j]@.push("dist.toml"@),
            forall|j: int| 0 <= j < i ==> (#[trigger] package_infos@[j])@.name.len() > 0,
            forall|j: int, k: int|
                0 <= j < k < i ==> (#[trigger] package_infos@[j])@.name
                    != (#[trigger] package_infos@[k])@.name,
        decreases expected_paths@.len() - i,
    {
        let mut info = match package_info(&expected_paths[i]) {
            Ok(info) => info,
            Err(e) => {
                proof {
                    assert(!(e is NotFound) && !(e is DistTomlMalformedError));
                    assert(err_names_member(
                        e,
                        expected_paths@[i as int]@.push("dist.toml"@),
                    ));
                    assert(member_resolution_err(e, expected_paths@));
                }
                return Err(e);
            },
        };
        merge_auto_includes(&mut info, &root_auto_includes);

        let mut k: usize = 0;
        while k < package_infos.len()
            invariant
                i < expected_paths@.len(),
                k <= package_infos@.len(),
                forall|j: int| 0 <= j < k ==> (#[trigger] package_infos@[j])@.name != info@.name,
            decreases package_infos@.len() - k,
        {
            if package_infos[k].name == info.name {
                let duplicate = AxoprojectError::DuplicatePackageName {
                    name: info.name,
                    path: expected_paths[i].join("dist.toml"),
                };
                proof {
                    assert(duplicate matches AxoprojectError::DuplicatePackageName {
                        name: _,
                        path,
                    } && path@ == expected_paths@[i as int]@.push("dist.toml"@));
                    assert(member_resolution_err(duplicate, expected_paths@));
                }
                return Err(duplicate);
            }
            k += 1;
        }

        package_infos.push(info);
        i += 1;
    }

    let repository_url = if package_infos.len() > 0 {
        clone_opt_string(&package_infos[0].repository_url)
    } else {
        None
    };

    Ok(
        WorkspaceInfo {
            kind: WorkspaceKind::Generic,
            target_dir: workspace_dir.join("target"),
            workspace_dir: workspace_dir.clone_path(),
            package_info: package_infos,
            manifest_path: manifest_path.clone_path(),
            repository_url,
            root_auto_includes,
            warnings: Vec::new(),
        },
    )
}

/// Resolves a located manifest into a workspace record: reads it, resolves
/// its topology, and assembles the members.
pub fn workspace_from(manifest_path: &FsPath) -> (r: Result<WorkspaceInfo, AxoprojectError>)
    requires
        manifest_path@.len() > 0,
    ensures
        r matches Ok(ws) ==> {
            &&& ws.kind is Generic
            &&& ws.manifest_path@ == manifest_path@
            &&& ws.workspace_dir@ == manifest_path@.drop_last()
            &&& ws.target_dir@ == ws.workspace_dir@.push("target"@)
            &&& ws.repository_url == (if ws.package_info@.len() > 0 {
                ws.package_info@[0].repository_url
            } else {
                None::<String>
            })
            &&& ws.warnings@.len() == 0
            &&& forall|i: int|
                0 <= i < ws.package_info@.len() ==> ws.workspace_dir@.is_prefix_of(
                    (#[trigger] ws.package_info@[i])@.package_root,
                )
            &&& forall|i: int|
                0 <= i < ws.package_info@.len() ==> (#[trigger] ws.package_info@[i])@.manifest_path
                    == ws.package_info@[i]@.package_root.push("dist.toml"@)
            &&& forall|i: int|
                0 <= i < ws.package_info@.len() ==> (#[trigger] ws.package_info@[i])@.name.len()
                    > 0
            &&& forall|i: int, j: int|
                0 <= i < j < ws.package_info@.len() ==> (#[trigger] ws.package_info@[i])@.name
                    != (#[trigger] ws.package_info@[j])@.name
        },
        r matches Err(e) ==> {
            &&& !(e is NotFound)
            &&& (e matches AxoprojectError::DistTomlMalformedError { path } ==> path@
                == manifest_path@)
        },
{
    let workspace_dir = manifest_path.parent();

    let manifest = match load_root_dist_toml(manifest_path) {
        Ok(m) => m,
        Err(e) => {
            return Err(e);
        },
    };
    let expected_paths = match expected_member_paths(&manifest, &workspace_dir, manifest_path) {
        Ok(paths) => paths,
        Err(e) => {
            return Err(e);
        },
    };
    match workspace_info(manifest_path, &workspace_dir, &expected_paths) {
        Ok(ws) => {
            proof {
                assert forall|i: int|
                    0 <= i < ws.package_info@.len() implies ws.workspace_dir@.is_prefix_of(
                    (#[trigger] ws.package_info@[i])@.package_root,
                ) by {
                    let root = ws.package_info@[i]@.package_root;
                    assert(root == expected_paths@[i]@);
                    assert(expected_paths.deep_view()[i] == expected_paths@[i]@);
                    match members_of(manifest) {
                        Some(ms) => {
                            assert(expected_paths.deep_view().len() == ms.len());
                            assert(expected_paths.deep_view()[i] == workspace_dir@.push(
                                ms[i],
                            ));
                            assert(workspace_dir@ =~= workspace_dir@.push(ms[i]).subrange(
                                0,
                                workspace_dir@.len() as int,
                            ));
                        },
                        None => {
                            assert(expected_paths.deep_view().len() == 1);
                            assert(i == 0);
                            assert(expected_paths.deep_view()[0] == workspace_dir@);
                            assert(root == workspace_dir@);
                            assert(workspace_dir@ =~= root.subrange(
                                0,
                                workspace_dir@.len() as int,
                            ));
                        },
                    }
                }
            }
            Ok(ws)
        },
        Err(e) => Err(e),
    }
}

/// Searches for a generic workspace: walks upward from `start_dir`, bounded
/// by `clamp_to_dir`, for a `dist.toml`, and classifies the outcome. No
/// manifest within the bounds is `Missing`, carrying the not-found cause; a
/// located manifest that fails to resolve is `Broken`, naming both the
/// manifest and the cause.
pub fn get_workspace(start_dir: &FsPath, clamp_to_dir: Option<&FsPath>) -> (r: WorkspaceSearch)
    ensures
        match r {
            WorkspaceSearch::Found(ws) => {
                &&& ws.kind is Generic
                &&& on_search_chain(
                    ws.manifest_path@,
                    start_dir@,
                    search_floor(start_dir@, clamp_view(clamp_to_dir)),
                    "dist.toml"@,
                )
                &&& ws.workspace_dir@ == ws.manifest_path@.drop_last()
                &&& ws.target_dir@ == ws.workspace_dir@.push("target"@)
                &&& ws.repository_url == (if ws.package_info@.len() > 0 {
                    ws.package_info@[0].repository_url
                } else {
                    None::<String>
                })
                &&& ws.warnings@.len() == 0
                &&& forall|i: int|
                    0 <= i < ws.package_info@.len() ==> ws.workspace_dir@.is_prefix_of(
                        (#[trigger] ws.package_info@[i])@.package_root,
                    )
                &&& forall|i: int|
                    0 <= i < ws.package_info@.len()
                        ==> (#[trigger] ws.package_info@[i])@.manifest_path
                        == ws.package_info@[i]@.package_root.push("dist.toml"@)
                &&& forall|i: int|
                    0 <= i < ws.package_info@.len()
                        ==> (#[trigger] ws.package_info@[i])@.name.len() > 0
                &&& forall|i: int, j: int|
                    0 <= i < j < ws.package_info@.len() ==> (#[trigger] ws.package_info@[i])@.name
                        != (#[trigger] ws.package_info@[j])@.name
            },
            WorkspaceSearch::Broken { manifest_path, cause } => {
                &&& on_search_chain(
                    manifest_path@,
                    start_dir@,
                    search_floor(start_dir@, clamp_view(clamp_to_dir)),
                    "dist.toml"@,
                )
                &&& !(cause is NotFound)
                &&& (cause matches AxoprojectError::DistTomlMalformedError { path } ==> path@
                    == manifest_path@)
            },
            WorkspaceSearch::Missing(e) => e matches AxoprojectError::NotFound {
                target: t,
                start_dir: s,
                clamp_to_dir: c,
            } && t@ == "dist.toml"@ && s@ == start_dir@ && (match c {
                Some(cp) => clamp_view(clamp_to_dir) == Some(cp@),
                None => clamp_view(clamp_to_dir) is None,
            }),
        },
{
    let manifest_path = match find_file("dist.toml", start_dir, clamp_to_dir) {
        Ok(path) => path,
        Err(e) => {
            return WorkspaceSearch::Missing(e);
        },
    };
    proof {
        let k = choose|k: int|
            search_floor(start_dir@, clamp_view(clamp_to_dir)) <= k <= start_dir@.len()
                && manifest_path@ == #[trigger] start_dir@.take(k).push("dist.toml"@);
        assert(manifest_path@.len() == k + 1);
    }

    match workspace_from(&manifest_path) {
        Ok(info) => WorkspaceSearch::Found(info),
        Err(e) => WorkspaceSearch::Broken { manifest_path, cause: e },
    }
}

} // verus!

