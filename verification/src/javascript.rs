//! Support for JavaScript-style projects described by a `package.json`
//! manifest. This detector treats every manifest root as exactly one package
//! and does not enumerate workspace members; a manifest without a `name` is
//! taken for an unsupported workspace-style manifest and fails discovery.

use vstd::prelude::*;

use crate::ext::{
    json_check, json_get_str, json_get_str2, json_key2_present, json_key2_present_of,
    json_key_is_object, json_key_object_of, json_key_present, json_key_present_of, json_parses,
    json_str2_of, json_str_of, load_file_string,
};
use crate::paths::FsPath;
use crate::search::{find_auto_includes, find_file, on_search_chain};
use crate::types::{
    merge_auto_includes, AxoprojectError, PackageInfo, PackageInfoV, PackageVersion, Warning,
    WorkspaceInfo, WorkspaceKind, WorkspaceSearch,
};

verus! {

/// A manifest's author field: a plain string, or a structured object, which
/// this detector does not interpret.
pub enum PersonField {
    Str(String),
    Obj,
}

/// A manifest's repository field: a bare string taken as an already-resolved
/// URL, or an object carrying an optional `url` subfield used verbatim.
/// Shorthand host-prefixed references pass through unresolved.
pub enum Repository {
    Str(String),
    Obj { url: Option<String> },
}

/// The raw shape of a JavaScript-style manifest, holding only the fields
/// this detector consumes.
pub struct JsManifest {
    pub name: Option<String>,
    pub version: Option<String>,
    pub description: Option<String>,
    pub author: Option<PersonField>,
    pub license: Option<String>,
    pub repository: Option<Repository>,
    pub homepage: Option<String>,
}

/// The repository URL a raw repository field resolves to.
pub open spec fn js_repo_url(r: Option<Repository>) -> Option<Seq<char>> {
    match r {
        None => None,
        Some(Repository::Str(s)) => Some(s@),
        Some(Repository::Obj { url }) => url.deep_view(),
    }
}

/// The author list a raw author field resolves to: a single plain-string
/// author is kept, a structured object is dropped.
pub open spec fn js_authors(a: Option<PersonField>) -> Seq<Seq<char>> {
    match a {
        Some(PersonField::Str(s)) => seq![s@],
        _ => Seq::empty(),
    }
}

/// What normalizing a JavaScript-style manifest yields, when it has a name:
/// the version tagged as coming from this ecosystem, exactly one binary
/// named after the package, and nothing declared for the fields this format
/// cannot express, which rely on the auto-include merger.
pub open spec fn normalize_js(
    m: JsManifest,
    manifest_path: FsPath,
    package_root: FsPath,
) -> PackageInfoV
    recommends
        m.name is Some,
{
    PackageInfoV {
        manifest_path: manifest_path@,
        package_root: package_root@,
        name: m.name.unwrap()@,
        version: match m.version {
            Some(v) => Some(PackageVersion::JavaScript(v)),
            None => None,
        },
        description: m.description.deep_view(),
        authors: js_authors(m.author),
        license: m.license.deep_view(),
        publish: true,
        keywords: None,
        repository_url: js_repo_url(m.repository),
        homepage_url: m.homepage.deep_view(),
        documentation_url: None,
        readme_file: None,
        license_files: Seq::empty(),
        changelog_file: None,
        binaries: seq![m.name.unwrap()@],
        cstaticlibs: Seq::empty(),
        cdylibs: Seq::empty(),
        build_command: None,
    }
}

/// Normalizes a raw JavaScript-style manifest into the shared package
/// record. A manifest without a name fails, naming the manifest's path,
/// rather than producing an unnamed package; a structured author object is
/// dropped with a warning, never an error.
pub fn js_package_info(
    manifest: JsManifest,
    manifest_path: &FsPath,
    package_root: &FsPath,
) -> (r: Result<(PackageInfo, Vec<Warning>), AxoprojectError>)
    ensures
        r is Ok <==> manifest.name is Some,
        r matches Ok((info, warns)) ==> {
            &&& info@ == normalize_js(manifest, *manifest_path, *package_root)
            &&& (match manifest.author {
                Some(PersonField::Obj) => warns@.len() == 1 && (warns@[0] matches
                    Warning::StructuredAuthorIgnored { manifest_path: mp } && mp@
                    == manifest_path@),
                _ => warns@.len() == 0,
            })
        },
        r matches Err(e) ==> e matches AxoprojectError::ManifestMissingName { path } && path@
            == manifest_path@,
{
    let JsManifest { name, version, description, author, license, repository, homepage } =
        manifest;
    let package_name = match name {
        Some(n) => n,
        None => {
            return Err(
                AxoprojectError::ManifestMissingName { path: manifest_path.clone_path() },
            );
        },
    };

    let mut warnings: Vec<Warning> = Vec::new();
    let authors: Vec<String> = match author {
        Some(PersonField::Str(s)) => {
            let mut v: Vec<String> = Vec::new();
            v.push(s);
            v
        },
        Some(PersonField::Obj) => {
            warnings.push(
                Warning::StructuredAuthorIgnored { manifest_path: manifest_path.clone_path() },
            );
            Vec::new()
        },
        None => Vec::new(),
    };

    let repository_url: Option<String> = match repository {
        None => None,
        Some(Repository::Str(s)) => Some(s),
        Some(Repository::Obj { url }) => url,
    };

    let mut binaries: Vec<String> = Vec::new();
    binaries.push(package_name.clone());

    let info = PackageInfo {
        manifest_path: manifest_path.clone_path(),
        package_root: package_root.clone_path(),
        name: package_name,
        version: match version {
            Some(v) => Some(PackageVersion::JavaScript(v)),
            None => None,
        },
        description,
        authors,
        license,
        publish: true,
        keywords: None,
        repository_url,
        homepage_url: homepage,
        documentation_url: None,
        readme_file: None,
        license_files: Vec::new(),
        changelog_file: None,
        binaries,
        cstaticlibs: Vec::new(),
        cdylibs: Vec::new(),
        build_command: None,
    };
    proof {
        assert(info@ =~~= normalize_js(manifest, *manifest_path, *package_root));
    }
    Ok((info, warnings))
}

/// Whether an optional string field of the manifest has an accepted shape:
/// when present, it must be a string.
pub open spec fn js_str_field_ok(s: Seq<char>, key: Seq<char>) -> bool {
    json_key_present_of(s, key) ==> json_str_of(s, key) is Some
}

/// The value an optional string field of the manifest yields: the declared
/// text, or nothing when the field is absent.
pub open spec fn js_str_field_spec(s: Seq<char>, key: Seq<char>) -> Option<Seq<char>> {
    if json_key_present_of(s, key) {
        json_str_of(s, key)
    } else {
        None
    }
}

/// Whether the author field has an accepted shape: absent, a plain string,
/// or a structured object.
pub open spec fn js_author_ok(s: Seq<char>) -> bool {
    json_key_present_of(s, "author"@) ==> (json_str_of(s, "author"@) is Some
        || json_key_object_of(s, "author"@))
}

/// Whether the repository field has an accepted shape: absent, a bare
/// string, or an object whose `url` subfield, when present, is a string.
pub open spec fn js_repository_ok(s: Seq<char>) -> bool {
    json_key_present_of(s, "repository"@) ==> {
        ||| json_str_of(s, "repository"@) is Some
        ||| (json_key_object_of(s, "repository"@) && (json_key2_present_of(
            s,
            "repository"@,
            "url"@,
        ) ==> json_str2_of(s, "repository"@, "url"@) is Some))
    }
}

/// Whether a text conforms to this detector's manifest schema: well-formed
/// JSON whose consumed fields each have an accepted shape, with a declared
/// name non-empty.
pub open spec fn js_manifest_ok(s: Seq<char>) -> bool {
    &&& json_parses(s)
    &&& (json_key_present_of(s, "name"@) ==> (match json_str_of(s, "name"@) {
        Some(n) => n.len() > 0,
        None => false,
    }))
    &&& js_str_field_ok(s, "version"@)
    &&& js_str_field_ok(s, "description"@)
    &&& js_str_field_ok(s, "license"@)
    &&& js_str_field_ok(s, "homepage"@)
    &&& js_author_ok(s)
    &&& js_repository_ok(s)
}

/// How a manifest read from an accepted text relates to the text: each
/// consumed field equals its extraction, a string author is kept and an
/// object author is marked unsupported, and a repository is the bare string
/// or the object's `url` subfield.
pub open spec fn js_manifest_matches(m: JsManifest, s: Seq<char>) -> bool {
    &&& m.name.deep_view() == js_str_field_spec(s, "name"@)
    &&& (m.name matches Some(n) ==> n@.len() > 0)
    &&& m.version.deep_view() == js_str_field_spec(s, "version"@)
    &&& m.description.deep_view() == js_str_field_spec(s, "description"@)
    &&& m.license.deep_view() == js_str_field_spec(s, "license"@)
    &&& m.homepage.deep_view() == js_str_field_spec(s, "homepage"@)
    &&& (match m.author {
        None => !json_key_present_of(s, "author"@),
        Some(PersonField::Str(a)) => json_str_of(s, "author"@) == Some(a@),
        Some(PersonField::Obj) => json_key_present_of(s, "author"@) && json_str_of(
            s,
            "author"@,
        ) is None && json_key_object_of(s, "author"@),
    })
    &&& (match m.repository {
        None => !json_key_present_of(s, "repository"@),
        Some(Repository::Str(u)) => json_str_of(s, "repository"@) == Some(u@),
        Some(Repository::Obj { url }) => json_key_present_of(s, "repository"@) && json_str_of(
            s,
            "repository"@,
        ) is None && json_key_object_of(s, "repository"@) && url.deep_view() == (
        if json_key2_present_of(s, "repository"@, "url"@) {
            json_str2_of(s, "repository"@, "url"@)
        } else {
            None
        }),
    })
}

/// An optional string field of the manifest: its text when declared, nothing
/// when absent, and an error when it is declared with another shape.
fn js_opt_str(src: &str, key: &str) -> (r: Result<Option<String>, ()>)
    ensures
        r is Ok <==> js_str_field_ok(src@, key@),
        r matches Ok(v) ==> v.deep_view() == js_str_field_spec(src@, key@),
{
    if json_key_present(src, key) {
        match json_get_str(src, key) {
            Some(s) => Ok(Some(s)),
            None => Err(()),
        }
    } else {
        Ok(None)
    }
}

/// Deserializes a manifest from its text; all-or-nothing, no partial
/// manifest on failure. Success holds exactly when the text is well-formed
/// JSON whose consumed fields conform to this detector's schema; the
/// accepted record's fields equal their extractions from the text; and every
/// failure is a parse error naming the manifest's path.
pub fn manifest_from_str(src: &str, manifest_path: &FsPath) -> (r: Result<
    JsManifest,
    AxoprojectError,
>)
    ensures
        r is Ok <==> js_manifest_ok(src@),
        r matches Ok(m) ==> js_manifest_matches(m, src@),
        r matches Err(e) ==> e matches AxoprojectError::ParseError { path } && path@
            == manifest_path@,
{
    if !json_check(src) {
        return Err(AxoprojectError::ParseError { path: manifest_path.clone_path() });
    }

    let name = match js_opt_str(src, "name") {
        Ok(n) => n,
        Err(_) => {
            return Err(AxoprojectError::ParseError { path: manifest_path.clone_path() });
        },
    };
    match &name {
        Some(n) => {
            if n.as_str().unicode_len() == 0 {
                return Err(AxoprojectError::ParseError { path: manifest_path.clone_path() });
            }
        },
        None => {},
    }

    let author = if json_key_present(src, "author") {
        match json_get_str(src, "author") {
            Some(a) => Some(PersonField::Str(a)),
            None => {
                if json_key_is_object(src, "author") {
                    Some(PersonField::Obj)
                } else {
                    return Err(
                        AxoprojectError::ParseError { path: manifest_path.clone_path() },
                    );
                }
            },
        }
    } else {
        None
    };

    let repository = if json_key_present(src, "repository") {
        match json_get_str(src, "repository") {
            Some(u) => Some(Repository::Str(u)),
            None => {
                if !json_key_is_object(src, "repository") {
                    return Err(
                        AxoprojectError::ParseError { path: manifest_path.clone_path() },
                    );
                }
                let url = if json_key2_present(src, "repository", "url") {
                    match json_get_str2(src, "repository", "url") {
                        Some(u) => Some(u),
                        None => {
                            return Err(
                                AxoprojectError::ParseError {
                                    path: manifest_path.clone_path(),
                                },
                            );
                        },
                    }
                } else {
                    None
                };
                Some(Repository::Obj { url })
            },
        }
    } else {
        None
    };

    let fields = (
        js_opt_str(src, "version"),
        js_opt_str(src, "description"),
        js_opt_str(src, "license"),
        js_opt_str(src, "homepage"),
    );
    match fields {
        (Ok(version), Ok(description), Ok(license), Ok(homepage)) => Ok(
            JsManifest { name, version, description, author, license, repository, homepage },
        ),
        _ => Err(AxoprojectError::ParseError { path: manifest_path.clone_path() }),
    }
}

/// Loads and deserializes the manifest at the given path; all-or-nothing,
/// and every error names that path. A read failure is the only source of
/// `ReadFailed`; everything about the text itself is judged by
/// [`manifest_from_str`].
pub fn load_manifest(manifest_path: &FsPath) -> (r: Result<JsManifest, AxoprojectError>)
    ensures
        r matches Err(e) ==> {
            ||| (e matches AxoprojectError::ReadFailed { path } && path@ == manifest_path@)
            ||| (e matches AxoprojectError::ParseError { path } && path@ == manifest_path@)
        },
        r matches Ok(m) ==> (m.name matches Some(n) ==> n@.len() > 0),
{
    let rendered = manifest_path.render();
    let src = match load_file_string(rendered.as_str()) {
        Ok(s) => s,
        Err(_) => {
            return Err(AxoprojectError::ReadFailed { path: manifest_path.clone_path() });
        },
    };
    manifest_from_str(src.as_str(), manifest_path)
}

/// Walks upward from the starting directory to the directory nearest to it
/// that holds a `package.json`, if any; the walk is unclamped, so it may
/// reach the filesystem root.
pub fn workspace_root(start_dir: &FsPath) -> (r: Option<FsPath>)
    ensures
        r matches Some(d) ==> exists|k: int|
            0 <= k <= start_dir@.len() && d@ == #[trigger] start_dir@.take(k),
{
    match find_file("package.json", start_dir, None) {
        Ok(path) => {
            proof {
                let k = choose|k: int|
                    0 <= k <= start_dir@.len() && path@ == #[trigger] start_dir@.take(k).push(
                        "package.json"@,
                    );
                assert(path@.len() == k + 1);
                assert(path@.drop_last() =~= start_dir@.take(k));
            }
            Some(path.parent())
        },
        Err(_) => None,
    }
}

/// Searches for a JavaScript-style project: walks upward from `start_dir`
/// for a `package.json` and classifies the outcome. The nearest manifest is
/// taken for the root package; no manifest at all is `Missing`; a located
/// manifest that fails to read, parse, or name its package is `Broken`,
/// naming both the manifest and the cause.
pub fn get_project(start_dir: &FsPath) -> (r: WorkspaceSearch)
    ensures
        match r {
            WorkspaceSearch::Found(ws) => {
                &&& ws.kind is Javascript
                &&& on_search_chain(ws.manifest_path@, start_dir@, 0, "package.json"@)
                &&& ws.workspace_dir@ == ws.manifest_path@.drop_last()
                &&& ws.target_dir@ == ws.workspace_dir@.push("node_modules"@)
                &&& ws.package_info@.len() == 1
                &&& ws.package_info@[0]@.package_root == ws.workspace_dir@
                &&& ws.package_info@[0]@.publish
                &&& ws.package_info@[0]@.name.len() > 0
                &&& ws.package_info@[0]@.binaries == seq![ws.package_info@[0]@.name]
                &&& ws.package_info@[0]@.documentation_url is None
                &&& ws.package_info@[0]@.readme_file == ws.root_auto_includes@.readme_file
                &&& ws.package_info@[0]@.license_files == ws.root_auto_includes@.license_files
                &&& ws.package_info@[0]@.changelog_file == ws.root_auto_includes@.changelog_file
                &&& ws.repository_url == ws.package_info@[0].repository_url
                &&& ws.warnings@.len() <= 1
                &&& forall|i: int|
                    0 <= i < ws.warnings@.len() ==> ((#[trigger] ws.warnings@[i]) matches
                        Warning::StructuredAuthorIgnored { manifest_path: mp } && mp@
                        == ws.manifest_path@)
            },
            WorkspaceSearch::Broken { manifest_path, cause } => {
                &&& on_search_chain(manifest_path@, start_dir@, 0, "package.json"@)
                &&& !(cause is NotFound)
                &&& (cause matches AxoprojectError::ManifestMissingName { path } ==> path@
                    == manifest_path@)
            },
            WorkspaceSearch::Missing(e) => e matches AxoprojectError::NotFound {
                target: t,
                start_dir: s,
                clamp_to_dir: c,
            } && t@ == "package.json"@ && s@ == start_dir@ && c is None,
        },
{
    let manifest_path = match find_file("package.json", start_dir, None) {
        Ok(path) => path,
        Err(e) => {
            return WorkspaceSearch::Missing(e);
        },
    };
    proof {
        let k = choose|k: int|
            0 <= k <= start_dir@.len() && manifest_path@ == #[trigger] start_dir@.take(k).push(
                "package.json"@,
            );
        assert(manifest_path@.len() == k + 1);
        assert(manifest_path@.drop_last() =~= start_dir@.take(k));
    }
    let root = manifest_path.parent();

    let manifest = match load_manifest(&manifest_path) {
        Ok(m) => m,
        Err(e) => {
            return WorkspaceSearch::Broken { manifest_path, cause: e };
        },
    };

    let root_auto_includes = find_auto_includes(&root);

    let (mut info, warnings) = match js_package_info(manifest, &manifest_path, &root) {
        Ok(built) => built,
        Err(e) => {
            return WorkspaceSearch::Broken { manifest_path, cause: e };
        },
    };
    merge_auto_includes(&mut info, &root_auto_includes);

    let repository_url = crate::paths::clone_opt_string(&info.repository_url);
    let mut package_info: Vec<PackageInfo> = Vec::new();
    package_info.push(info);

    WorkspaceSearch::Found(
        WorkspaceInfo {
            kind: WorkspaceKind::Javascript,
            target_dir: root.join("node_modules"),
            workspace_dir: root,
            package_info,
            manifest_path,
            repository_url,
            root_auto_includes,
            warnings,
        },
    )
}

} // verus!
