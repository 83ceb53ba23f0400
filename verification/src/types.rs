//! The ecosystem-agnostic data model: normalized package and workspace
//! records, the error kinds of discovery, the tri-state search outcome, and
//! the auto-include merger with its idempotence law.

use vstd::prelude::*;

use crate::paths::{clone_opt_string, clone_string_vec, FsPath};

verus! {

/// A package version, tagged by the ecosystem it came from so that version
/// semantics are never conflated across ecosystems.
pub enum PackageVersion {
    /// A semantic version declared in a declarative `dist.toml` manifest.
    Generic(semver::Version),
    /// A version text declared in a JavaScript-style `package.json` manifest.
    JavaScript(String),
}

/// The errors discovery can report.
#[derive(Debug)]
pub enum AxoprojectError {
    /// No manifest of the expected kind exists within the search bounds.
    NotFound { target: String, start_dir: FsPath, clamp_to_dir: Option<FsPath> },
    /// The manifest file exists but could not be read.
    ReadFailed { path: FsPath },
    /// The manifest contents violate the format's grammar.
    ParseError { path: FsPath },
    /// The manifest parses but holds neither a `workspace` nor a `package`
    /// section.
    DistTomlMalformedError { path: FsPath },
    /// A resolved member path's manifest has no `package` section.
    PackageMissingError { path: FsPath },
    /// A JavaScript-style manifest has no `name` field.
    ManifestMissingName { path: FsPath },
    /// Two workspace members declare the same package name; names key the
    /// packages of a workspace and must be distinct. The path names the
    /// manifest of the member that repeated the name.
    DuplicatePackageName { name: String, path: FsPath },
}

/// The conventional files discovered at a workspace root.
pub struct AutoIncludes {
    pub readme_file: Option<String>,
    pub license_files: Vec<String>,
    pub changelog_file: Option<String>,
}

/// The mathematical shape of [`AutoIncludes`].
#[verifier::ext_equal]
pub ghost struct AutoIncludesV {
    pub readme_file: Option<Seq<char>>,
    pub license_files: Seq<Seq<char>>,
    pub changelog_file: Option<Seq<char>>,
}

impl View for AutoIncludes {
    type V = AutoIncludesV;

    open spec fn view(&self) -> AutoIncludesV {
        AutoIncludesV {
            readme_file: self.readme_file.deep_view(),
            license_files: self.license_files.deep_view(),
            changelog_file: self.changelog_file.deep_view(),
        }
    }
}

/// The normalized, ecosystem-agnostic description of one publishable unit.
pub struct PackageInfo {
    pub manifest_path: FsPath,
    pub package_root: FsPath,
    pub name: String,
    pub version: Option<PackageVersion>,
    pub description: Option<String>,
    pub authors: Vec<String>,
    pub license: Option<String>,
    pub publish: bool,
    pub keywords: Option<Vec<String>>,
    pub repository_url: Option<String>,
    pub homepage_url: Option<String>,
    pub documentation_url: Option<String>,
    pub readme_file: Option<String>,
    pub license_files: Vec<String>,
    pub changelog_file: Option<String>,
    pub binaries: Vec<String>,
    pub cstaticlibs: Vec<String>,
    pub cdylibs: Vec<String>,
    pub build_command: Option<Vec<String>>,
}

/// The mathematical shape of [`PackageInfo`]: every text as a sequence of
/// characters, every list as a sequence.
#[verifier::ext_equal]
pub ghost struct PackageInfoV {
    pub manifest_path: Seq<Seq<char>>,
    pub package_root: Seq<Seq<char>>,
    pub name: Seq<char>,
    pub version: Option<PackageVersion>,
    pub description: Option<Seq<char>>,
    pub authors: Seq<Seq<char>>,
    pub license: Option<Seq<char>>,
    pub publish: bool,
    pub keywords: Option<Seq<Seq<char>>>,
    pub repository_url: Option<Seq<char>>,
    pub homepage_url: Option<Seq<char>>,
    pub documentation_url: Option<Seq<char>>,
    pub readme_file: Option<Seq<char>>,
    pub license_files: Seq<Seq<char>>,
    pub changelog_file: Option<Seq<char>>,
    pub binaries: Seq<Seq<char>>,
    pub cstaticlibs: Seq<Seq<char>>,
    pub cdylibs: Seq<Seq<char>>,
    pub build_command: Option<Seq<Seq<char>>>,
}

impl View for PackageInfo {
    type V = PackageInfoV;

    open spec fn view(&self) -> PackageInfoV {
        PackageInfoV {
            manifest_path: self.manifest_path@,
            package_root: self.package_root@,
            name: self.name@,
            version: self.version,
            description: self.description.deep_view(),
            authors: self.authors.deep_view(),
            license: self.license.deep_view(),
            publish: self.publish,
            keywords: self.keywords.deep_view(),
            repository_url: self.repository_url.deep_view(),
            homepage_url: self.homepage_url.deep_view(),
            documentation_url: self.documentation_url.deep_view(),
            readme_file: self.readme_file.deep_view(),
            license_files: self.license_files.deep_view(),
            changelog_file: self.changelog_file.deep_view(),
            binaries: self.binaries.deep_view(),
            cstaticlibs: self.cstaticlibs.deep_view(),
            cdylibs: self.cdylibs.deep_view(),
            build_command: self.build_command.deep_view(),
        }
    }
}

/// The ecosystem detector a workspace record came from.
pub enum WorkspaceKind {
    /// The declarative `dist.toml` detector.
    Generic,
    /// The JavaScript-style `package.json` detector.
    Javascript,
}

/// A non-fatal condition noticed during discovery.
pub enum Warning {
    /// A JavaScript-style manifest declared its author as a structured
    /// object, which is not supported; the authorship was dropped.
    StructuredAuthorIgnored { manifest_path: FsPath },
}

/// The top-level result: a workspace, its members, and what was discovered
/// around them.
pub struct WorkspaceInfo {
    pub kind: WorkspaceKind,
    pub target_dir: FsPath,
    pub workspace_dir: FsPath,
    pub package_info: Vec<PackageInfo>,
    pub manifest_path: FsPath,
    pub repository_url: Option<String>,
    pub root_auto_includes: AutoIncludes,
    pub warnings: Vec<Warning>,
}

/// The three-way outcome of searching for a workspace of one ecosystem.
pub enum WorkspaceSearch {
    /// A manifest of the expected kind was located and fully resolved.
    Found(WorkspaceInfo),
    /// A manifest of the expected kind was located, but resolution failed.
    Broken { manifest_path: FsPath, cause: AxoprojectError },
    /// No manifest of the expected kind exists within the search bounds.
    Missing(AxoprojectError),
}

/// What overlaying discovered conventional files onto a package record
/// yields: a field is filled only where it was absent or empty, and is never
/// overwritten.
pub open spec fn merge_spec(p: PackageInfoV, includes: AutoIncludesV) -> PackageInfoV {
    PackageInfoV {
        readme_file: if p.readme_file is Some {
            p.readme_file
        } else {
            includes.readme_file
        },
        license_files: if p.license_files.len() > 0 {
            p.license_files
        } else {
            includes.license_files
        },
        changelog_file: if p.changelog_file is Some {
            p.changelog_file
        } else {
            includes.changelog_file
        },
        ..p
    }
}

/// Overlays discovered conventional files onto a package record: `readme_file`,
/// `license_files` and `changelog_file` are filled only where absent or empty;
/// every other field, and every populated one, is left as it stands.
pub fn merge_auto_includes(info: &mut PackageInfo, includes: &AutoIncludes)
    ensures
        final(info)@ == merge_spec(old(info)@, includes@),
{
    if info.readme_file.is_none() {
        info.readme_file = clone_opt_string(&includes.readme_file);
    }
    if info.license_files.len() == 0 {
        info.license_files = clone_string_vec(&includes.license_files);
    }
    if info.changelog_file.is_none() {
        info.changelog_file = clone_opt_string(&includes.changelog_file);
    }
    proof {
        assert(info@ =~~= merge_spec(old(info)@, includes@));
    }
}

/// The auto-include merger is idempotent, and it never replaces a populated
/// `readme_file`, `license_files` or `changelog_file`: merging the same
/// discovered-file set twice yields exactly what merging it once yields.
pub proof fn lemma_merge_idempotent(p: PackageInfoV, includes: AutoIncludesV)
    ensures
        merge_spec(merge_spec(p, includes), includes) == merge_spec(p, includes),
        p.readme_file is Some ==> merge_spec(p, includes).readme_file == p.readme_file,
        p.license_files.len() > 0 ==> merge_spec(p, includes).license_files == p.license_files,
        p.changelog_file is Some ==> merge_spec(p, includes).changelog_file == p.changelog_file,
{
    assert(merge_spec(merge_spec(p, includes), includes) =~~= merge_spec(p, includes));
}

} // verus!
