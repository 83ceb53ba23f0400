//! Discovery and normalization of project metadata for single packages and
//! multi-package workspaces, across two manifest ecosystems: a declarative
//! `dist.toml` manifest and a JavaScript-style `package.json` manifest.

mod ext;
pub mod generic;
pub mod javascript;
pub mod paths;
pub mod search;
pub mod types;

pub use paths::FsPath;
pub use types::{
    AutoIncludes, AxoprojectError, PackageInfo, PackageVersion, Warning, WorkspaceInfo, WorkspaceKind,
    WorkspaceSearch,
};
