//! Path Search: the upward directory walk for a named file, bounded by an
//! optional ancestor clamp, and the scanner for conventional files at a
//! workspace root.

use vstd::prelude::*;

use crate::ext::path_is_file;
use crate::paths::{render_comps, FsPath};
use crate::types::{AutoIncludes, AxoprojectError};

verus! {

/// The view of an optional clamp directory.
pub open spec fn clamp_view(clamp_to_dir: Option<&FsPath>) -> Option<Seq<Seq<char>>> {
    match clamp_to_dir {
        Some(c) => Some(c@),
        None => None,
    }
}

/// How many leading components every searched directory keeps: the clamp's
/// length when the clamp is an ancestor of (or equal to) the start directory,
/// else zero, so that the walk then runs to the filesystem root.
pub open spec fn search_floor(start: Seq<Seq<char>>, clamp: Option<Seq<Seq<char>>>) -> int {
    match clamp {
        Some(c) => if c.is_prefix_of(start) {
            c.len() as int
        } else {
            0
        },
        None => 0,
    }
}

/// Whether `path` names `target` inside a directory on the searched chain:
/// an ancestor of `start` (or `start` itself) that keeps at least `floor`
/// components.
pub open spec fn on_search_chain(
    path: Seq<Seq<char>>,
    start: Seq<Seq<char>>,
    floor: int,
    target: Seq<char>,
) -> bool {
    exists|k: int|
        floor <= k <= start.len() && path == #[trigger] start.take(k).push(target)
}

/// A path on the search chain names the target inside an ancestor of the
/// start directory (or the start directory itself); and whenever the clamp
/// is an ancestor of the start directory, that ancestor never leaves the
/// clamp's subtree. So the search can only ever answer with a path on the
/// chain from the start directory up to the clamp, or up to the root when
/// the clamp does not bound the start.
pub proof fn lemma_search_chain_bounds(
    path: Seq<Seq<char>>,
    start: Seq<Seq<char>>,
    clamp: Option<Seq<Seq<char>>>,
    target: Seq<char>,
)
    requires
        on_search_chain(path, start, search_floor(start, clamp), target),
    ensures
        path.len() > 0,
        path.last() == target,
        path.drop_last().is_prefix_of(start),
        (clamp matches Some(c) && c.is_prefix_of(start)) ==> clamp.unwrap().is_prefix_of(
            path.drop_last(),
        ),
{
    let floor = search_floor(start, clamp);
    let k = choose|k: int|
        floor <= k <= start.len() && path == #[trigger] start.take(k).push(target);
    assert(path.drop_last() =~= start.take(k));
    assert(start.take(k) =~= start.subrange(0, k));
    match clamp {
        Some(c) => {
            if c.is_prefix_of(start) {
                assert(c =~= start.subrange(0, c.len() as int));
                assert(c =~= start.take(k).subrange(0, c.len() as int));
            }
        },
        None => {},
    }
}

/// Searches for a file named `target` in `start_dir` and then in each
/// successive parent directory, stopping at `clamp_to_dir` when one is given
/// (the clamp itself is still searched, its parents are not), else at the
/// filesystem root. Returns the first match; the error names the search
/// bounds. Only existence of the candidates is consulted, nothing is read.
pub fn find_file(target: &str, start_dir: &FsPath, clamp_to_dir: Option<&FsPath>) -> (r: Result<
    FsPath,
    AxoprojectError,
>)
    ensures
        match r {
            Ok(path) => on_search_chain(
                path@,
                start_dir@,
                search_floor(start_dir@, clamp_view(clamp_to_dir)),
                target@,
            ),
            Err(e) => e matches AxoprojectError::NotFound {
                target: t,
                start_dir: s,
                clamp_to_dir: c,
            } && t@ == target@ && s@ == start_dir@ && (match c {
                Some(cp) => clamp_view(clamp_to_dir) == Some(cp@),
                None => clamp_view(clamp_to_dir) is None,
            }),
        },
{
    let floor: usize = match clamp_to_dir {
        Some(c) => if c.is_prefix_of(start_dir) {
            c.components.len()
        } else {
            0
        },
        None => 0,
    };
    let mut n: usize = start_dir.components.len();
    loop
        invariant
            floor as int == search_floor(start_dir@, clamp_view(clamp_to_dir)),
            floor <= n <= start_dir@.len(),
        decreases n,
    {
        let dir = start_dir.prefix(n);
        let candidate = dir.join(target);
        let rendered = candidate.render();
        if path_is_file(rendered.as_str()) {
            return Ok(candidate);
        }
        if n == floor {
            return Err(
                AxoprojectError::NotFound {
                    target: target.to_owned(),
                    start_dir: start_dir.clone_path(),
                    clamp_to_dir: match clamp_to_dir {
                        Some(c) => Some(c.clone_path()),
                        None => None,
                    },
                },
            );
        }
        n = n - 1;
    }
}

/// The shapes the discovered license list can take: empty, one of the two
/// conventional names, or both with `LICENSE` first — never a duplicate and
/// never another order.
pub open spec fn license_list_shape(files: Seq<Seq<char>>, dir: Seq<Seq<char>>) -> bool {
    ||| files == Seq::<Seq<char>>::empty()
    ||| files == seq![render_comps(dir.push("LICENSE"@))]
    ||| files == seq![render_comps(dir.push("UNLICENSE"@))]
    ||| files == seq![
        render_comps(dir.push("LICENSE"@)),
        render_comps(dir.push("UNLICENSE"@)),
    ]
}

/// Scans a directory for the conventional files that a manifest need not
/// declare: a readme, license texts, and a changelog. Each candidate name is
/// reported with the directory's path when a file of that name exists there;
/// the license list holds no duplicates and keeps `LICENSE` before
/// `UNLICENSE`.
pub fn find_auto_includes(dir: &FsPath) -> (r: AutoIncludes)
    ensures
        match r.readme_file {
            Some(p) => p@ == render_comps(dir@.push("README.md"@)),
            None => true,
        },
        match r.changelog_file {
            Some(p) => p@ == render_comps(dir@.push("CHANGELOG.md"@)),
            None => true,
        },
        license_list_shape(r.license_files.deep_view(), dir@),
{
    let readme_candidate = dir.join("README.md").render();
    let readme_file = if path_is_file(readme_candidate.as_str()) {
        Some(readme_candidate)
    } else {
        None
    };

    let license_candidate = dir.join("LICENSE").render();
    let unlicense_candidate = dir.join("UNLICENSE").render();
    let has_license = path_is_file(license_candidate.as_str());
    let has_unlicense = path_is_file(unlicense_candidate.as_str());
    let license_files: Vec<String> = if has_license && has_unlicense {
        let files = vec![license_candidate, unlicense_candidate];
        proof {
            assert(files.deep_view() =~= seq![
                render_comps(dir@.push("LICENSE"@)),
                render_comps(dir@.push("UNLICENSE"@)),
            ]);
        }
        files
    } else if has_license {
        let files = vec![license_candidate];
        proof {
            assert(files.deep_view() =~= seq![render_comps(dir@.push("LICENSE"@))]);
        }
        files
    } else if has_unlicense {
        let files = vec![unlicense_candidate];
        proof {
            assert(files.deep_view() =~= seq![render_comps(dir@.push("UNLICENSE"@))]);
        }
        files
    } else {
        let files: Vec<String> = Vec::new();
        proof {
            assert(files.deep_view() =~= Seq::<Seq<char>>::empty());
        }
        files
    };

    let changelog_candidate = dir.join("CHANGELOG.md").render();
    let changelog_file = if path_is_file(changelog_candidate.as_str()) {
        Some(changelog_candidate)
    } else {
        None
    };

    AutoIncludes { readme_file, license_files, changelog_file }
}

} // verus!
