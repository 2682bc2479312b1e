pub mod backend;
pub mod long;
pub mod short;

use vstd::prelude::*;

verus! {

/// libgit2's error code for a missing object or setting.
pub const NOT_FOUND: i32 = -3;

/// libgit2's error code for a revision that does not apply, such as
/// `@{upstream}` while HEAD is not a branch.
pub const INVALID_SPEC: i32 = -12;

/// libgit2's error code for a HEAD that names a branch without commits.
pub const UNBORN_BRANCH: i32 = -9;

/// libgit2's error class of reference lookups.
pub const CLASS_REFERENCE: i64 = 4;

/// libgit2's error class of configuration lookups.
pub const CLASS_CONFIG: i64 = 7;

/// How a repository is found from a path.
#[derive(Clone, Copy, Debug, PartialEq, Eq, Structural)]
pub enum Locate {
    /// The path or the nearest of its parents that is in a repository.
    Discover,
    /// The path itself must be a repository.
    Exact,
}

/// Why the upstream of HEAD could not be resolved.
#[derive(Clone, Copy, Debug, PartialEq, Eq, Structural)]
pub enum UpstreamMiss {
    /// The branch has no upstream configured.
    Unconfigured,
    /// An upstream is configured but its reference is missing.
    Missing,
    /// HEAD is not a branch, so no upstream applies.
    NotBranch,
    /// Any other failure of the repository backend.
    Failed,
}

/// What a failed upstream lookup with this error code and class means.
pub open spec fn upstream_miss_of(code: i32, class: i64) -> UpstreamMiss {
    if code == NOT_FOUND && class == CLASS_CONFIG {
        UpstreamMiss::Unconfigured
    } else if code == NOT_FOUND && class == CLASS_REFERENCE {
        UpstreamMiss::Missing
    } else if code == INVALID_SPEC {
        UpstreamMiss::NotBranch
    } else {
        UpstreamMiss::Failed
    }
}

/// Reads the error of a failed upstream lookup.
pub fn upstream_miss(code: i32, class: i64) -> (r: UpstreamMiss)
    ensures
        r == upstream_miss_of(code, class),
{
    if code == NOT_FOUND {
        if class == CLASS_CONFIG {
            UpstreamMiss::Unconfigured
        } else if class == CLASS_REFERENCE {
            UpstreamMiss::Missing
        } else {
            UpstreamMiss::Failed
        }
    } else if code == INVALID_SPEC {
        UpstreamMiss::NotBranch
    } else {
        UpstreamMiss::Failed
    }
}

/// Opens the repository that `path` belongs to, as `locate` says.
pub(crate) fn open_repository(path: &str, locate: Locate) -> (r: Option<git2::Repository>) {
    match locate {
        Locate::Discover => backend::discover(path),
        Locate::Exact => backend::open(path),
    }
}

/// Resolves the ranges that upstream tracking compares: `Ok` where both
/// `HEAD..@{upstream}` and `@{upstream}..HEAD` resolve, else why not.
pub(crate) fn upstream_ranges(repo: &git2::Repository) -> (r: Result<(), UpstreamMiss>) {
    match backend::revparse(repo, "HEAD..@{upstream}") {
        Err(e) => Err(upstream_miss(backend::error_code(&e), backend::error_class(&e))),
        Ok(()) => match backend::revparse(repo, "@{upstream}..HEAD") {
            Err(e) => Err(upstream_miss(backend::error_code(&e), backend::error_class(&e))),
            Ok(()) => Ok(()),
        },
    }
}

} // verus!
