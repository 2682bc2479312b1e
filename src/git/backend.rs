//! The calls into libgit2, through the `git2` crate, that the repository
//! classification makes. Each item here is taken on trust: what it states
//! is what git2's source shows of the call it wraps.
use vstd::prelude::*;

verus! {

#[verifier::external_type_specification]
#[verifier::external_body]
pub struct ExRepository(git2::Repository);

#[verifier::external_type_specification]
#[verifier::external_body]
pub struct ExError(git2::Error);

/// Declared because `git2::Revwalk` iterates over object ids.
#[verifier::external_type_specification]
#[verifier::external_body]
pub struct ExOid(git2::Oid);

#[verifier::external_type_specification]
#[verifier::external_body]
pub struct ExReference<'r>(git2::Reference<'r>);

#[verifier::external_type_specification]
#[verifier::external_body]
pub struct ExRevwalk<'r>(git2::Revwalk<'r>);

/// An in-progress operation of a repository, one variant for each of
/// `git2::RepositoryState`'s.
#[derive(Clone, Copy, Debug, PartialEq, Eq, Structural)]
pub enum RepoState {
    Clean,
    Merge,
    Revert,
    RevertSequence,
    CherryPick,
    CherryPickSequence,
    Bisect,
    Rebase,
    RebaseInteractive,
    RebaseMerge,
    ApplyMailbox,
    ApplyMailboxOrRebase,
}

/// Relies on `git2::Repository::discover`: searches `path` and its parents
/// for a repository.
#[verifier::external_body]
pub(crate) fn discover(path: &str) -> (r: Option<git2::Repository>) {
    git2::Repository::discover(path).ok()
}

/// Relies on `git2::Repository::open`: opens the repository at `path` itself.
#[verifier::external_body]
pub(crate) fn open(path: &str) -> (r: Option<git2::Repository>) {
    git2::Repository::open(path).ok()
}

/// Relies on `git2::Repository::statuses`, with untracked entries included
/// and ignored ones left out: the status bits of each entry, or `None` when
/// the status cannot be read.
#[verifier::external_body]
pub(crate) fn statuses(repo: &git2::Repository) -> (r: Option<Vec<u32>>) {
    let mut options = git2::StatusOptions::new();
    options.include_ignored(false).include_untracked(true);
    repo.statuses(Some(&mut options)).ok().map(
        |list| list.iter().map(|entry| entry.status().bits()).collect(),
    )
}

/// Relies on `git2::Repository::head`: the reference HEAD resolves to, or
/// the error, which is libgit2's unborn-branch error in a repository
/// without commits.
#[verifier::external_body]
pub(crate) fn head<'r>(repo: &'r git2::Repository) -> (r: Result<git2::Reference<'r>, git2::Error>) {
    repo.head()
}

/// Relies on `git2::Reference::shorthand`: the short name of a reference,
/// `None` where it is not UTF-8.
#[verifier::external_body]
pub(crate) fn shorthand(reference: &git2::Reference<'_>) -> (r: Option<String>) {
    reference.shorthand().ok().map(String::from)
}

/// Relies on `git2::Reference::target` and `git2::Oid::as_bytes`: the raw
/// object id of a direct reference, which is 20 bytes (SHA-1) in this build.
#[verifier::external_body]
pub(crate) fn target_bytes(reference: &git2::Reference<'_>) -> (r: Option<Vec<u8>>)
    ensures
        r matches Some(id) ==> id@.len() == 20,
{
    reference.target().map(|oid| oid.as_bytes().to_vec())
}

/// Relies on `git2::Repository::state`.
#[verifier::external_body]
pub(crate) fn state(repo: &git2::Repository) -> (r: RepoState) {
    match repo.state() {
        git2::RepositoryState::Clean => RepoState::Clean,
        git2::RepositoryState::Merge => RepoState::Merge,
        git2::RepositoryState::Revert => RepoState::Revert,
        git2::RepositoryState::RevertSequence => RepoState::RevertSequence,
        git2::RepositoryState::CherryPick => RepoState::CherryPick,
        git2::RepositoryState::CherryPickSequence => RepoState::CherryPickSequence,
        git2::RepositoryState::Bisect => RepoState::Bisect,
        git2::RepositoryState::Rebase => RepoState::Rebase,
        git2::RepositoryState::RebaseInteractive => RepoState::RebaseInteractive,
        git2::RepositoryState::RebaseMerge => RepoState::RebaseMerge,
        git2::RepositoryState::ApplyMailbox => RepoState::ApplyMailbox,
        git2::RepositoryState::ApplyMailboxOrRebase => RepoState::ApplyMailboxOrRebase,
    }
}

/// Relies on `git2::Repository::revparse`: whether a revision range
/// resolves, and the error where it does not.
#[verifier::external_body]
pub(crate) fn revparse(repo: &git2::Repository, spec: &str) -> (r: Result<(), git2::Error>) {
    repo.revparse(spec).map(|_| ())
}

/// Relies on `git2::Error::raw_code`: libgit2's error code.
#[verifier::external_body]
pub(crate) fn error_code(e: &git2::Error) -> (r: i32) {
    e.raw_code()
}

/// Relies on `git2::Error::raw_class`: libgit2's error class.
#[verifier::external_body]
pub(crate) fn error_class(e: &git2::Error) -> (r: i64) {
    e.raw_class() as i64
}

/// Relies on `git2::Repository::revwalk`: a new commit walker.
#[verifier::external_body]
pub(crate) fn revwalk<'r>(repo: &'r git2::Repository) -> (r: Option<git2::Revwalk<'r>>) {
    repo.revwalk().ok()
}

/// Relies on `git2::Revwalk::push_range`: for `a..b`, walks from `b` with
/// `a` and its ancestors left out; `false` on failure.
#[verifier::external_body]
pub(crate) fn push_range(walk: &mut git2::Revwalk<'_>, range: &str) -> (r: bool) {
    walk.push_range(range).is_ok()
}

/// Relies on `git2::Revwalk::reset`: clears the walk's starting points and
/// hidden commits; `false` on failure.
#[verifier::external_body]
pub(crate) fn reset(walk: &mut git2::Revwalk<'_>) -> (r: bool) {
    walk.reset().is_ok()
}

/// Relies on `git2::Revwalk`'s `Iterator::next`: `None` at the end of the
/// walk, `Some(true)` for a commit, `Some(false)` for a failed step.
#[verifier::external_body]
pub(crate) fn next(walk: &mut git2::Revwalk<'_>) -> (r: Option<bool>) {
    walk.next().map(|step| step.is_ok())
}

} // verus!
