//! Quick classification of a repository: clean or dirty, and where it
//! stands against its upstream, without counting.
use vstd::prelude::*;
use crate::git::backend::{self, RepoState};
use crate::git::{open_repository, upstream_ranges, Locate, UpstreamMiss};

verus! {

/// The quick classification of the repository at a path.
#[derive(Clone, Copy, Debug, PartialEq, Eq, Structural)]
pub enum Repo {
    /// No repository was found.
    Absent,
    /// Nothing has changed.
    Clean(Sync),
    /// Some entry has changed.
    Dirty(Sync),
    /// HEAD is not a branch.
    Detached,
    /// An operation is in progress.
    Pending,
    /// The configured upstream's reference is missing.
    Untracked,
    /// The status could not be determined.
    Error,
}

/// Where a branch stands against its upstream.
#[derive(Clone, Copy, Debug, PartialEq, Eq, Structural)]
pub enum Sync {
    Behind,
    Ahead,
    Diverged,
    UpToDate,
    Local,
}

/// Where a branch stands, from whether some commit is only upstream
/// (`behind`) and whether some commit is only on the branch (`ahead`).
pub open spec fn sync_of(behind: bool, ahead: bool) -> Sync {
    if behind && ahead {
        Sync::Diverged
    } else if behind {
        Sync::Behind
    } else if ahead {
        Sync::Ahead
    } else {
        Sync::UpToDate
    }
}

/// Where a branch stands against its upstream.
pub fn sync(behind: bool, ahead: bool) -> (r: Sync)
    ensures
        r == sync_of(behind, ahead),
{
    match (behind, ahead) {
        (false, false) => Sync::UpToDate,
        (true, false) => Sync::Behind,
        (false, true) => Sync::Ahead,
        (true, true) => Sync::Diverged,
    }
}

/// What a failed upstream lookup makes of the classification: the sync to
/// go on with (`Ok`), or the classification itself (`Err`).
pub open spec fn miss_outcome(miss: UpstreamMiss) -> Result<Sync, Repo> {
    match miss {
        UpstreamMiss::Unconfigured => Ok(Sync::Local),
        UpstreamMiss::Missing => Err(Repo::Untracked),
        UpstreamMiss::NotBranch => Err(Repo::Detached),
        UpstreamMiss::Failed => Err(Repo::Error),
    }
}

/// What a failed upstream lookup makes of the classification.
pub fn after_miss(miss: UpstreamMiss) -> (r: Result<Sync, Repo>)
    ensures
        r == miss_outcome(miss),
{
    match miss {
        UpstreamMiss::Unconfigured => Ok(Sync::Local),
        UpstreamMiss::Missing => Err(Repo::Untracked),
        UpstreamMiss::NotBranch => Err(Repo::Detached),
        UpstreamMiss::Failed => Err(Repo::Error),
    }
}

/// What the first step of a presence walk says: a commit means the range
/// holds some (`Some(true)`), the end of the walk that it holds none
/// (`Some(false)`), a failed step nothing (`None`).
pub open spec fn first_step(step: Option<bool>) -> Option<bool> {
    match step {
        Option::Some(true) => Option::Some(true),
        Option::Some(false) => Option::None,
        Option::None => Option::Some(false),
    }
}

/// What the first step of a presence walk says.
pub fn presence(step: Option<bool>) -> (r: Option<bool>)
    ensures
        r == first_step(step),
{
    match step {
        Option::Some(true) => Option::Some(true),
        Option::Some(false) => Option::None,
        Option::None => Option::Some(false),
    }
}

/// Whether a revision range holds any commit, walking no further than the
/// first. Returns the result and the first step of the walk (a failed one
/// where the range could not be pushed).
fn any_in_range(walk: &mut git2::Revwalk<'_>, range: &str) -> (r: (Option<bool>, Ghost<Option<bool>>))
    ensures
        r.0 == first_step(r.1@),
{
    if !backend::push_range(walk, range) {
        return (Option::None, Ghost(Option::Some(false)));
    }
    let step = backend::next(walk);
    (presence(step), Ghost(step))
}

/// Whether commits are only upstream (behind) and only on HEAD (ahead),
/// with one walk for each side. Returns the pair and the first steps of the
/// two walks: the pair is what they say, and a failed step gives `None`.
fn presence_sync(repo: &git2::Repository) -> (r: (Option<(bool, bool)>, Ghost<(Option<bool>, Option<bool>)>))
    ensures
        r.0 matches Option::Some((behind, ahead)) ==> first_step(r.1@.0) == Option::Some(behind)
            && first_step(r.1@.1) == Option::Some(ahead),
        first_step(r.1@.0).is_none() || first_step(r.1@.1).is_none() ==> r.0.is_none(),
{
    let failed = Ghost((Option::Some(false), Option::Some(false)));
    let mut walk = match backend::revwalk(repo) {
        Option::Some(w) => w,
        Option::None => return (Option::None, failed),
    };
    let (behind, behind_step) = any_in_range(&mut walk, "HEAD..@{upstream}");
    let behind = match behind {
        Option::Some(b) => b,
        Option::None => return (Option::None, Ghost((behind_step@, Option::Some(false)))),
    };
    if !backend::reset(&mut walk) {
        return (Option::None, Ghost((behind_step@, Option::Some(false))));
    }
    let (ahead, ahead_step) = any_in_range(&mut walk, "@{upstream}..HEAD");
    let ahead = match ahead {
        Option::Some(a) => a,
        Option::None => return (Option::None, Ghost((behind_step@, ahead_step@))),
    };
    (Option::Some((behind, ahead)), Ghost((behind_step@, ahead_step@)))
}

/// The classification from the sync found and the number of changed
/// entries.
pub fn settle(sync: Sync, changed: usize) -> (r: Repo)
    ensures
        r == (if changed > 0 {
            Repo::Dirty(sync)
        } else {
            Repo::Clean(sync)
        }),
{
    if changed > 0 {
        Repo::Dirty(sync)
    } else {
        Repo::Clean(sync)
    }
}

/// The quick classification from what was read of a found repository:
/// its state, whether the upstream ranges resolved, what the presence walks
/// said (behind, ahead; `None` where one failed), and the number of status
/// entries (`None` where the status could not be read). An operation in
/// progress comes first; then the upstream, then the status.
pub open spec fn quick_of(
    state: RepoState,
    ranges: Result<(), UpstreamMiss>,
    walks: Option<(bool, bool)>,
    entries: Option<usize>,
) -> Repo {
    if state != RepoState::Clean {
        Repo::Pending
    } else {
        let synced = match ranges {
            Err(miss) => miss_outcome(miss),
            Ok(()) => match walks {
                Option::Some((behind, ahead)) => Ok(sync_of(behind, ahead)),
                Option::None => Err(Repo::Error),
            },
        };
        match synced {
            Err(r) => r,
            Ok(s) => match entries {
                Option::Some(n) => if n > 0 {
                    Repo::Dirty(s)
                } else {
                    Repo::Clean(s)
                },
                Option::None => Repo::Error,
            },
        }
    }
}

/// The quick classification from what was read of a found repository.
pub fn decide(
    state: RepoState,
    ranges: Result<(), UpstreamMiss>,
    walks: Option<(bool, bool)>,
    entries: Option<usize>,
) -> (r: Repo)
    ensures
        r == quick_of(state, ranges, walks, entries),
{
    if state != RepoState::Clean {
        return Repo::Pending;
    }
    let synced = match ranges {
        Err(miss) => after_miss(miss),
        Ok(()) => match walks {
            Option::Some((behind, ahead)) => Ok(sync(behind, ahead)),
            Option::None => Err(Repo::Error),
        },
    };
    match synced {
        Err(r) => r,
        Ok(s) => match entries {
            Option::Some(n) => settle(s, n),
            Option::None => Repo::Error,
        },
    }
}

/// Whether `r` is the quick classification from these reads, with walk
/// results that are what the first steps `behind` and `ahead` say, and a
/// failed step giving none.
pub open spec fn classifies(
    r: Repo,
    found: bool,
    state: RepoState,
    ranges: Result<(), UpstreamMiss>,
    walks: Option<(bool, bool)>,
    entries: Option<usize>,
    behind: Option<bool>,
    ahead: Option<bool>,
) -> bool {
    &&& r == (if found {
        quick_of(state, ranges, walks, entries)
    } else {
        Repo::Absent
    })
    &&& (walks matches Option::Some((b, a)) ==> first_step(behind) == Option::Some(b) && first_step(
        ahead,
    ) == Option::Some(a))
    &&& (first_step(behind).is_none() || first_step(ahead).is_none() ==> walks.is_none())
}

/// Classifies the repository at `path`, found as `locate` says: `Absent`
/// where none was found, else the decisions of `quick_of` on what libgit2
/// read of it.
pub fn classify(path: &str, locate: Locate) -> (r: Repo)
    ensures
        exists|
            found: bool,
            state: RepoState,
            ranges: Result<(), UpstreamMiss>,
            walks: Option<(bool, bool)>,
            entries: Option<usize>,
            behind: Option<bool>,
            ahead: Option<bool>,
        | #[trigger] classifies(r, found, state, ranges, walks, entries, behind, ahead),
{
    let ghost unread = Option::Some(true);
    let repo = match open_repository(path, locate) {
        Option::Some(repo) => repo,
        Option::None => {
            proof {
                assert(classifies(Repo::Absent, false, RepoState::Clean, Ok(()), Option::None, Option::None, unread, unread));
            }
            return Repo::Absent;
        },
    };
    let state = backend::state(&repo);
    if state != RepoState::Clean {
        let r = decide(state, Ok(()), Option::None, Option::None);
        proof {
            assert(classifies(r, true, state, Ok(()), Option::None, Option::None, unread, unread));
        }
        return r;
    }
    let ranges = upstream_ranges(&repo);
    let (walks, steps) = match ranges {
        Ok(()) => presence_sync(&repo),
        Err(_) => (Option::None, Ghost((unread, unread))),
    };
    let synced = match ranges {
        Err(miss) => after_miss(miss).is_ok(),
        Ok(()) => walks.is_some(),
    };
    let entries = if synced {
        match backend::statuses(&repo) {
            Option::Some(e) => Option::Some(e.len()),
            Option::None => Option::None,
        }
    } else {
        Option::None
    };
    let r = decide(state, ranges, walks, entries);
    proof {
        assert(classifies(r, true, state, ranges, walks, entries, steps@.0, steps@.1));
    }
    r
}

/// Classifies the repository that `path` is in, searching upward from it.
pub fn parse(path: &str) -> (r: Repo)
    ensures
        exists|
            found: bool,
            state: RepoState,
            ranges: Result<(), UpstreamMiss>,
            walks: Option<(bool, bool)>,
            entries: Option<usize>,
            behind: Option<bool>,
            ahead: Option<bool>,
        | #[trigger] classifies(r, found, state, ranges, walks, entries, behind, ahead),
{
    classify(path, Locate::Discover)
}

} // verus!
