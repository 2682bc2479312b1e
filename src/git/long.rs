//! Full classification of a repository: the head's name, pending operation,
//! upstream tracking with ahead and behind counts, and change counts.
use vstd::prelude::*;
use vstd::string::StringExecFns;
use crate::git::backend::{self, RepoState};
use crate::git::{open_repository, upstream_ranges, Locate, UpstreamMiss, UNBORN_BRANCH};
use crate::text::{hex_of, opt_bytes, opt_chars, push_hex};

verus! {

/// The classification of the repository at a path.
#[derive(Clone, Debug, PartialEq, Eq)]
pub enum Repo {
    /// No repository was found.
    Absent,
    /// HEAD is a branch: its name, upstream tracking and changes.
    Regular(String, Sync, Changes),
    /// HEAD points at a commit directly: its short id, and the changes.
    Detached(String, Changes),
    /// An operation is in progress.
    Pending(String, Pending, Changes),
    /// The repository has no commits yet.
    New(Changes),
    /// The status could not be determined.
    Error,
}

/// The mathematical value of a `Repo`: head names as characters.
pub enum RepoView {
    Absent,
    Regular(Seq<char>, Sync, Changes),
    Detached(Seq<char>, Changes),
    Pending(Seq<char>, Pending, Changes),
    New(Changes),
    Error,
}

impl View for Repo {
    type V = RepoView;

    open spec fn view(&self) -> RepoView {
        match self {
            Repo::Absent => RepoView::Absent,
            Repo::Regular(h, s, c) => RepoView::Regular(h@, *s, *c),
            Repo::Detached(h, c) => RepoView::Detached(h@, *c),
            Repo::Pending(h, p, c) => RepoView::Pending(h@, *p, *c),
            Repo::New(c) => RepoView::New(*c),
            Repo::Error => RepoView::Error,
        }
    }
}

/// How a branch relates to its upstream.
#[derive(Clone, Copy, Debug, PartialEq, Eq, Structural)]
pub enum Sync {
    /// No upstream is configured.
    Local,
    /// The configured upstream's reference is missing.
    Gone,
    /// Commits only on the branch (`ahead`) and only upstream (`behind`).
    Upstream { ahead: usize, behind: usize },
}

/// An operation in progress.
#[derive(Clone, Copy, Debug, PartialEq, Eq, Structural)]
pub enum Pending {
    Merge,
    Revert,
    Cherry,
    Bisect,
    Rebase,
    Mailbox,
}

/// How many entries of the status fall in each bucket.
#[derive(Clone, Copy, Debug, PartialEq, Eq, Structural)]
pub struct Changes {
    pub added: usize,
    pub modified: usize,
    pub removed: usize,
    pub conflicted: usize,
}

impl Changes {
    /// Whether all four counts are zero.
    pub open spec fn clean_spec(&self) -> bool {
        self.added == 0 && self.modified == 0 && self.removed == 0 && self.conflicted == 0
    }

    /// Whether nothing has changed: all four counts are zero.
    pub fn clean(&self) -> (r: bool)
        ensures
            r == (self.added == 0 && self.modified == 0 && self.removed == 0 && self.conflicted
                == 0),
            r == self.clean_spec(),
    {
        self.added == 0 && self.modified == 0 && self.removed == 0 && self.conflicted == 0
    }
}

/// The four kinds of change an entry of the status counts as.
#[derive(Clone, Copy, Debug, PartialEq, Eq, Structural)]
pub enum Bucket {
    Added,
    Removed,
    Modified,
    Conflicted,
}

/// Status bits of a new entry, in the index or in the worktree.
pub const ADDED_BITS: u32 = 0x81;

/// Status bits of a deleted entry, in the index or in the worktree.
pub const REMOVED_BITS: u32 = 0x204;

/// Status bits of a modified, renamed or type-changed entry, in the index
/// or in the worktree.
pub const MODIFIED_BITS: u32 = 0xd1a;

/// Status bit of a conflicted entry.
pub const CONFLICTED_BITS: u32 = 0x8000;

/// The bucket of an entry with these status bits, taken in the order
/// added, removed, modified, conflicted; `None` for an entry in no bucket.
pub open spec fn bucket_of(bits: u32) -> Option<Bucket> {
    if bits & ADDED_BITS != 0 {
        Some(Bucket::Added)
    } else if bits & REMOVED_BITS != 0 {
        Some(Bucket::Removed)
    } else if bits & MODIFIED_BITS != 0 {
        Some(Bucket::Modified)
    } else if bits & CONFLICTED_BITS != 0 {
        Some(Bucket::Conflicted)
    } else {
        None
    }
}

/// How many of `entries` fall in bucket `b`.
pub open spec fn count_of(entries: Seq<u32>, b: Bucket) -> nat
    decreases entries.len(),
{
    if entries.len() == 0 {
        0
    } else {
        count_of(entries.drop_last(), b) + if bucket_of(entries.last()) == Some(b) {
            1nat
        } else {
            0nat
        }
    }
}

/// How many of `entries` fall in some bucket.
pub open spec fn bucketed(entries: Seq<u32>) -> nat
    decreases entries.len(),
{
    if entries.len() == 0 {
        0
    } else {
        bucketed(entries.drop_last()) + if bucket_of(entries.last()).is_some() {
            1nat
        } else {
            0nat
        }
    }
}

/// Each entry that carries one of the four kinds of change falls in
/// exactly one bucket: the four counts add up to the number of such
/// entries.
pub proof fn lemma_buckets_partition(entries: Seq<u32>)
    ensures
        count_of(entries, Bucket::Added) + count_of(entries, Bucket::Removed) + count_of(
            entries,
            Bucket::Modified,
        ) + count_of(entries, Bucket::Conflicted) == bucketed(entries),
    decreases entries.len(),
{
    if entries.len() > 0 {
        lemma_buckets_partition(entries.drop_last());
    }
}

/// The bucket of an entry with these status bits.
pub fn bucket(bits: u32) -> (r: Option<Bucket>)
    ensures
        r == bucket_of(bits),
{
    if bits & ADDED_BITS != 0 {
        Some(Bucket::Added)
    } else if bits & REMOVED_BITS != 0 {
        Some(Bucket::Removed)
    } else if bits & MODIFIED_BITS != 0 {
        Some(Bucket::Modified)
    } else if bits & CONFLICTED_BITS != 0 {
        Some(Bucket::Conflicted)
    } else {
        None
    }
}

/// Counts the entries of a status, given as their status bits, by bucket.
pub fn aggregate(entries: &[u32]) -> (r: Changes)
    ensures
        r.added == count_of(entries@, Bucket::Added),
        r.removed == count_of(entries@, Bucket::Removed),
        r.modified == count_of(entries@, Bucket::Modified),
        r.conflicted == count_of(entries@, Bucket::Conflicted),
        r.added + r.removed + r.modified + r.conflicted == bucketed(entries@),
{
    let mut changes = Changes { added: 0, modified: 0, removed: 0, conflicted: 0 };
    let mut i: usize = 0;
    while i < entries.len()
        invariant
            i <= entries@.len(),
            changes.added <= i,
            changes.removed <= i,
            changes.modified <= i,
            changes.conflicted <= i,
            changes.added == count_of(entries@.take(i as int), Bucket::Added),
            changes.removed == count_of(entries@.take(i as int), Bucket::Removed),
            changes.modified == count_of(entries@.take(i as int), Bucket::Modified),
            changes.conflicted == count_of(entries@.take(i as int), Bucket::Conflicted),
        decreases entries@.len() - i,
    {
        proof {
            assert(entries@.take(i + 1).drop_last() =~= entries@.take(i as int));
            assert(entries@.take(i + 1).last() == entries@[i as int]);
        }
        match bucket(entries[i]) {
            Some(Bucket::Added) => changes.added = changes.added + 1,
            Some(Bucket::Removed) => changes.removed = changes.removed + 1,
            Some(Bucket::Modified) => changes.modified = changes.modified + 1,
            Some(Bucket::Conflicted) => changes.conflicted = changes.conflicted + 1,
            None => {},
        }
        i = i + 1;
    }
    proof {
        assert(entries@.take(i as int) =~= entries@);
        lemma_buckets_partition(entries@);
    }
    changes
}

/// The short id of an object: its first bytes, up to four, in hexadecimal.
pub open spec fn short_id_of(id: Seq<u8>) -> Seq<char> {
    hex_of(
        id.take(
            if id.len() < 4 {
                id.len() as int
            } else {
                4
            },
        ),
    )
}

/// The short id of an object id, `None` for an empty one.
pub fn short_id(id: &[u8]) -> (r: Option<String>)
    ensures
        r.is_some() == (id@.len() > 0),
        r.is_some() ==> r.unwrap()@ == short_id_of(id@),
{
    if id.len() == 0 {
        return None;
    }
    let n: usize = if id.len() < 4 {
        id.len()
    } else {
        4
    };
    let mut s = String::new();
    let mut i: usize = 0;
    while i < n
        invariant
            n <= id@.len(),
            n == (if id@.len() < 4 {
                id@.len() as int
            } else {
                4
            }),
            i <= n,
            s@ == hex_of(id@.take(i as int)),
        decreases n - i,
    {
        proof {
            assert(id@.take(i + 1).drop_last() =~= id@.take(i as int));
        }
        push_hex(&mut s, id[i]);
        i = i + 1;
    }
    Some(s)
}

/// Shown where HEAD has no usable name.
pub open spec fn unknown_head() -> Seq<char> {
    seq!['?', '?']
}

/// The shorthand that names a detached HEAD.
pub open spec fn detached_shorthand() -> Seq<char> {
    seq!['H', 'E', 'A', 'D']
}

/// The name shown for HEAD, given its shorthand and the object id it
/// points at directly: a detached HEAD shows the short id of that object,
/// a branch its shorthand, and a missing or empty shorthand `??`.
pub open spec fn head_label(shorthand: Option<Seq<char>>, target: Option<Seq<u8>>) -> Seq<char> {
    match shorthand {
        Option::None => unknown_head(),
        Option::Some(name) => if name == detached_shorthand() && target.is_some()
            && target.unwrap().len() > 0 {
            short_id_of(target.unwrap())
        } else if name.len() == 0 {
            unknown_head()
        } else {
            name
        },
    }
}

/// The name shown for HEAD.
pub fn head_name(shorthand: Option<String>, target: Option<Vec<u8>>) -> (r: String)
    ensures
        r@ == head_label(
            match shorthand {
                Option::Some(s) => Option::Some(s@),
                Option::None => Option::None,
            },
            match target {
                Option::Some(t) => Option::Some(t@),
                Option::None => Option::None,
            },
        ),
        r@.len() > 0,
{
    proof {
        reveal_strlit("??");
        reveal_strlit("HEAD");
        assert("??"@ =~= unknown_head());
        assert("HEAD"@ =~= detached_shorthand());
    }
    match shorthand {
        Option::None => String::from_str("??"),
        Option::Some(name) => {
            let detached = String::from_str("HEAD");
            if name == detached {
                if let Option::Some(id) = target {
                    if let Option::Some(short) = short_id(id.as_slice()) {
                        proof {
                            assert(hex_of(Seq::<u8>::empty()) =~= Seq::<char>::empty());
                            lemma_hex_len(id@.take(if id@.len() < 4 { id@.len() as int } else { 4 }));
                        }
                        return short;
                    }
                }
            }
            if name.as_str().is_empty() {
                String::from_str("??")
            } else {
                name
            }
        },
    }
}

/// Two digits per byte.
pub proof fn lemma_hex_len(bytes: Seq<u8>)
    ensures
        hex_of(bytes).len() == 2 * bytes.len(),
    decreases bytes.len(),
{
    if bytes.len() > 0 {
        lemma_hex_len(bytes.drop_last());
    }
}

/// The pending operation that a repository state stands for.
pub open spec fn pending_of(state: RepoState) -> Option<Pending> {
    match state {
        RepoState::Clean => Option::None,
        RepoState::Merge => Option::Some(Pending::Merge),
        RepoState::Revert | RepoState::RevertSequence => Option::Some(Pending::Revert),
        RepoState::CherryPick | RepoState::CherryPickSequence => Option::Some(Pending::Cherry),
        RepoState::Bisect => Option::Some(Pending::Bisect),
        RepoState::Rebase | RepoState::RebaseInteractive | RepoState::RebaseMerge => Option::Some(
            Pending::Rebase,
        ),
        RepoState::ApplyMailbox | RepoState::ApplyMailboxOrRebase => Option::Some(
            Pending::Mailbox,
        ),
    }
}

/// The pending operation of a repository state, `None` when it is clean.
pub fn pending(state: RepoState) -> (r: Option<Pending>)
    ensures
        r == pending_of(state),
{
    match state {
        RepoState::Clean => Option::None,
        RepoState::Merge => Option::Some(Pending::Merge),
        RepoState::Revert | RepoState::RevertSequence => Option::Some(Pending::Revert),
        RepoState::CherryPick | RepoState::CherryPickSequence => Option::Some(Pending::Cherry),
        RepoState::Bisect => Option::Some(Pending::Bisect),
        RepoState::Rebase | RepoState::RebaseInteractive | RepoState::RebaseMerge => Option::Some(
            Pending::Rebase,
        ),
        RepoState::ApplyMailbox | RepoState::ApplyMailboxOrRebase => Option::Some(
            Pending::Mailbox,
        ),
    }
}

/// The changes that status entries with these bits make up.
pub open spec fn changes_of(entries: Seq<u32>) -> Changes {
    Changes {
        added: count_of(entries, Bucket::Added) as usize,
        modified: count_of(entries, Bucket::Modified) as usize,
        removed: count_of(entries, Bucket::Removed) as usize,
        conflicted: count_of(entries, Bucket::Conflicted) as usize,
    }
}

/// The decisions taken before any upstream lookup, from the status
/// entries read (`None` where the status could not be read), the name of
/// HEAD or libgit2's error code for it, and the repository state: an
/// unreadable status is an error; an unborn HEAD makes a new repository and
/// any other HEAD failure an error; an operation in progress ends the
/// classification; else the head's name and the changes go on to the
/// upstream lookup.
pub open spec fn before_sync_of(
    entries: Option<Seq<u32>>,
    head: Result<Seq<char>, i32>,
    state: RepoState,
) -> Result<(Seq<char>, Changes), RepoView> {
    match entries {
        Option::None => Err(RepoView::Error),
        Option::Some(e) => match head {
            Err(code) => if code == UNBORN_BRANCH {
                Err(RepoView::New(changes_of(e)))
            } else {
                Err(RepoView::Error)
            },
            Ok(h) => match pending_of(state) {
                Option::Some(p) => Err(RepoView::Pending(h, p, changes_of(e))),
                Option::None => Ok((h, changes_of(e))),
            },
        },
    }
}

/// The entries of an optional status.
pub open spec fn opt_entries(o: Option<Vec<u32>>) -> Option<Seq<u32>> {
    match o {
        Option::Some(v) => Option::Some(v@),
        Option::None => Option::None,
    }
}

/// The characters of a head's name, or its error code.
pub open spec fn head_chars(h: Result<String, i32>) -> Result<Seq<char>, i32> {
    match h {
        Ok(s) => Ok(s@),
        Err(code) => Err(code),
    }
}

/// Takes the decisions that come before any upstream lookup.
pub fn before_sync(entries: Option<Vec<u32>>, head: Result<String, i32>, state: RepoState) -> (r:
    Result<(String, Changes), Repo>)
    ensures
        match before_sync_of(opt_entries(entries), head_chars(head), state) {
            Ok((h, c)) => r matches Ok((rh, rc)) && rh@ == h && rc == c,
            Err(v) => r matches Err(rv) && rv@ == v,
        },
{
    let entries = match entries {
        Option::Some(e) => e,
        Option::None => return Err(Repo::Error),
    };
    let changes = aggregate(entries.as_slice());
    proof {
        assert(changes == changes_of(entries@));
    }
    let head = match head {
        Ok(h) => h,
        Err(code) => {
            return if code == UNBORN_BRANCH {
                Err(Repo::New(changes))
            } else {
                Err(Repo::Error)
            };
        },
    };
    match pending(state) {
        Option::Some(p) => Err(Repo::Pending(head, p, changes)),
        Option::None => Ok((head, changes)),
    }
}

/// What the upstream lookup found: the counts, or why there are none.
#[derive(Clone, Copy, Debug, PartialEq, Eq, Structural)]
pub enum Upstream {
    Counted { ahead: usize, behind: usize },
    Miss(UpstreamMiss),
}

/// What the upstream lookup found, from whether both ranges resolved and
/// the counts of the walks (`None` where a walk failed).
pub open spec fn upstream_of(ranges: Result<(), UpstreamMiss>, counts: Option<(usize, usize)>) -> Upstream {
    match ranges {
        Err(miss) => Upstream::Miss(miss),
        Ok(()) => match counts {
            Option::Some((ahead, behind)) => Upstream::Counted { ahead, behind },
            Option::None => Upstream::Miss(UpstreamMiss::Failed),
        },
    }
}

/// What the upstream lookup found.
pub fn upstream(ranges: Result<(), UpstreamMiss>, counts: Option<(usize, usize)>) -> (r: Upstream)
    ensures
        r == upstream_of(ranges, counts),
{
    match ranges {
        Err(miss) => Upstream::Miss(miss),
        Ok(()) => match counts {
            Option::Some((ahead, behind)) => Upstream::Counted { ahead, behind },
            Option::None => Upstream::Miss(UpstreamMiss::Failed),
        },
    }
}

/// The classification of a repository with a resolved HEAD and no
/// operation in progress, from what its upstream lookup found: `Regular`
/// with the sync found, `Detached` where HEAD is not a branch, `Error`
/// where the lookup failed.
pub open spec fn tracked_of(head: Seq<char>, upstream: Upstream, changes: Changes) -> RepoView {
    match upstream {
        Upstream::Counted { ahead, behind } => RepoView::Regular(
            head,
            Sync::Upstream { ahead, behind },
            changes,
        ),
        Upstream::Miss(UpstreamMiss::Unconfigured) => RepoView::Regular(head, Sync::Local, changes),
        Upstream::Miss(UpstreamMiss::Missing) => RepoView::Regular(head, Sync::Gone, changes),
        Upstream::Miss(UpstreamMiss::NotBranch) => RepoView::Detached(head, changes),
        Upstream::Miss(UpstreamMiss::Failed) => RepoView::Error,
    }
}

/// Builds the classification of a repository with a resolved HEAD and no
/// operation in progress.
pub fn tracked_repo(head: String, upstream: Upstream, changes: Changes) -> (r: Repo)
    ensures
        r@ == tracked_of(head@, upstream, changes),
{
    match upstream {
        Upstream::Counted { ahead, behind } => Repo::Regular(
            head,
            Sync::Upstream { ahead, behind },
            changes,
        ),
        Upstream::Miss(UpstreamMiss::Unconfigured) => Repo::Regular(head, Sync::Local, changes),
        Upstream::Miss(UpstreamMiss::Missing) => Repo::Regular(head, Sync::Gone, changes),
        Upstream::Miss(UpstreamMiss::NotBranch) => Repo::Detached(head, changes),
        Upstream::Miss(UpstreamMiss::Failed) => Repo::Error,
    }
}

/// One step of a counting walk from `count` commits: a commit counts one
/// more (`Ok`); the end of the walk gives the count (`Err(Some(_))`); a
/// failed step, or a count that would overflow, fails the walk
/// (`Err(None)`).
pub open spec fn step_of(count: usize, step: Option<bool>) -> Result<usize, Option<usize>> {
    match step {
        Option::Some(true) => if count < usize::MAX {
            Ok((count + 1) as usize)
        } else {
            Err(Option::None)
        },
        Option::Some(false) => Err(Option::None),
        Option::None => Err(Option::Some(count)),
    }
}

/// One step of a counting walk.
pub fn walk_step(count: usize, step: Option<bool>) -> (r: Result<usize, Option<usize>>)
    ensures
        r == step_of(count, step),
{
    match step {
        Option::Some(true) => if count < usize::MAX {
            Ok(count + 1)
        } else {
            Err(Option::None)
        },
        Option::Some(false) => Err(Option::None),
        Option::None => Err(Option::Some(count)),
    }
}

/// Where a counting walk stands after these steps: still going with its
/// count (`Ok`), or ended with its result (`Err`).
pub open spec fn walk_of(steps: Seq<Option<bool>>) -> Result<usize, Option<usize>>
    decreases steps.len(),
{
    if steps.len() == 0 {
        Ok(0)
    } else {
        match walk_of(steps.drop_last()) {
            Ok(count) => step_of(count, steps.last()),
            Err(e) => Err(e),
        }
    }
}

/// Counts the commits of a revision range by walking it. Returns the
/// result and the steps the walk took: none where the range could not be
/// pushed (and the result is `None`), else steps up to the one that ended
/// the walk, whose result is returned.
fn count_range(walk: &mut git2::Revwalk<'_>, range: &str) -> (r: (Option<usize>, Ghost<Seq<Option<bool>>>))
    ensures
        r.1@.len() == 0 ==> r.0.is_none(),
        r.1@.len() > 0 ==> walk_of(r.1@.drop_last()) is Ok && walk_of(r.1@) == Err::<usize, Option<usize>>(r.0),
{
    if !backend::push_range(walk, range) {
        return (Option::None, Ghost(Seq::empty()));
    }
    let mut count: usize = 0;
    let ghost mut steps: Seq<Option<bool>> = Seq::empty();
    loop
        invariant
            walk_of(steps) == Ok::<usize, Option<usize>>(count),
        decreases usize::MAX - count,
    {
        let step = backend::next(walk);
        let ghost before = steps;
        proof {
            steps = steps.push(step);
            assert(steps.drop_last() =~= before);
        }
        match walk_step(count, step) {
            Ok(c) => count = c,
            Err(e) => return (e, Ghost(steps)),
        }
    }
}

/// Counts the commits only upstream (behind) and only on HEAD (ahead),
/// with one walk for each side. Returns the counts and the steps of the
/// two walks: the counts are the walks' results, and a failed walk step
/// gives `None`.
pub(crate) fn count_sync(repo: &git2::Repository) -> (r: (
    Option<(usize, usize)>,
    Ghost<(Seq<Option<bool>>, Seq<Option<bool>>)>,
))
    ensures
        r.0 matches Option::Some((ahead, behind)) ==> walk_of(r.1@.0) == Err::<usize, Option<usize>>(Option::Some(behind))
            && walk_of(r.1@.1) == Err::<usize, Option<usize>>(Option::Some(ahead)),
        walk_of(r.1@.0) == Err::<usize, Option<usize>>(Option::None) ==> r.0.is_none(),
        walk_of(r.1@.1) == Err::<usize, Option<usize>>(Option::None) ==> r.0.is_none(),
{
    let none = Ghost((Seq::<Option<bool>>::empty(), Seq::<Option<bool>>::empty()));
    let mut walk = match backend::revwalk(repo) {
        Option::Some(w) => w,
        Option::None => return (Option::None, none),
    };
    let (behind, behind_steps) = count_range(&mut walk, "HEAD..@{upstream}");
    let behind = match behind {
        Option::Some(n) => n,
        Option::None => return (Option::None, Ghost((behind_steps@, Seq::empty()))),
    };
    if !backend::reset(&mut walk) {
        return (Option::None, Ghost((behind_steps@, Seq::empty())));
    }
    let (ahead, ahead_steps) = count_range(&mut walk, "@{upstream}..HEAD");
    let ahead = match ahead {
        Option::Some(n) => n,
        Option::None => return (Option::None, Ghost((behind_steps@, ahead_steps@))),
    };
    (Option::Some((ahead, behind)), Ghost((behind_steps@, ahead_steps@)))
}

/// Whether each HEAD shown in `r` has a name.
pub open spec fn head_named(r: &Repo) -> bool {
    match r {
        Repo::Regular(h, _, _) => h@.len() > 0,
        Repo::Detached(h, _) => h@.len() > 0,
        Repo::Pending(h, _, _) => h@.len() > 0,
        _ => true,
    }
}

/// The name shown for a HEAD given by its shorthand and target, or its
/// error code.
pub open spec fn head_label_of(head: Result<(Option<Seq<char>>, Option<Seq<u8>>), i32>) -> Result<
    Seq<char>,
    i32,
> {
    match head {
        Ok((shorthand, target)) => Ok(head_label(shorthand, target)),
        Err(code) => Err(code),
    }
}

/// The classification from what was read of the repository: whether it
/// was found, its status entries, its HEAD (shorthand and target, or
/// libgit2's error code), its state, whether the upstream ranges resolved,
/// and the counts of the walks.
pub open spec fn classified_of(
    found: bool,
    entries: Option<Seq<u32>>,
    head: Result<(Option<Seq<char>>, Option<Seq<u8>>), i32>,
    state: RepoState,
    ranges: Result<(), UpstreamMiss>,
    counts: Option<(usize, usize)>,
) -> RepoView {
    if !found {
        RepoView::Absent
    } else {
        match before_sync_of(entries, head_label_of(head), state) {
            Err(v) => v,
            Ok((h, c)) => tracked_of(h, upstream_of(ranges, counts), c),
        }
    }
}

/// Whether `r` is the classification from these reads, with counts that
/// are the results of walks taking the steps `behind` and `ahead`, and a
/// failed walk step giving no counts.
pub open spec fn classifies(
    r: RepoView,
    found: bool,
    entries: Option<Seq<u32>>,
    head: Result<(Option<Seq<char>>, Option<Seq<u8>>), i32>,
    state: RepoState,
    ranges: Result<(), UpstreamMiss>,
    counts: Option<(usize, usize)>,
    behind: Seq<Option<bool>>,
    ahead: Seq<Option<bool>>,
) -> bool {
    &&& r == classified_of(found, entries, head, state, ranges, counts)
    &&& (counts matches Option::Some((a, b)) ==> walk_of(behind) == Err::<usize, Option<usize>>(
        Option::Some(b),
    ) && walk_of(ahead) == Err::<usize, Option<usize>>(Option::Some(a)))
    &&& (walk_of(behind) == Err::<usize, Option<usize>>(Option::None) || walk_of(ahead) == Err::<
        usize,
        Option<usize>,
    >(Option::None) ==> counts.is_none())
}

/// Classifies the repository at `path`, found as `locate` says. The
/// result is the classification from what libgit2 read of it: `Absent`
/// where no repository was found, then the decisions of `before_sync_of`,
/// then those of `tracked_of` on the upstream lookup.
pub fn classify(path: &str, locate: Locate) -> (r: Repo)
    ensures
        head_named(&r),
        exists|
            found: bool,
            entries: Option<Seq<u32>>,
            head: Result<(Option<Seq<char>>, Option<Seq<u8>>), i32>,
            state: RepoState,
            ranges: Result<(), UpstreamMiss>,
            counts: Option<(usize, usize)>,
            behind: Seq<Option<bool>>,
            ahead: Seq<Option<bool>>,
        |
            #[trigger] classifies(r@, found, entries, head, state, ranges, counts, behind, ahead),
{
    let ghost no_steps = Seq::<Option<bool>>::empty();
    let repo = match open_repository(path, locate) {
        Option::Some(repo) => repo,
        Option::None => {
            let r = Repo::Absent;
            proof {
                assert(classifies(r@, false, Option::None, Err(0), RepoState::Clean, Ok(()), Option::None, no_steps, no_steps));
            }
            return r;
        },
    };
    let entries = backend::statuses(&repo);
    let ghost entries_read = opt_entries(entries);
    let head_ref = backend::head(&repo);
    let ghost mut head_read: Result<(Option<Seq<char>>, Option<Seq<u8>>), i32> = Err(0);
    let head: Result<String, i32> = match &head_ref {
        Ok(reference) => {
            let shorthand = backend::shorthand(reference);
            let target = backend::target_bytes(reference);
            proof {
                head_read = Ok((opt_chars(shorthand), opt_bytes(target)));
            }
            Ok(head_name(shorthand, target))
        },
        Err(e) => {
            let code = backend::error_code(e);
            proof {
                head_read = Err(code);
            }
            Err(code)
        },
    };
    let state = backend::state(&repo);
    let (head, changes) = match before_sync(entries, head, state) {
        Ok(found) => found,
        Err(r) => {
            proof {
                assert(classifies(r@, true, entries_read, head_read, state, Ok(()), Option::None, no_steps, no_steps));
            }
            return r;
        },
    };
    let ranges = upstream_ranges(&repo);
    let (counts, steps) = match ranges {
        Ok(()) => count_sync(&repo),
        Err(_) => (Option::None, Ghost((no_steps, no_steps))),
    };
    let r = tracked_repo(head, upstream(ranges, counts), changes);
    proof {
        assert(classifies(r@, true, entries_read, head_read, state, ranges, counts, steps@.0, steps@.1));
    }
    r
}

/// Classifies the repository that `path` is in, searching upward from it.
pub fn parse(path: &str) -> (r: Repo)
    ensures
        head_named(&r),
        exists|
            found: bool,
            entries: Option<Seq<u32>>,
            head: Result<(Option<Seq<char>>, Option<Seq<u8>>), i32>,
            state: RepoState,
            ranges: Result<(), UpstreamMiss>,
            counts: Option<(usize, usize)>,
            behind: Seq<Option<bool>>,
            ahead: Seq<Option<bool>>,
        |
            #[trigger] classifies(r@, found, entries, head, state, ranges, counts, behind, ahead),
{
    classify(path, Locate::Discover)
}

} // verus!
