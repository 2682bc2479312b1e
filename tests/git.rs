use simpalt::git::long::{
    aggregate, before_sync, head_name, pending, short_id, tracked_repo, upstream, walk_step,
    Changes, Pending, Repo, Sync, Upstream,
};
use simpalt::git::backend::RepoState;
use simpalt::git::short;
use simpalt::git::{upstream_miss, Locate, UpstreamMiss};

fn no_changes() -> Changes {
    Changes { added: 0, modified: 0, removed: 0, conflicted: 0 }
}

fn temp_repo_path(name: &str) -> String {
    let nanos = std::time::SystemTime::now()
        .duration_since(std::time::UNIX_EPOCH)
        .unwrap()
        .as_nanos();
    format!("/tmp/simpalt-{name}-{nanos}")
}

fn commit(repo: &git2::Repository, refname: &str, parents: &[git2::Oid], message: &str) -> git2::Oid {
    let tree_id = repo.treebuilder(None).unwrap().write().unwrap();
    let tree = repo.find_tree(tree_id).unwrap();
    let sig = git2::Signature::now("Test", "test@example.com").unwrap();
    let parents: Vec<git2::Commit<'_>> =
        parents.iter().map(|p| repo.find_commit(*p).unwrap()).collect();
    let refs: Vec<&git2::Commit<'_>> = parents.iter().collect();
    repo.commit(Some(refname), &sig, &sig, message, &tree, &refs).unwrap()
}

/// A repository whose `main` has two commits of its own and whose
/// upstream `up` has one, over a common base.
fn diverged_repo(name: &str) -> (String, git2::Repository) {
    let path = temp_repo_path(name);
    let repo = git2::Repository::init(&path).unwrap();
    let base = commit(&repo, "refs/heads/main", &[], "base");
    let m1 = commit(&repo, "refs/heads/main", &[base], "m1");
    commit(&repo, "refs/heads/main", &[m1], "m2");
    commit(&repo, "refs/heads/up", &[base], "u1");
    repo.set_head("refs/heads/main").unwrap();
    {
        let mut config = repo.config().unwrap();
        config.set_str("branch.main.remote", ".").unwrap();
        config.set_str("branch.main.merge", "refs/heads/up").unwrap();
    }
    (path, repo)
}

fn walk_count(repo: &git2::Repository, push: &str, hide: &str) -> usize {
    let mut walk = repo.revwalk().unwrap();
    walk.push_ref(push).unwrap();
    walk.hide_ref(hide).unwrap();
    walk.count()
}

#[test]
fn clean_iff_all_counts_zero() {
    for added in 0..2 {
        for modified in 0..2 {
            for removed in 0..2 {
                for conflicted in 0..2 {
                    let c = Changes { added, modified, removed, conflicted };
                    assert_eq!(
                        c.clean(),
                        added == 0 && modified == 0 && removed == 0 && conflicted == 0
                    );
                }
            }
        }
    }
}

#[test]
fn aggregate_buckets_by_precedence() {
    let entries = [
        0x1, 0x80, 0x4, 0x200, 0x2, 0x100, 0x8, 0x10, 0x400, 0x800, 0x8000, 0x4000, 0x101,
        0x204, 0x8100,
    ];
    assert_eq!(
        aggregate(&entries),
        Changes { added: 3, modified: 7, removed: 3, conflicted: 1 }
    );
    assert_eq!(aggregate(&[]), no_changes());
    assert!(aggregate(&[]).clean());
}

#[test]
fn short_id_takes_up_to_four_bytes() {
    assert_eq!(short_id(&[]), None);
    assert_eq!(short_id(&[0xab]), Some(String::from("ab")));
    assert_eq!(short_id(&[0x0a, 0xff, 0x10]), Some(String::from("0aff10")));
    assert_eq!(short_id(&[1, 2, 3, 4, 5, 6]), Some(String::from("01020304")));
}

#[test]
fn head_name_cases() {
    let id: Vec<u8> = (0u8..20).map(|i| i * 13).collect();
    assert_eq!(head_name(Some(String::from("HEAD")), Some(id)), "000d1a27");
    assert_eq!(head_name(Some(String::from("main")), None), "main");
    assert_eq!(head_name(Some(String::from("HEAD")), None), "HEAD");
    assert_eq!(head_name(None, None), "??");
    assert_eq!(head_name(Some(String::new()), None), "??");
}

#[test]
fn pending_kinds() {
    assert_eq!(pending(RepoState::Clean), None);
    assert_eq!(pending(RepoState::Merge), Some(Pending::Merge));
    assert_eq!(pending(RepoState::RevertSequence), Some(Pending::Revert));
    assert_eq!(pending(RepoState::CherryPick), Some(Pending::Cherry));
    assert_eq!(pending(RepoState::Bisect), Some(Pending::Bisect));
    assert_eq!(pending(RepoState::RebaseInteractive), Some(Pending::Rebase));
    assert_eq!(pending(RepoState::ApplyMailboxOrRebase), Some(Pending::Mailbox));
}

#[test]
fn upstream_errors() {
    assert_eq!(upstream_miss(-3, 7), UpstreamMiss::Unconfigured);
    assert_eq!(upstream_miss(-3, 4), UpstreamMiss::Missing);
    assert_eq!(upstream_miss(-12, 4), UpstreamMiss::NotBranch);
    assert_eq!(upstream_miss(-3, 3), UpstreamMiss::Failed);
    assert_eq!(upstream_miss(-1, 7), UpstreamMiss::Failed);
}

#[test]
fn tracked_repo_outcomes() {
    let c = no_changes();
    assert_eq!(
        tracked_repo(String::from("m"), Upstream::Counted { ahead: 1, behind: 2 }, c),
        Repo::Regular(String::from("m"), Sync::Upstream { ahead: 1, behind: 2 }, c)
    );
    assert_eq!(
        tracked_repo(String::from("m"), Upstream::Miss(UpstreamMiss::Unconfigured), c),
        Repo::Regular(String::from("m"), Sync::Local, c)
    );
    assert_eq!(
        tracked_repo(String::from("m"), Upstream::Miss(UpstreamMiss::Missing), c),
        Repo::Regular(String::from("m"), Sync::Gone, c)
    );
    assert_eq!(
        tracked_repo(String::from("m"), Upstream::Miss(UpstreamMiss::NotBranch), c),
        Repo::Detached(String::from("m"), c)
    );
    assert_eq!(
        tracked_repo(String::from("m"), Upstream::Miss(UpstreamMiss::Failed), c),
        Repo::Error
    );
}

#[test]
fn short_decisions() {
    assert_eq!(short::sync(false, false), short::Sync::UpToDate);
    assert_eq!(short::sync(true, false), short::Sync::Behind);
    assert_eq!(short::sync(false, true), short::Sync::Ahead);
    assert_eq!(short::sync(true, true), short::Sync::Diverged);
    assert_eq!(short::after_miss(UpstreamMiss::Unconfigured), Ok(short::Sync::Local));
    assert_eq!(short::after_miss(UpstreamMiss::Missing), Err(short::Repo::Untracked));
    assert_eq!(short::after_miss(UpstreamMiss::NotBranch), Err(short::Repo::Detached));
    assert_eq!(short::after_miss(UpstreamMiss::Failed), Err(short::Repo::Error));
    assert_eq!(short::settle(short::Sync::Ahead, 0), short::Repo::Clean(short::Sync::Ahead));
    assert_eq!(short::settle(short::Sync::Ahead, 3), short::Repo::Dirty(short::Sync::Ahead));
}

#[test]
fn no_repository_is_absent() {
    let path = temp_repo_path("absent");
    assert_eq!(simpalt::git::long::classify(&path, Locate::Exact), Repo::Absent);
    assert_eq!(short::classify(&path, Locate::Exact), short::Repo::Absent);
}

#[test]
fn sync_counts_match_direct_walks() {
    let (path, repo) = diverged_repo("sync");
    let ahead = walk_count(&repo, "refs/heads/main", "refs/heads/up");
    let behind = walk_count(&repo, "refs/heads/up", "refs/heads/main");
    assert_eq!((ahead, behind), (2, 1));
    assert_eq!(
        simpalt::git::long::classify(&path, Locate::Exact),
        Repo::Regular(String::from("main"), Sync::Upstream { ahead, behind }, no_changes())
    );
    assert_eq!(
        short::classify(&path, Locate::Exact),
        short::Repo::Clean(short::Sync::Diverged)
    );
}

#[test]
fn classify_twice_gives_the_same() {
    let (path, _repo) = diverged_repo("twice");
    let first = simpalt::git::long::classify(&path, Locate::Exact);
    let second = simpalt::git::long::classify(&path, Locate::Exact);
    assert_eq!(first, second);
    assert_eq!(short::parse(&path), short::parse(&path));
}

#[test]
fn discover_finds_the_repository_above() {
    let (path, _repo) = diverged_repo("discover");
    let inner = format!("{path}/.git/refs");
    assert_eq!(simpalt::git::long::classify(&inner, Locate::Exact), Repo::Absent);
    assert!(matches!(simpalt::git::long::parse(&inner), Repo::Regular(..)));
}

#[test]
fn upstream_missing_is_gone_and_unconfigured_is_local() {
    let (path, repo) = diverged_repo("gone");
    {
        let mut config = repo.config().unwrap();
        config.set_str("branch.main.merge", "refs/heads/nowhere").unwrap();
    }
    assert_eq!(
        simpalt::git::long::classify(&path, Locate::Exact),
        Repo::Regular(String::from("main"), Sync::Gone, no_changes())
    );
    assert_eq!(short::classify(&path, Locate::Exact), short::Repo::Untracked);
    {
        let mut config = repo.config().unwrap();
        config.remove("branch.main.merge").unwrap();
        config.remove("branch.main.remote").unwrap();
    }
    assert_eq!(
        simpalt::git::long::classify(&path, Locate::Exact),
        Repo::Regular(String::from("main"), Sync::Local, no_changes())
    );
    assert_eq!(
        short::classify(&path, Locate::Exact),
        short::Repo::Clean(short::Sync::Local)
    );
}

#[test]
fn detached_head_shows_short_id() {
    let (path, repo) = diverged_repo("detached");
    let id = repo.refname_to_id("refs/heads/up").unwrap();
    repo.set_head_detached(id).unwrap();
    let expected: String = id.as_bytes()[..4].iter().map(|b| format!("{b:02x}")).collect();
    assert_eq!(
        simpalt::git::long::classify(&path, Locate::Exact),
        Repo::Detached(expected, no_changes())
    );
    assert_eq!(short::classify(&path, Locate::Exact), short::Repo::Detached);
}

#[test]
fn fresh_repository_is_new() {
    let path = temp_repo_path("new");
    git2::Repository::init(&path).unwrap();
    assert_eq!(simpalt::git::long::classify(&path, Locate::Exact), Repo::New(no_changes()));
}

#[test]
fn staged_file_counts_as_added() {
    let (path, repo) = diverged_repo("staged");
    let mut index = repo.index().unwrap();
    let entry = git2::IndexEntry {
        ctime: git2::IndexTime::new(0, 0),
        mtime: git2::IndexTime::new(0, 0),
        dev: 0,
        ino: 0,
        mode: 0o100644,
        uid: 0,
        gid: 0,
        file_size: 0,
        id: repo.blob(b"hello").unwrap(),
        flags: 0,
        flags_extended: 0,
        path: b"file.txt".to_vec(),
    };
    index.add_frombuffer(&entry, b"hello").unwrap();
    index.write().unwrap();
    assert_eq!(
        simpalt::git::long::classify(&path, Locate::Exact),
        Repo::Regular(
            String::from("main"),
            Sync::Upstream { ahead: 2, behind: 1 },
            Changes { added: 1, modified: 0, removed: 0, conflicted: 0 }
        )
    );
    assert_eq!(
        short::classify(&path, Locate::Exact),
        short::Repo::Dirty(short::Sync::Diverged)
    );
}

#[test]
fn before_sync_decisions() {
    let entries = vec![0x1, 0x100];
    let c = Changes { added: 1, modified: 1, removed: 0, conflicted: 0 };
    let head = || Ok(String::from("main"));
    assert_eq!(before_sync(None, head(), RepoState::Clean), Err(Repo::Error));
    assert_eq!(before_sync(Some(entries.clone()), Err(-9), RepoState::Merge), Err(Repo::New(c)));
    assert_eq!(before_sync(Some(entries.clone()), Err(-1), RepoState::Clean), Err(Repo::Error));
    assert_eq!(
        before_sync(Some(entries.clone()), head(), RepoState::Rebase),
        Err(Repo::Pending(String::from("main"), Pending::Rebase, c))
    );
    assert_eq!(
        before_sync(Some(entries), head(), RepoState::Clean),
        Ok((String::from("main"), c))
    );
}

#[test]
fn upstream_outcomes() {
    assert_eq!(
        upstream(Ok(()), Some((2, 3))),
        Upstream::Counted { ahead: 2, behind: 3 }
    );
    assert_eq!(upstream(Ok(()), None), Upstream::Miss(UpstreamMiss::Failed));
    assert_eq!(
        upstream(Err(UpstreamMiss::Missing), Some((2, 3))),
        Upstream::Miss(UpstreamMiss::Missing)
    );
}

#[test]
fn walk_steps() {
    assert_eq!(walk_step(4, Some(true)), Ok(5));
    assert_eq!(walk_step(usize::MAX, Some(true)), Err(None));
    assert_eq!(walk_step(4, Some(false)), Err(None));
    assert_eq!(walk_step(4, None), Err(Some(4)));
}

#[test]
fn quick_decisions() {
    assert_eq!(short::presence(Some(true)), Some(true));
    assert_eq!(short::presence(None), Some(false));
    assert_eq!(short::presence(Some(false)), None);
    assert_eq!(short::decide(RepoState::Bisect, Ok(()), None, None), short::Repo::Pending);
    assert_eq!(
        short::decide(RepoState::Clean, Err(UpstreamMiss::Missing), None, Some(3)),
        short::Repo::Untracked
    );
    assert_eq!(
        short::decide(RepoState::Clean, Err(UpstreamMiss::Unconfigured), None, Some(0)),
        short::Repo::Clean(short::Sync::Local)
    );
    assert_eq!(short::decide(RepoState::Clean, Ok(()), None, Some(0)), short::Repo::Error);
    assert_eq!(
        short::decide(RepoState::Clean, Ok(()), Some((true, false)), Some(2)),
        short::Repo::Dirty(short::Sync::Behind)
    );
    assert_eq!(
        short::decide(RepoState::Clean, Ok(()), Some((false, false)), None),
        short::Repo::Error
    );
}
