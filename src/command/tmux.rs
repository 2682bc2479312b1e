//! The tmux status segment for a repository.
use vstd::prelude::*;
use vstd::string::StringExecFns;
use crate::command::Tmux;
use crate::git::long::{self as git, Changes, Pending, Repo, Sync};
use crate::text::{decimal, push_decimal};

verus! {

/// The glyph of a pending operation.
pub open spec fn pending_glyph(p: Pending) -> Seq<char> {
    match p {
        Pending::Merge => "\u{f419}"@,
        Pending::Revert => "\u{eb8f}"@,
        Pending::Cherry => "\u{e29b}"@,
        Pending::Bisect => "\u{f418}"@,
        Pending::Rebase => "\u{f407}"@,
        Pending::Mailbox => "\u{f42f}"@,
    }
}

/// The glyph of a pending operation.
pub fn pending_symbol(p: Pending) -> (r: &'static str)
    ensures
        r@ == pending_glyph(p),
{
    match p {
        Pending::Merge => "\u{f419}",
        Pending::Revert => "\u{eb8f}",
        Pending::Cherry => "\u{e29b}",
        Pending::Bisect => "\u{f418}",
        Pending::Rebase => "\u{f407}",
        Pending::Mailbox => "\u{f42f}",
    }
}

/// One count of the changes: nothing when it is zero; else the count in
/// `color` after `sign`, opening the changes' background first unless
/// `opened` says it already is.
pub open spec fn count_text(n: usize, color: Seq<char>, sign: Seq<char>, opened: bool) -> Seq<
    char,
> {
    if n == 0 {
        Seq::empty()
    } else if opened {
        "#[fg="@ + color + "] "@ + sign + decimal(n as nat)
    } else {
        "#[fg=colour236]\u{e0be}#[fg="@ + color + ",bg=colour236] "@ + sign + decimal(n as nat)
    }
}

/// The changes, with a closing space where any is shown.
pub open spec fn changes_text(c: Changes) -> Seq<char> {
    let a = c.added > 0;
    let r = a || c.removed > 0;
    let m = r || c.modified > 0;
    let k = m || c.conflicted > 0;
    count_text(c.added, "green"@, "+"@, false) + count_text(c.removed, "red"@, "-"@, a)
        + count_text(c.modified, "blue"@, "~"@, r) + count_text(c.conflicted, "magenta"@, "!"@, m)
        + if k {
        " "@
    } else {
        Seq::empty()
    }
}

/// The thin separator before the sync, after the changes' background
/// (`opened`) or opening it.
pub open spec fn slant_text(opened: bool) -> Seq<char> {
    if opened {
        "#[fg=colour246] \u{e0b9} "@
    } else {
        "#[fg=colour246]\u{e0b9}"@ + "#[bg=colour236] "@
    }
}

/// How the branch stands against its upstream; an even branch shows nothing.
pub open spec fn sync_text(sync: Sync, opened: bool) -> Seq<char> {
    match sync {
        Sync::Local => slant_text(opened) + "#[fg=cyan]\u{f0042} local "@,
        Sync::Gone => slant_text(opened) + "#[fg=magenta]\u{f005c} gone "@,
        Sync::Upstream { ahead, behind } => (if ahead > 0 {
            slant_text(opened) + "#[fg=yellow]\u{f005d}"@ + decimal(ahead as nat) + " "@
        } else {
            Seq::empty()
        }) + (if behind > 0 {
            (if ahead > 0 {
                Seq::empty()
            } else {
                slant_text(opened)
            }) + "#[fg=red]\u{f0045}"@ + decimal(behind as nat) + " "@
        } else {
            Seq::empty()
        }),
    }
}

/// The head's segment: the branch glyph on its background.
pub open spec fn head_lead() -> Seq<char> {
    "#[fg=colour237]\u{e0be}"@ + "#[fg=magenta,bg=colour237] \u{e0a0}"@
}

/// The tmux status of a repository.
pub open spec fn git_text(repo: Repo) -> Seq<char> {
    match repo {
        Repo::Absent | Repo::Error => Seq::empty(),
        Repo::Regular(head, sync, changes) => head_lead() + "#[fg=colour246]"@ + head@ + " "@
            + changes_text(changes) + sync_text(sync, !changes.clean_spec()),
        Repo::Detached(head, changes) => head_lead() + "#[fg=colour246]"@ + head@ + " "@
            + changes_text(changes),
        Repo::Pending(head, p, changes) => head_lead() + "#[fg=colour246]"@ + head@ + " "@
            + pending_glyph(p) + changes_text(changes),
        Repo::New(changes) => changes_text(changes),
    }
}

/// Appends one count of the changes; returns whether the changes'
/// background is open afterwards.
fn push_count(s: &mut String, n: usize, color: &str, sign: &str, opened: bool) -> (r: bool)
    ensures
        final(s)@ == old(s)@ + count_text(n, color@, sign@, opened),
        r == (opened || n > 0),
{
    if n == 0 {
        proof {
            assert(s@ =~= old(s)@ + count_text(n, color@, sign@, opened));
        }
        return opened;
    }
    if opened {
        s.append("#[fg=");
        s.append(color);
        s.append("] ");
    } else {
        s.append("#[fg=colour236]\u{e0be}#[fg=");
        s.append(color);
        s.append(",bg=colour236] ");
    }
    s.append(sign);
    push_decimal(s, n);
    proof {
        assert(s@ =~= old(s)@ + count_text(n, color@, sign@, opened));
    }
    true
}

/// Appends the changes; returns whether any was shown.
pub fn render_changes(s: &mut String, changes: Changes) -> (r: bool)
    ensures
        final(s)@ == old(s)@ + changes_text(changes),
        r == !changes.clean_spec(),
{
    let opened = push_count(s, changes.added, "green", "+", false);
    let opened = push_count(s, changes.removed, "red", "-", opened);
    let opened = push_count(s, changes.modified, "blue", "~", opened);
    let opened = push_count(s, changes.conflicted, "magenta", "!", opened);
    if opened {
        s.append(" ");
    }
    proof {
        assert(s@ =~= old(s)@ + changes_text(changes));
    }
    opened
}

/// Appends the thin separator before the sync.
fn push_slant(s: &mut String, opened: bool)
    ensures
        final(s)@ == old(s)@ + slant_text(opened),
{
    if opened {
        s.append("#[fg=colour246] \u{e0b9} ");
    } else {
        s.append("#[fg=colour246]\u{e0b9}");
        s.append("#[bg=colour236] ");
    }
    proof {
        assert(s@ =~= old(s)@ + slant_text(opened));
    }
}

/// Appends how the branch stands against its upstream.
pub fn render_sync(s: &mut String, sync: Sync, opened: bool)
    ensures
        final(s)@ == old(s)@ + sync_text(sync, opened),
{
    match sync {
        Sync::Local => {
            push_slant(s, opened);
            s.append("#[fg=cyan]\u{f0042} local ");
        },
        Sync::Gone => {
            push_slant(s, opened);
            s.append("#[fg=magenta]\u{f005c} gone ");
        },
        Sync::Upstream { ahead, behind } => {
            if ahead > 0 {
                push_slant(s, opened);
                s.append("#[fg=yellow]\u{f005d}");
                push_decimal(s, ahead);
                s.append(" ");
            }
            if behind > 0 {
                if ahead == 0 {
                    push_slant(s, opened);
                }
                s.append("#[fg=red]\u{f0045}");
                push_decimal(s, behind);
                s.append(" ");
            }
        },
    }
    proof {
        assert(s@ =~= old(s)@ + sync_text(sync, opened));
    }
}

/// Appends the head's segment and name, followed by `tail`.
fn push_head(s: &mut String, head: &String, tail: &str)
    ensures
        final(s)@ == old(s)@ + head_lead() + "#[fg=colour246]"@ + head@ + tail@,
{
    s.append("#[fg=colour237]\u{e0be}");
    s.append("#[fg=magenta,bg=colour237] \u{e0a0}");
    s.append("#[fg=colour246]");
    s.append(head.as_str());
    s.append(tail);
    proof {
        assert(s@ =~= old(s)@ + head_lead() + "#[fg=colour246]"@ + head@ + tail@);
    }
}

/// The tmux status of a repository.
pub fn render_git(repo: Repo) -> (r: String)
    ensures
        r@ == git_text(repo),
{
    let mut s = String::new();
    match repo {
        Repo::Absent | Repo::Error => {},
        Repo::Regular(head, sync, changes) => {
            push_head(&mut s, &head, " ");
            let opened = render_changes(&mut s, changes);
            render_sync(&mut s, sync, opened);
        },
        Repo::Detached(head, changes) => {
            push_head(&mut s, &head, " ");
            render_changes(&mut s, changes);
        },
        Repo::Pending(head, p, changes) => {
            push_head(&mut s, &head, " ");
            s.append(pending_symbol(p));
            render_changes(&mut s, changes);
        },
        Repo::New(changes) => {
            render_changes(&mut s, changes);
        },
    }
    proof {
        assert(s@ =~= git_text(repo));
    }
    s
}

/// The tmux status of the repository that `args.pwd` is in.
pub fn render(args: Tmux) -> (r: String)
    ensures
        exists|repo: Repo| r@ == git_text(repo),
{
    let repo = git::parse(args.pwd.as_str());
    let ghost found = repo;
    let r = render_git(repo);
    proof {
        assert(r@ == git_text(found));
    }
    r
}

} // verus!
