//! The long left prompt: a powerline of status, host, environments, the
//! working directory and the repository.
use vstd::prelude::*;
use vstd::string::{StrSliceExecFns, StringExecFns};
use crate::command::Env;
use crate::command::powerline::{line_text, seg, seg_if, Color, Line, Segment};
use crate::command::tmux::{pending_glyph, pending_symbol};
use crate::git::long::{Changes, Pending, Repo, Sync};
use crate::text::{decimal, decimal_string, opt_chars};

verus! {

/// The part of `s` after its last `/`; all of it where there is none.
pub open spec fn after_last_slash(s: Seq<char>) -> Seq<char>
    decreases s.len(),
{
    if s.len() == 0 {
        s
    } else if s.last() == '/' {
        Seq::empty()
    } else {
        after_last_slash(s.drop_last()).push(s.last())
    }
}

/// The part of `s` after its last `/`.
pub fn last_component(s: &str) -> (r: String)
    ensures
        r@ == after_last_slash(s@),
{
    let n = s.unicode_len();
    let mut start: usize = 0;
    let mut i: usize = 0;
    while i < n
        invariant
            n == s@.len(),
            start <= i <= n,
            after_last_slash(s@.take(i as int)) == s@.subrange(start as int, i as int),
        decreases n - i,
    {
        proof {
            assert(s@.take(i + 1).drop_last() =~= s@.take(i as int));
        }
        if s.get_char(i) == '/' {
            start = i + 1;
            proof {
                assert(s@.subrange(start as int, i + 1) =~= Seq::<char>::empty());
            }
        } else {
            proof {
                assert(s@.subrange(start as int, i + 1) =~= s@.subrange(start as int, i as int).push(
                    s@[i as int],
                ));
            }
        }
        i = i + 1;
    }
    proof {
        assert(s@.take(n as int) =~= s@);
    }
    String::from_str(s.substring_char(start, n))
}

/// Whether `s` begins with `prefix`.
pub fn starts_with(s: &str, prefix: &str) -> (r: bool)
    ensures
        r == (prefix@.len() <= s@.len() && s@.take(prefix@.len() as int) == prefix@),
{
    let n = prefix.unicode_len();
    if n > s.unicode_len() {
        return false;
    }
    let mut i: usize = 0;
    while i < n
        invariant
            n == prefix@.len(),
            n <= s@.len(),
            i <= n,
            forall|j: int| 0 <= j < i ==> s@[j] == prefix@[j],
        decreases n - i,
    {
        if s.get_char(i) != prefix.get_char(i) {
            proof {
                assert(s@.take(n as int)[i as int] != prefix@[i as int]);
            }
            return false;
        }
        i = i + 1;
    }
    proof {
        assert(s@.take(n as int) =~= prefix@);
    }
    true
}

/// The working directory as shown: with `~` for the home directory where
/// it begins with it.
pub open spec fn home_relative(pwd: Seq<char>, home: Option<Seq<char>>) -> Seq<char> {
    match home {
        Option::Some(h) => if h.len() <= pwd.len() && pwd.take(h.len() as int) == h {
            "~"@ + pwd.skip(h.len() as int)
        } else {
            pwd
        },
        Option::None => pwd,
    }
}

/// The working directory as shown.
pub fn pwd_text(pwd: &str, home: &Option<String>) -> (r: String)
    ensures
        r@ == home_relative(pwd@, opt_chars(*home)),
{
    if let Option::Some(h) = home {
        if starts_with(pwd, h.as_str()) {
            let n = pwd.unicode_len();
            let rest = pwd.substring_char(h.as_str().unicode_len(), n);
            proof {
                assert(rest@ =~= pwd@.skip(h@.len() as int));
            }
            return String::from_str("~").concat(rest);
        }
    }
    String::from_str(pwd)
}

/// The segments of the changes: one per non-zero count.
pub open spec fn changes_segments(c: Changes) -> Seq<Segment> {
    seg_if(c.added > 0, seg(Color::Black, Color::Green, "+"@ + decimal(c.added as nat))) + seg_if(
        c.removed > 0,
        seg(Color::Black, Color::Red, "-"@ + decimal(c.removed as nat)),
    ) + seg_if(c.modified > 0, seg(Color::Black, Color::Blue, "~"@ + decimal(c.modified as nat)))
        + seg_if(
        c.conflicted > 0,
        seg(Color::Black, Color::Magenta, "!"@ + decimal(c.conflicted as nat)),
    )
}

/// The segments of how a branch stands against its upstream.
pub open spec fn sync_segments(sync: Sync) -> Seq<Segment> {
    match sync {
        Sync::Local => seq![seg(Color::Black, Color::Cyan, "\u{f0042} local"@)],
        Sync::Gone => seq![seg(Color::Black, Color::Magenta, "\u{f005c} gone"@)],
        Sync::Upstream { ahead, behind } => seg_if(
            ahead > 0,
            seg(Color::Black, Color::Yellow, "\u{f005d}"@ + decimal(ahead as nat)),
        ) + seg_if(behind > 0, seg(Color::Black, Color::Red, "\u{f0045}"@ + decimal(behind as nat))),
    }
}

/// The segments of a repository: changes and sync where they apply, then
/// the head on a background that tells its state.
pub open spec fn git_segments(repo: Repo) -> Seq<Segment> {
    match repo {
        Repo::Absent => Seq::empty(),
        Repo::Error => seq![seg(Color::Red, Color::Black, "!"@)],
        Repo::Regular(head, sync, changes) => if changes.clean_spec() {
            sync_segments(sync) + seq![seg(Color::Green, Color::Black, "\u{e0a0}"@ + head@)]
        } else {
            changes_segments(changes) + (if sync != (Sync::Upstream { ahead: 0, behind: 0 }) {
                seq![seg(Color::Black, Color::Reset, "\u{e0b1}"@)] + sync_segments(sync)
            } else {
                Seq::empty()
            }) + seq![seg(Color::Yellow, Color::Black, "\u{e0a0}"@ + head@)]
        },
        Repo::Detached(head, changes) => changes_segments(changes) + seq![
            seg(Color::Magenta, Color::Black, "\u{27a6}"@ + head@),
        ],
        Repo::Pending(head, p, changes) => changes_segments(changes) + seq![
            seg(Color::Cyan, Color::Black, "\u{e0a0}"@ + head@ + " "@ + pending_glyph(p)),
        ],
        Repo::New(changes) => changes_segments(changes) + seq![
            seg(Color::Cyan, Color::Black, "\u{f005}"@),
        ],
    }
}

/// The segments of the long left prompt.
pub open spec fn prompt_segments(
    host: Option<Seq<char>>,
    error: bool,
    jobs: bool,
    env: Env,
    repo: Repo,
) -> Seq<Segment> {
    status_segments(host, error, jobs, env) + git_segments(repo) + seq![
        seg(Color::Reset, Color::Reset, Seq::empty()),
    ]
}

/// The segments of the last command's failure and of background jobs.
pub open spec fn flag_segments(error: bool, jobs: bool) -> Seq<Segment> {
    seg_if(error, seg(Color::Black, Color::Red, "\u{2718}"@)) + seg_if(
        jobs,
        seg(Color::Black, Color::Cyan, "\u{e615}"@),
    )
}

/// The segment of the host, where one is given.
pub open spec fn host_segments(host: Option<Seq<char>>) -> Seq<Segment> {
    match host {
        Option::Some(h) => seq![seg(Color::Black, Color::Reset, h + "\x1b[;40m"@)],
        Option::None => Seq::empty(),
    }
}

/// The segments of the Python and direnv environments.
pub open spec fn env_segments(env: Env) -> Seq<Segment> {
    venv_segments(env) + direnv_segments(env)
}

/// The segment of the Python environment, where one is active.
pub open spec fn venv_segments(env: Env) -> Seq<Segment> {
    match env.venv {
        Option::Some(v) => seq![seg(Color::Cyan, Color::Black, after_last_slash(v@))],
        Option::None => Seq::empty(),
    }
}

/// The segment of the direnv directory, where one is loaded.
pub open spec fn direnv_segments(env: Env) -> Seq<Segment> {
    match env.direnv_dir {
        Option::Some(d) => seq![
            seg(
                if env.direnv_active == Option::Some(true) {
                    Color::Green
                } else {
                    Color::Magenta
                },
                Color::Black,
                after_last_slash(d@),
            ),
        ],
        Option::None => Seq::empty(),
    }
}

/// The segment of the working directory.
pub open spec fn pwd_segment(env: Env) -> Segment {
    seg(
        Color::Blue,
        Color::Black,
        match env.pwd {
            Option::Some(p) => home_relative(p@, opt_chars(env.home)),
            Option::None => Seq::empty(),
        },
    )
}

/// The segments before the repository's: status, host, environments and
/// the working directory.
pub open spec fn status_segments(host: Option<Seq<char>>, error: bool, jobs: bool, env: Env) -> Seq<
    Segment,
> {
    flag_segments(error, jobs) + host_segments(host) + env_segments(env) + seq![pwd_segment(env)]
}

/// Adds a segment whose text is a glyph followed by a count.
fn push_count(line: &mut Line, bg: Color, fg: Color, glyph: &str, n: usize)
    requires
        old(line).wf(),
    ensures
        final(line).wf(),
        final(line).segs@ == old(line).segs@.push(seg(bg, fg, glyph@ + decimal(n as nat))),
{
    let text = String::from_str(glyph).concat(decimal_string(n).as_str());
    line.push(bg, fg, text.as_str());
}

/// Adds the segments of the changes.
pub fn render_changes(line: &mut Line, changes: Changes)
    requires
        old(line).wf(),
    ensures
        final(line).wf(),
        final(line).segs@ == old(line).segs@ + changes_segments(changes),
{
    let ghost start = line.segs@;
    if changes.added > 0 {
        push_count(line, Color::Black, Color::Green, "+", changes.added);
    }
    if changes.removed > 0 {
        push_count(line, Color::Black, Color::Red, "-", changes.removed);
    }
    if changes.modified > 0 {
        push_count(line, Color::Black, Color::Blue, "~", changes.modified);
    }
    if changes.conflicted > 0 {
        push_count(line, Color::Black, Color::Magenta, "!", changes.conflicted);
    }
    proof {
        assert(line.segs@ =~= start + changes_segments(changes));
    }
}

/// Adds the segments of how a branch stands against its upstream.
pub fn render_sync(line: &mut Line, sync: Sync)
    requires
        old(line).wf(),
    ensures
        final(line).wf(),
        final(line).segs@ == old(line).segs@ + sync_segments(sync),
{
    let ghost start = line.segs@;
    match sync {
        Sync::Local => line.push(Color::Black, Color::Cyan, "\u{f0042} local"),
        Sync::Gone => line.push(Color::Black, Color::Magenta, "\u{f005c} gone"),
        Sync::Upstream { ahead, behind } => {
            if ahead > 0 {
                push_count(line, Color::Black, Color::Yellow, "\u{f005d}", ahead);
            }
            if behind > 0 {
                push_count(line, Color::Black, Color::Red, "\u{f0045}", behind);
            }
        },
    }
    proof {
        assert(line.segs@ =~= start + sync_segments(sync));
    }
}

/// Adds a segment whose text is a glyph followed by a name.
fn push_named(line: &mut Line, bg: Color, fg: Color, glyph: &str, name: &String)
    requires
        old(line).wf(),
    ensures
        final(line).wf(),
        final(line).segs@ == old(line).segs@.push(seg(bg, fg, glyph@ + name@)),
{
    let text = String::from_str(glyph).concat(name.as_str());
    line.push(bg, fg, text.as_str());
}

/// Adds the segments of a repository whose HEAD is a branch.
fn render_regular(line: &mut Line, head: String, sync: Sync, changes: Changes)
    requires
        old(line).wf(),
    ensures
        final(line).wf(),
        final(line).segs@ == old(line).segs@ + git_segments(Repo::Regular(head, sync, changes)),
{
    let ghost start = line.segs@;
    if changes.clean() {
        render_sync(line, sync);
        push_named(line, Color::Green, Color::Black, "\u{e0a0}", &head);
    } else {
        render_changes(line, changes);
        let ghost changed = line.segs@;
        let even = match sync {
            Sync::Upstream { ahead, behind } => ahead == 0 && behind == 0,
            _ => false,
        };
        if !even {
            line.push(Color::Black, Color::Reset, "\u{e0b1}");
            render_sync(line, sync);
        }
        proof {
            assert(line.segs@ =~= changed + (if sync != (Sync::Upstream { ahead: 0, behind: 0 }) {
                seq![seg(Color::Black, Color::Reset, "\u{e0b1}"@)] + sync_segments(sync)
            } else {
                Seq::empty()
            }));
        }
        push_named(line, Color::Yellow, Color::Black, "\u{e0a0}", &head);
    }
    proof {
        assert(line.segs@ =~= start + git_segments(Repo::Regular(head, sync, changes)));
    }
}

/// Adds the segments of a repository with an operation in progress.
fn render_pending(line: &mut Line, head: String, p: Pending, changes: Changes)
    requires
        old(line).wf(),
    ensures
        final(line).wf(),
        final(line).segs@ == old(line).segs@ + git_segments(Repo::Pending(head, p, changes)),
{
    let ghost start = line.segs@;
    render_changes(line, changes);
    let name = head.clone().concat(" ").concat(pending_symbol(p));
    push_named(line, Color::Cyan, Color::Black, "\u{e0a0}", &name);
    proof {
        assert("\u{e0a0}"@ + name@ =~= "\u{e0a0}"@ + head@ + " "@ + pending_glyph(p));
        assert(line.segs@ =~= start + git_segments(Repo::Pending(head, p, changes)));
    }
}

/// Adds the segments of a repository.
pub fn render_git(line: &mut Line, repo: Repo)
    requires
        old(line).wf(),
    ensures
        final(line).wf(),
        final(line).segs@ == old(line).segs@ + git_segments(repo),
{
    let ghost start = line.segs@;
    let ghost whole = repo;
    match repo {
        Repo::Absent => {
            proof {
                assert(line.segs@ =~= start + git_segments(whole));
            }
        },
        Repo::Error => {
            line.push(Color::Red, Color::Black, "!");
            proof {
                assert(line.segs@ =~= start + git_segments(whole));
            }
        },
        Repo::Regular(head, sync, changes) => render_regular(line, head, sync, changes),
        Repo::Detached(head, changes) => {
            render_changes(line, changes);
            push_named(line, Color::Magenta, Color::Black, "\u{27a6}", &head);
            proof {
                assert(line.segs@ =~= start + git_segments(whole));
            }
        },
        Repo::Pending(head, p, changes) => render_pending(line, head, p, changes),
        Repo::New(changes) => {
            render_changes(line, changes);
            line.push(Color::Cyan, Color::Black, "\u{f005}");
            proof {
                assert(line.segs@ =~= start + git_segments(whole));
            }
        },
    }
}

/// Adds the segments of the environments.
fn render_env(line: &mut Line, env: &Env)
    requires
        old(line).wf(),
    ensures
        final(line).wf(),
        final(line).segs@ == old(line).segs@ + env_segments(*env),
{
    let ghost start = line.segs@;
    if let Option::Some(v) = &env.venv {
        let name = last_component(v.as_str());
        line.push(Color::Cyan, Color::Black, name.as_str());
    }
    let ghost mid = line.segs@;
    if let Option::Some(d) = &env.direnv_dir {
        let bg = if env.direnv_active == Option::Some(true) {
            Color::Green
        } else {
            Color::Magenta
        };
        let name = last_component(d.as_str());
        line.push(bg, Color::Black, name.as_str());
    }
    proof {
        assert(line.segs@ =~= start + env_segments(*env));
    }
}

/// Adds the segments of the last command's failure and of background jobs.
fn render_flags(line: &mut Line, error: bool, jobs: bool)
    requires
        old(line).wf(),
    ensures
        final(line).wf(),
        final(line).segs@ == old(line).segs@ + flag_segments(error, jobs),
{
    let ghost start = line.segs@;
    if error {
        line.push(Color::Black, Color::Red, "\u{2718}");
    }
    if jobs {
        line.push(Color::Black, Color::Cyan, "\u{e615}");
    }
    proof {
        assert(line.segs@ =~= start + flag_segments(error, jobs));
    }
}

/// Adds the segment of the host, where one is given.
fn render_host(line: &mut Line, host: Option<String>)
    requires
        old(line).wf(),
    ensures
        final(line).wf(),
        final(line).segs@ == old(line).segs@ + host_segments(opt_chars(host)),
{
    let ghost start = line.segs@;
    let ghost host_view = opt_chars(host);
    if let Option::Some(h) = host {
        let text = h.concat("\x1b[;40m");
        line.push(Color::Black, Color::Reset, text.as_str());
    }
    proof {
        assert(line.segs@ =~= start + host_segments(host_view));
    }
}

/// Adds the segment of the working directory.
fn render_pwd(line: &mut Line, env: &Env)
    requires
        old(line).wf(),
    ensures
        final(line).wf(),
        final(line).segs@ == old(line).segs@.push(pwd_segment(*env)),
{
    match &env.pwd {
        Option::Some(p) => {
            let shown = pwd_text(p.as_str(), &env.home);
            line.push(Color::Blue, Color::Black, shown.as_str());
        },
        Option::None => {
            line.push(Color::Blue, Color::Black, "");
            proof {
                reveal_strlit("");
                assert(""@ =~= Seq::<char>::empty());
            }
        },
    }
}

/// Adds the segments before the repository's.
#[verifier::rlimit(40)]
fn render_status(line: &mut Line, host: Option<String>, error: bool, jobs: bool, env: &Env)
    requires
        old(line).wf(),
    ensures
        final(line).wf(),
        final(line).segs@ == old(line).segs@ + status_segments(opt_chars(host), error, jobs, *env),
{
    let ghost start = line.segs@;
    let ghost host_view = opt_chars(host);
    render_flags(line, error, jobs);
    render_host(line, host);
    render_env(line, env);
    let ghost before_pwd = line.segs@;
    render_pwd(line, env);
    proof {
        assert(line.segs@ =~= before_pwd + seq![pwd_segment(*env)]);
    }
    proof {
        let f = flag_segments(error, jobs);
        let h = host_segments(host_view);
        let e = env_segments(*env);
        assert(start + f + h + e + seq![pwd_segment(*env)] =~= start + (f + h + e + seq![
            pwd_segment(*env),
        ]));
    }
}

/// The long left prompt, for the repository `repo` of the working directory.
pub fn render_inner(host: Option<String>, error: bool, jobs: bool, env: &Env, repo: Repo) -> (r:
    String)
    ensures
        r@ == line_text(prompt_segments(opt_chars(host), error, jobs, *env, repo)),
{
    let mut line = Line::new();
    render_status(&mut line, host, error, jobs, env);
    render_git(&mut line, repo);
    line.push(Color::Reset, Color::Reset, "");
    proof {
        reveal_strlit("");
        assert(""@ =~= Seq::<char>::empty());
        assert(line.segs@ =~= prompt_segments(opt_chars(host), error, jobs, *env, repo));
    }
    line.text
}

} // verus!
