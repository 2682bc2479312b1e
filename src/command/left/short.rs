//! The short left prompt: status glyphs, host, the working directory's
//! name and a chevron coloured by the repository's state.
use vstd::prelude::*;
use vstd::string::{StrSliceExecFns, StringExecFns};
use crate::command::Env;
use crate::command::powerline::{color_digit, digit, Color};
use crate::git::short::{Repo, Sync};
use crate::path::{parts, resolve, resolve_parts, same, same_path, split_parts};
use crate::text::opt_chars;

verus! {

/// The glyph of a directory whose direnv settings changed the environment.
pub const DIRENV: &'static str = "\u{f07c}";

/// The name shown for the working directory: `~` for the home directory,
/// else the last part once `..` is resolved, or `/` where none is left.
pub open spec fn pwd_name(p: Seq<char>, home: Option<Seq<char>>) -> Seq<char> {
    if home.is_some() && same_path(home.unwrap(), p) {
        "~"@
    } else if resolve(parts(p)).len() > 0 {
        resolve(parts(p)).last()
    } else {
        "/"@
    }
}

/// The name shown for the working directory.
pub fn pwd_string(path: &str, home: &Option<String>) -> (r: String)
    ensures
        r@ == pwd_name(path@, opt_chars(*home)),
{
    if let Option::Some(h) = home {
        if same(h.as_str(), path) {
            return String::from_str("~");
        }
    }
    let st = resolve_parts(&split_parts(path));
    if st.len() > 0 {
        let last = st[st.len() - 1].clone();
        proof {
            assert(last@ == crate::path::views(st@).last());
        }
        last
    } else {
        String::from_str("/")
    }
}

/// The closing chevron in colour `c`.
pub open spec fn chevron(c: Color) -> Seq<char> {
    "\x1b[30;4"@ + digit(c) + "m\u{e0b0}"@ + "\x1b[;3"@ + digit(c) + "m\u{e0b0}"@
}

/// The branch glyph, coloured by how the branch stands against its
/// upstream; an even branch keeps the current colour.
pub open spec fn branch_mark(sync: Sync) -> Seq<char> {
    match sync {
        Sync::UpToDate => "\u{e0a0}"@,
        Sync::Behind => "\x1b[31m\u{e0a0}"@,
        Sync::Ahead => "\x1b[33m\u{e0a0}"@,
        Sync::Diverged => "\x1b[35m\u{e0a0}"@,
        Sync::Local => "\x1b[34m\u{e0a0}"@,
    }
}

/// The end of the prompt for a repository.
pub open spec fn git_mark(repo: Repo) -> Seq<char> {
    match repo {
        Repo::Absent => chevron(Color::Blue),
        Repo::Clean(sync) => branch_mark(sync) + chevron(Color::Green),
        Repo::Dirty(sync) => branch_mark(sync) + chevron(Color::Yellow),
        Repo::Pending => "\u{f1238}"@ + chevron(Color::Cyan),
        Repo::Untracked => "\u{e0a0}"@ + chevron(Color::Cyan),
        Repo::Detached => "\u{e0a0}"@ + chevron(Color::Magenta),
        Repo::Error => chevron(Color::Red),
    }
}

/// The status glyphs: failure, jobs, Python environment, direnv.
pub open spec fn status_marks(error: bool, jobs: bool, env: Env) -> Seq<char> {
    (if error {
        "\x1b[31m\u{2718} "@
    } else {
        Seq::empty()
    }) + (if jobs {
        "\x1b[36m\u{e615} "@
    } else {
        Seq::empty()
    }) + (if env.venv.is_some() {
        "\x1b[32m\u{f0320} "@
    } else {
        Seq::empty()
    }) + (match env.direnv_active {
        Option::Some(true) => "\x1b[32m"@ + DIRENV@ + " "@,
        Option::Some(false) => "\x1b[34m"@ + DIRENV@ + " "@,
        Option::None => Seq::empty(),
    })
}

/// Whether a status glyph was shown, so that the text after it needs the
/// default colour back.
pub open spec fn marked(error: bool, jobs: bool, env: Env) -> bool {
    error || jobs || env.venv.is_some() || env.direnv_active.is_some()
}

/// The host, in the default colour where it directly follows a status
/// glyph.
pub open spec fn host_text(host: Option<Seq<char>>, recolor: bool) -> Seq<char> {
    match host {
        Option::Some(h) => (if recolor {
            "\x1b[39m"@
        } else {
            Seq::empty()
        }) + h + "\x1b[;40m "@,
        Option::None => Seq::empty(),
    }
}

/// The working directory's name, in the default colour where it directly
/// follows a status glyph.
pub open spec fn pwd_text(recolor: bool, env: Env) -> Seq<char> {
    match env.pwd {
        Option::Some(p) => (if recolor {
            "\x1b[39m"@
        } else {
            Seq::empty()
        }) + pwd_name(p@, opt_chars(env.home)) + " "@,
        Option::None => Seq::empty(),
    }
}

/// The host and the working directory, each in the default colour where
/// it directly follows a status glyph.
pub open spec fn place_text(host: Option<Seq<char>>, recolor: bool, env: Env) -> Seq<char> {
    host_text(host, recolor) + pwd_text(recolor && host.is_none(), env)
}

/// The short left prompt, for the repository `repo` of the working
/// directory.
pub open spec fn prompt_text(
    host: Option<Seq<char>>,
    error: bool,
    jobs: bool,
    env: Env,
    repo: Repo,
) -> Seq<char> {
    "\x1b[;40m "@ + status_marks(error, jobs, env) + place_text(
        host,
        marked(error, jobs, env),
        env,
    ) + (if env.pwd.is_some() {
        git_mark(repo)
    } else {
        chevron(Color::Blue)
    }) + "\x1b[m "@
}

/// Appends the closing chevron in colour `c`.
fn push_chevron(s: &mut String, c: Color)
    ensures
        final(s)@ == old(s)@ + chevron(c),
{
    s.append("\x1b[30;4");
    s.append(color_digit(c));
    s.append("m\u{e0b0}");
    s.append("\x1b[;3");
    s.append(color_digit(c));
    s.append("m\u{e0b0}");
    proof {
        assert(s@ =~= old(s)@ + chevron(c));
    }
}

/// The branch glyph for a sync.
fn branch_glyph(sync: Sync) -> (r: &'static str)
    ensures
        r@ == branch_mark(sync),
{
    match sync {
        Sync::UpToDate => "\u{e0a0}",
        Sync::Behind => "\x1b[31m\u{e0a0}",
        Sync::Ahead => "\x1b[33m\u{e0a0}",
        Sync::Diverged => "\x1b[35m\u{e0a0}",
        Sync::Local => "\x1b[34m\u{e0a0}",
    }
}

/// Appends the end of the prompt for a repository.
pub fn render_git(s: &mut String, repo: Repo)
    ensures
        final(s)@ == old(s)@ + git_mark(repo),
{
    let ghost start = s@;
    match repo {
        Repo::Absent => push_chevron(s, Color::Blue),
        Repo::Clean(sync) => {
            s.append(branch_glyph(sync));
            push_chevron(s, Color::Green);
        },
        Repo::Dirty(sync) => {
            s.append(branch_glyph(sync));
            push_chevron(s, Color::Yellow);
        },
        Repo::Pending => {
            s.append("\u{f1238}");
            push_chevron(s, Color::Cyan);
        },
        Repo::Untracked => {
            s.append("\u{e0a0}");
            push_chevron(s, Color::Cyan);
        },
        Repo::Detached => {
            s.append("\u{e0a0}");
            push_chevron(s, Color::Magenta);
        },
        Repo::Error => push_chevron(s, Color::Red),
    }
    proof {
        assert(s@ =~= start + git_mark(repo));
    }
}

/// Appends the glyph of direnv, where its state is known.
fn render_direnv(s: &mut String, active: Option<bool>)
    ensures
        final(s)@ == old(s)@ + (match active {
            Option::Some(true) => "\x1b[32m"@ + DIRENV@ + " "@,
            Option::Some(false) => "\x1b[34m"@ + DIRENV@ + " "@,
            Option::None => Seq::empty(),
        }),
{
    match active {
        Option::Some(true) => {
            s.append("\x1b[32m");
            s.append(DIRENV);
            s.append(" ");
        },
        Option::Some(false) => {
            s.append("\x1b[34m");
            s.append(DIRENV);
            s.append(" ");
        },
        Option::None => {},
    }
    proof {
        assert(s@ =~= old(s)@ + (match active {
            Option::Some(true) => "\x1b[32m"@ + DIRENV@ + " "@,
            Option::Some(false) => "\x1b[34m"@ + DIRENV@ + " "@,
            Option::None => Seq::empty(),
        }));
    }
}

/// Appends `text` where `cond` holds.
fn append_if(s: &mut String, cond: bool, text: &str)
    ensures
        final(s)@ == old(s)@ + (if cond {
            text@
        } else {
            Seq::empty()
        }),
{
    if cond {
        s.append(text);
    }
    proof {
        assert(s@ =~= old(s)@ + (if cond {
            text@
        } else {
            Seq::empty()
        }));
    }
}

/// Appends the status glyphs; returns whether any was shown.
#[verifier::rlimit(30)]
fn render_marks(s: &mut String, error: bool, jobs: bool, env: &Env) -> (r: bool)
    ensures
        final(s)@ == old(s)@ + status_marks(error, jobs, *env),
        r == marked(error, jobs, *env),
{
    let ghost start = s@;
    append_if(s, error, "\x1b[31m\u{2718} ");
    append_if(s, jobs, "\x1b[36m\u{e615} ");
    append_if(s, env.venv.is_some(), "\x1b[32m\u{f0320} ");
    render_direnv(s, env.direnv_active);
    proof {
        assert(s@ =~= start + status_marks(error, jobs, *env));
    }
    error || jobs || env.venv.is_some() || env.direnv_active.is_some()
}

/// Appends the host.
fn render_host(s: &mut String, host: Option<String>, recolor: bool)
    ensures
        final(s)@ == old(s)@ + host_text(opt_chars(host), recolor),
{
    let ghost host_view = opt_chars(host);
    if let Option::Some(h) = host {
        if recolor {
            s.append("\x1b[39m");
        }
        s.append(h.as_str());
        s.append("\x1b[;40m ");
    }
    proof {
        assert(s@ =~= old(s)@ + host_text(host_view, recolor));
    }
}

/// Appends the working directory's name.
fn render_pwd(s: &mut String, recolor: bool, env: &Env)
    ensures
        final(s)@ == old(s)@ + pwd_text(recolor, *env),
{
    if let Option::Some(p) = &env.pwd {
        if recolor {
            s.append("\x1b[39m");
        }
        let name = pwd_string(p.as_str(), &env.home);
        s.append(name.as_str());
        s.append(" ");
    }
    proof {
        assert(s@ =~= old(s)@ + pwd_text(recolor, *env));
    }
}

/// The short left prompt, for the repository `repo` of the working directory.
pub fn render_inner(host: Option<String>, error: bool, jobs: bool, env: &Env, repo: Repo) -> (r:
    String)
    ensures
        r@ == prompt_text(opt_chars(host), error, jobs, *env, repo),
{
    let ghost host_view = opt_chars(host);
    let mut s = String::from_str("\x1b[;40m ");
    let recolor = render_marks(&mut s, error, jobs, env);
    let ghost marks = s@;
    let has_host = host.is_some();
    render_host(&mut s, host, recolor);
    render_pwd(&mut s, recolor && !has_host, env);
    proof {
        assert(s@ =~= marks + place_text(host_view, recolor, *env));
    }
    let ghost placed = s@;
    if env.pwd.is_some() {
        render_git(&mut s, repo);
    } else {
        push_chevron(&mut s, Color::Blue);
    }
    s.append("\x1b[m ");
    proof {
        assert(s@ =~= prompt_text(host_view, error, jobs, *env, repo));
    }
    s
}

} // verus!
