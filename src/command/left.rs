pub mod long;
pub mod short;

use vstd::prelude::*;
use vstd::string::StringSliceAdditionalSpecFns;
use crate::command::{apply, compat_bytes, Env, Left};
use crate::git;
use crate::text::opt_chars;

verus! {

/// The long or the short left prompt, with the repository of the working
/// directory already classified.
pub fn render_inner(
    long: bool,
    host: Option<String>,
    error: bool,
    jobs: bool,
    env: &Env,
    long_repo: git::long::Repo,
    short_repo: git::short::Repo,
) -> (r: String)
    ensures
        long ==> r@ == crate::command::powerline::line_text(
            long::prompt_segments(opt_chars(host), error, jobs, *env, long_repo),
        ),
        !long ==> r@ == short::prompt_text(opt_chars(host), error, jobs, *env, short_repo),
{
    if long {
        long::render_inner(host, error, jobs, env, long_repo)
    } else {
        short::render_inner(host, error, jobs, env, short_repo)
    }
}

/// The text of the left prompt that `args` asks for, for the repository
/// of the working directory as the long (`long_repo`) or the short
/// (`short_repo`) classification found it.
pub open spec fn prompt_text(
    args: Left,
    env: Env,
    long_repo: git::long::Repo,
    short_repo: git::short::Repo,
) -> Seq<char> {
    if args.long {
        crate::command::powerline::line_text(
            long::prompt_segments(opt_chars(args.host), args.error, args.jobs, env, long_repo),
        )
    } else {
        short::prompt_text(opt_chars(args.host), args.error, args.jobs, env, short_repo)
    }
}

/// The left prompt for the environment `env`, as `args` asks it printed:
/// its text written through the transcoder that `args.compat` asks for.
/// The repository of the working directory, if any, is classified first;
/// without a working directory there is none.
pub fn render(args: Left, env: &Env) -> (r: Vec<u8>)
    ensures
        exists|long_repo: git::long::Repo, short_repo: git::short::Repo|
            (env.pwd.is_none() ==> long_repo == git::long::Repo::Absent && short_repo
                == git::short::Repo::Absent) && r@ == compat_bytes(
                args.compat@,
                vstd::utf8::encode_utf8(#[trigger] prompt_text(args, *env, long_repo, short_repo)),
            ),
{
    let ghost whole = args;
    let (long_repo, short_repo) = match &env.pwd {
        Option::Some(p) => if args.long {
            (git::long::parse(p.as_str()), git::short::Repo::Absent)
        } else {
            (git::long::Repo::Absent, git::short::parse(p.as_str()))
        },
        Option::None => (git::long::Repo::Absent, git::short::Repo::Absent),
    };
    let ghost lr = long_repo;
    let ghost sr = short_repo;
    let text = render_inner(args.long, args.host, args.error, args.jobs, env, long_repo, short_repo);
    let r = apply(&args.compat, text.as_str());
    proof {
        assert(text@ == prompt_text(whole, *env, lr, sr));
    }
    r
}

} // verus!
