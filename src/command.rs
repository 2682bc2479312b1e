pub mod help;
pub mod left;
pub mod powerline;
pub mod right;
pub mod tmux;
pub mod version;

use vstd::prelude::*;
use vstd::slice::slice_to_vec;
use vstd::string::StringSliceAdditionalSpecFns;
use vstd::utf8::encode_utf8;
use crate::compat::{win, zsh, Win, Zsh};

verus! {

/// Which shell the escape codes of the output are adapted to.
#[derive(Clone, Debug, PartialEq, Eq)]
pub enum Compat {
    /// Raw escape codes.
    Plain,
    /// Escape codes wrapped in zsh's `%{ %}` groups.
    Zsh,
    /// The black background replaced with the given text.
    Win(String),
}

/// The mathematical value of a `Compat`.
pub enum CompatView {
    Plain,
    Zsh,
    Win(Seq<char>),
}

impl View for Compat {
    type V = CompatView;

    open spec fn view(&self) -> CompatView {
        match self {
            Compat::Plain => CompatView::Plain,
            Compat::Zsh => CompatView::Zsh,
            Compat::Win(s) => CompatView::Win(s@),
        }
    }
}

/// Arguments of the right prompt.
#[derive(Clone, Debug, PartialEq, Eq)]
pub struct Right {
    pub compat: Compat,
}

/// Arguments of the left prompt.
#[derive(Clone, Debug, PartialEq, Eq)]
pub struct Left {
    pub host: Option<String>,
    pub error: bool,
    pub jobs: bool,
    pub long: bool,
    pub compat: Compat,
}

/// Arguments of the tmux status.
#[derive(Clone, Debug, PartialEq, Eq)]
pub struct Tmux {
    pub pwd: String,
}

/// Arguments of the help text: the name the program was run as.
#[derive(Clone, Debug, PartialEq, Eq)]
pub struct Help {
    pub bin: Option<String>,
}

/// What the prompts read from the environment.
#[derive(Clone, Debug, PartialEq, Eq)]
pub struct Env {
    /// The working directory.
    pub pwd: Option<String>,
    /// The home directory.
    pub home: Option<String>,
    /// The active Python virtual environment.
    pub venv: Option<String>,
    /// The directory whose direnv settings are loaded.
    pub direnv_dir: Option<String>,
    /// Whether direnv has changed the environment, where that is known.
    pub direnv_active: Option<bool>,
}

/// What the program was asked to do.
#[derive(Clone, Debug, PartialEq, Eq)]
pub enum Command {
    Right(Right),
    Left(Left),
    Tmux(Tmux),
    Version,
    Help(Help),
}

/// The bytes that reach the terminal for `bytes` written through the
/// transcoder that `c` asks for, once the stream is closed.
pub open spec fn compat_bytes(c: CompatView, bytes: Seq<u8>) -> Seq<u8> {
    match c {
        CompatView::Plain => bytes,
        CompatView::Zsh => zsh::scan(zsh::Escape::Normal, bytes).1 + zsh::finalize(
            zsh::scan(zsh::Escape::Normal, bytes).0,
        ),
        CompatView::Win(sub) => win::scan(win::State::Normal, bytes, encode_utf8(sub)).1,
    }
}

/// Writes `text` through the transcoder that `compat` asks for and closes
/// the stream.
pub fn apply(compat: &Compat, text: &str) -> (r: Vec<u8>)
    ensures
        r@ == compat_bytes(compat@, text.spec_bytes()),
{
    match compat {
        Compat::Plain => slice_to_vec(text.as_bytes()),
        Compat::Zsh => {
            let mut out = Zsh::new(Vec::new());
            out.write_all(text.as_bytes());
            let r = out.finish();
            proof {
                assert(r@ =~= compat_bytes(compat@, text.spec_bytes()));
            }
            r
        },
        Compat::Win(sub) => {
            let mut out = Win::new(Vec::new(), sub.as_str());
            out.write_all(text.as_bytes());
            let r = out.finish();
            proof {
                assert(r@ =~= compat_bytes(compat@, text.spec_bytes()));
            }
            r
        },
    }
}

impl Command {
    /// Runs the command in environment `env`; returns what it prints.
    pub fn run(self, env: &Env) -> (r: Vec<u8>)
        ensures
            self matches Command::Version ==> r@ == encode_utf8(version::version_text()),
            self matches Command::Left(a) ==> exists|
                lr: crate::git::long::Repo,
                sr: crate::git::short::Repo,
            |
                r@ == compat_bytes(
                    a.compat@,
                    encode_utf8(#[trigger] left::prompt_text(a, *env, lr, sr)),
                ),
            self matches Command::Tmux(_) ==> exists|repo: crate::git::long::Repo|
                r@ == encode_utf8(#[trigger] tmux::git_text(repo)),
            self matches Command::Right(a) ==> exists|h: u32, m: u32, s: u32|
                h < 24 && m < 60 && s < 60 && r@ == compat_bytes(
                    a.compat@,
                    encode_utf8(#[trigger] right::clock_text(h, m, s)),
                ),
            self matches Command::Help(h) ==> r@ == encode_utf8(
                "Usage: "@ + help::bin_name(crate::text::opt_chars(h.bin)) + help::USAGE_REST@,
            ),
    {
        match self {
            Command::Right(args) => right::render(args),
            Command::Left(args) => left::render(args, env),
            Command::Tmux(args) => slice_to_vec(tmux::render(args).as_str().as_bytes()),
            Command::Version => slice_to_vec(version::render().as_str().as_bytes()),
            Command::Help(args) => slice_to_vec(help::render(args).as_str().as_bytes()),
        }
    }
}

} // verus!
