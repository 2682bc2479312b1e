//! The help text.
use vstd::prelude::*;
use vstd::string::StringExecFns;
use crate::command::Help;
use crate::path::{parts, split_parts};

verus! {

/// The name the help text uses where the program's own is unknown.
pub const DEFAULT_BIN: &'static str = "simpalt";

/// What follows the program's name in the help text.
pub const USAGE_REST: &'static str = " <COMMAND>

Commands:
  c       Compatibility layer
  r       Generate right side prompt
  l       Generate left side prompt
  t       Generate tmux right side status
  v       Print the current version
  h       Show this help message

Arguments for `r` command:
  -z      Print escape codes compatible with zsh
  -w<SUB> Replace black background with SUB

Arguments for `l` command:
  HOST    Symbol to be used as host (can be escaped)
  -e      Last command was an error
  -j      There are background processes running
  -l      Use the long format
  -z      Print escape codes compatible with zsh
  -w<SUB> Replace black background with SUB

Arguments for `t` command:
  PWD     Working directory for command
";

/// The last part of a path, unless the path ends in `..` or has none.
pub open spec fn file_name(p: Seq<char>) -> Option<Seq<char>> {
    if parts(p).len() > 0 && parts(p).last() != seq!['.', '.'] {
        Option::Some(parts(p).last())
    } else {
        Option::None
    }
}

/// The name the help text shows for the program run as `bin`.
pub open spec fn bin_name(bin: Option<Seq<char>>) -> Seq<char> {
    match bin {
        Option::Some(b) => match file_name(b) {
            Option::Some(n) => n,
            Option::None => DEFAULT_BIN@,
        },
        Option::None => DEFAULT_BIN@,
    }
}

/// The name the help text shows for the program run as `bin`.
fn program_name(bin: &Option<String>) -> (r: String)
    ensures
        r@ == bin_name(crate::text::opt_chars(*bin)),
{
    if let Option::Some(b) = bin {
        let ps = split_parts(b.as_str());
        if ps.len() > 0 {
            let last = ps[ps.len() - 1].clone();
            let dots = String::from_str("..");
            proof {
                reveal_strlit("..");
                assert(".."@ =~= seq!['.', '.']);
                assert(last@ == crate::path::views(ps@).last());
            }
            if !last.eq(&dots) {
                return last;
            }
        }
    }
    String::from_str(DEFAULT_BIN)
}

/// The help text, naming the program as it was run.
pub fn render(args: Help) -> (r: String)
    ensures
        r@ == "Usage: "@ + bin_name(crate::text::opt_chars(args.bin)) + USAGE_REST@,
{
    String::from_str("Usage: ").concat(program_name(&args.bin).as_str()).concat(USAGE_REST)
}

} // verus!
