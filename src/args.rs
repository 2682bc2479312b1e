//! Reading the command line.
use vstd::prelude::*;
use vstd::slice::slice_subrange;
use vstd::string::{StrSliceExecFns, StringExecFns};
use crate::command::{Command, Compat, CompatView, Help, Left, Right, Tmux};
use crate::text::{opt_chars, same_text};

verus! {

/// Whether `a` is the two-character flag `-c`.
pub open spec fn is_flag(a: Seq<char>, c: char) -> bool {
    a == seq!['-', c]
}

/// The compatibility an argument asks for: `-z` asks for zsh, `-w` followed
/// by at least one character for Windows with those characters.
pub open spec fn compat_arg_of(a: Seq<char>) -> Option<CompatView> {
    if is_flag(a, 'z') {
        Option::Some(CompatView::Zsh)
    } else if a.len() > 2 && a[0] == '-' && a[1] == 'w' {
        Option::Some(CompatView::Win(a.skip(2)))
    } else {
        Option::None
    }
}

/// The compatibility that the last argument asking for one asks for.
pub open spec fn compat_of(args: Seq<String>) -> CompatView
    decreases args.len(),
{
    if args.len() == 0 {
        CompatView::Plain
    } else {
        match compat_arg_of(args.last()@) {
            Option::Some(c) => c,
            Option::None => compat_of(args.drop_last()),
        }
    }
}

/// Whether some argument is the flag `-c`.
pub open spec fn has_flag(args: Seq<String>, c: char) -> bool
    decreases args.len(),
{
    args.len() > 0 && (is_flag(args.last()@, c) || has_flag(args.drop_last(), c))
}

/// Whether an argument of the left prompt names the host: it is not empty,
/// not one of its flags, and asks for no compatibility.
pub open spec fn is_host_arg(a: Seq<char>) -> bool {
    a.len() > 0 && !is_flag(a, 'e') && !is_flag(a, 'j') && !is_flag(a, 'l') && compat_arg_of(
        a,
    ).is_none()
}

/// The last argument that names the host.
pub open spec fn host_of(args: Seq<String>) -> Option<Seq<char>>
    decreases args.len(),
{
    if args.len() == 0 {
        Option::None
    } else if is_host_arg(args.last()@) {
        Option::Some(args.last()@)
    } else {
        host_of(args.drop_last())
    }
}

/// The compatibility one argument asks for.
fn compat_arg(a: &String) -> (r: Option<Compat>)
    ensures
        r.is_some() == compat_arg_of(a@).is_some(),
        r.is_some() ==> r.unwrap()@ == compat_arg_of(a@).unwrap(),
{
    proof {
        reveal_strlit("-z");
        assert("-z"@ =~= seq!['-', 'z']);
    }
    if same_text(a, "-z") {
        return Option::Some(Compat::Zsh);
    }
    let s = a.as_str();
    let n = s.unicode_len();
    if n > 2 && s.get_char(0) == '-' && s.get_char(1) == 'w' {
        let sub = s.substring_char(2, n);
        proof {
            assert(sub@ =~= a@.skip(2));
        }
        Option::Some(Compat::Win(String::from_str(sub)))
    } else {
        Option::None
    }
}

/// Whether `a` is the flag `-c`.
fn flag(a: &String, c: char) -> (r: bool)
    ensures
        r == is_flag(a@, c),
{
    let s = a.as_str();
    s.unicode_len() == 2 && s.get_char(0) == '-' && s.get_char(1) == c && {
        proof {
            assert(a@ =~= seq!['-', c]);
        }
        true
    }
}

/// Reads the arguments of the right prompt; the last that asks for a
/// compatibility wins.
pub fn parse_right(args: &[String]) -> (r: Right)
    ensures
        r.compat@ == compat_of(args@),
{
    let mut compat = Compat::Plain;
    let mut i: usize = 0;
    while i < args.len()
        invariant
            i <= args@.len(),
            compat@ == compat_of(args@.take(i as int)),
        decreases args@.len() - i,
    {
        proof {
            assert(args@.take(i + 1).drop_last() =~= args@.take(i as int));
        }
        if let Option::Some(c) = compat_arg(&args[i]) {
            compat = c;
        }
        i = i + 1;
    }
    proof {
        assert(args@.take(i as int) =~= args@);
    }
    Right { compat }
}

/// Reads the arguments of the left prompt: `-e`, `-j` and `-l` set their
/// flags, `-z` and `-w<SUB>` the compatibility, any other non-empty
/// argument the host; for compatibility and host the last wins.
pub fn parse_left(args: &[String]) -> (r: Left)
    ensures
        r.error == has_flag(args@, 'e'),
        r.jobs == has_flag(args@, 'j'),
        r.long == has_flag(args@, 'l'),
        r.compat@ == compat_of(args@),
        opt_chars(r.host) == host_of(args@),
{
    let mut left = Left {
        host: Option::None,
        error: false,
        jobs: false,
        long: false,
        compat: Compat::Plain,
    };
    let mut i: usize = 0;
    while i < args.len()
        invariant
            i <= args@.len(),
            left.error == has_flag(args@.take(i as int), 'e'),
            left.jobs == has_flag(args@.take(i as int), 'j'),
            left.long == has_flag(args@.take(i as int), 'l'),
            left.compat@ == compat_of(args@.take(i as int)),
            opt_chars(left.host) == host_of(args@.take(i as int)),
        decreases args@.len() - i,
    {
        proof {
            assert(args@.take(i + 1).drop_last() =~= args@.take(i as int));
        }
        let a = &args[i];
        if flag(a, 'e') {
            left.error = true;
        } else if flag(a, 'j') {
            left.jobs = true;
        } else if flag(a, 'l') {
            left.long = true;
        } else if let Option::Some(c) = compat_arg(a) {
            proof {
                assert(!is_flag(a@, 'e') && !is_flag(a@, 'j') && !is_flag(a@, 'l'));
            }
            left.compat = c;
        } else if a.as_str().is_empty() {
        } else {
            left.host = Option::Some(a.clone());
        }
        i = i + 1;
    }
    proof {
        assert(args@.take(i as int) =~= args@);
    }
    left
}

/// The arguments after the first `k`.
fn rest(args: &[String], k: usize) -> (r: &[String])
    requires
        k <= args@.len(),
    ensures
        r@ == args@.skip(k as int),
{
    slice_subrange(args, k, args.len())
}

/// Reads the whole command line, the program's name first: `r` and `l`
/// read the prompts' arguments, `t` takes the directory that follows, `v`
/// asks for the version; anything else, or `t` alone, asks for help.
pub fn parse(args: &[String]) -> (r: Command)
    ensures
        args@.len() >= 2 && args@[1]@ == seq!['r'] ==> (r matches Command::Right(right)
            && right.compat@ == compat_of(args@.skip(2))),
        args@.len() >= 2 && args@[1]@ == seq!['l'] ==> (r matches Command::Left(left)
            && left.error == has_flag(args@.skip(2), 'e') && left.jobs == has_flag(
            args@.skip(2),
            'j',
        ) && left.long == has_flag(args@.skip(2), 'l') && left.compat@ == compat_of(args@.skip(2))
            && opt_chars(left.host) == host_of(args@.skip(2))),
        args@.len() >= 3 && args@[1]@ == seq!['t'] ==> (r matches Command::Tmux(tmux)
            && tmux.pwd@ == args@[2]@),
        args@.len() >= 2 && args@[1]@ == seq!['v'] ==> r == Command::Version,
        !(args@.len() >= 2 && (args@[1]@ == seq!['r'] || args@[1]@ == seq!['l'] || args@[1]@
            == seq!['v'] || (args@.len() >= 3 && args@[1]@ == seq!['t']))) ==> (r matches Command::Help(
            help,
        ) && opt_chars(help.bin) == (if args@.len() > 0 {
            Option::Some(args@[0]@)
        } else {
            Option::None
        })),
{
    proof {
        reveal_strlit("r");
        reveal_strlit("l");
        reveal_strlit("t");
        reveal_strlit("v");
        assert("r"@ =~= seq!['r']);
        assert("l"@ =~= seq!['l']);
        assert("t"@ =~= seq!['t']);
        assert("v"@ =~= seq!['v']);
        assert(seq!['l'][0] != seq!['r'][0]);
        assert(seq!['t'][0] != seq!['r'][0] && seq!['t'][0] != seq!['l'][0]);
        assert(seq!['v'][0] != seq!['r'][0] && seq!['v'][0] != seq!['l'][0] && seq!['v'][0]
            != seq!['t'][0]);
    }
    let bin = if args.len() > 0 {
        Option::Some(args[0].clone())
    } else {
        Option::None
    };
    if args.len() < 2 {
        return Command::Help(Help { bin });
    }
    let command = &args[1];
    if same_text(command, "r") {
        Command::Right(parse_right(rest(args, 2)))
    } else if same_text(command, "l") {
        Command::Left(parse_left(rest(args, 2)))
    } else if same_text(command, "t") {
        if args.len() >= 3 {
            Command::Tmux(Tmux { pwd: args[2].clone() })
        } else {
            Command::Help(Help { bin })
        }
    } else if same_text(command, "v") {
        Command::Version
    } else {
        Command::Help(Help { bin })
    }
}

} // verus!
