//! The right prompt: the local time of day.
use vstd::prelude::*;
use vstd::string::StringExecFns;
use vstd::utf8::encode_utf8;
use chrono::Timelike;
use crate::command::{apply, compat_bytes, Right};
use crate::text::{decimal, push_decimal};

verus! {

/// Relies on chrono's conversion of `std::time::SystemTime` into
/// `DateTime<Local>` and on `chrono::Timelike`: the local hour (0 to 23),
/// minute and second (0 to 59 each).
#[verifier::external_body]
fn local_time() -> (r: (u32, u32, u32))
    ensures
        r.0 < 24,
        r.1 < 60,
        r.2 < 60,
{
    let now = chrono::DateTime::<chrono::Local>::from(std::time::SystemTime::now());
    (now.hour(), now.minute(), now.second())
}

/// `n` in two decimal digits.
pub open spec fn two_digits(n: u32) -> Seq<char> {
    if n < 10 {
        "0"@ + decimal(n as nat)
    } else {
        decimal(n as nat)
    }
}

/// The time of day as the right prompt shows it: `hh:mm:ss` in colour 23.
pub open spec fn clock_text(hour: u32, minute: u32, second: u32) -> Seq<char> {
    "\x1b[38;5;23m"@ + two_digits(hour) + ":"@ + two_digits(minute) + ":"@ + two_digits(second)
        + "\x1b[m"@
}

/// Appends `n` in two decimal digits.
fn push_two_digits(s: &mut String, n: u32)
    requires
        n < 100,
    ensures
        final(s)@ == old(s)@ + two_digits(n),
{
    if n < 10 {
        s.append("0");
    }
    push_decimal(s, n as usize);
    proof {
        assert(s@ =~= old(s)@ + two_digits(n));
    }
}

/// The right prompt at the given time of day.
pub fn render_inner(hour: u32, minute: u32, second: u32) -> (r: String)
    requires
        hour < 24,
        minute < 60,
        second < 60,
    ensures
        r@ == clock_text(hour, minute, second),
{
    let mut s = String::from_str("\x1b[38;5;23m");
    push_two_digits(&mut s, hour);
    s.append(":");
    push_two_digits(&mut s, minute);
    s.append(":");
    push_two_digits(&mut s, second);
    s.append("\x1b[m");
    proof {
        assert(s@ =~= clock_text(hour, minute, second));
    }
    s
}

/// The right prompt at the current local time, as `args` asks it printed.
pub fn render(args: Right) -> (r: Vec<u8>)
    ensures
        exists|h: u32, m: u32, s: u32|
            h < 24 && m < 60 && s < 60 && r@ == compat_bytes(
                args.compat@,
                encode_utf8(clock_text(h, m, s)),
            ),
{
    let (hour, minute, second) = local_time();
    let text = render_inner(hour, minute, second);
    let r = apply(&args.compat, text.as_str());
    proof {
        assert(r@ == compat_bytes(args.compat@, encode_utf8(clock_text(hour, minute, second))));
    }
    r
}

} // verus!
