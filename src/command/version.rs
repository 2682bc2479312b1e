use vstd::prelude::*;
use vstd::string::StringExecFns;

verus! {

/// The version of this program.
pub const VERSION: &'static str = "0.1.0";

/// What the version command prints.
pub open spec fn version_text() -> Seq<char> {
    VERSION@ + "\n"@
}

/// The version, on a line of its own.
pub fn render() -> (r: String)
    ensures
        r@ == version_text(),
{
    String::from_str(VERSION).concat("\n")
}

} // verus!
