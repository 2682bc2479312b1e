//! Text building blocks: hexadecimal and decimal renderings.
use vstd::prelude::*;
use vstd::string::{StrSliceExecFns, StringExecFns};

verus! {

/// The characters of an optional string.
pub open spec fn opt_chars(o: Option<String>) -> Option<Seq<char>> {
    match o {
        Option::Some(s) => Option::Some(s@),
        Option::None => Option::None,
    }
}

/// The bytes of an optional byte vector.
pub open spec fn opt_bytes(o: Option<Vec<u8>>) -> Option<Seq<u8>> {
    match o {
        Option::Some(v) => Option::Some(v@),
        Option::None => Option::None,
    }
}

/// Whether `a` holds exactly the characters of `b`.
pub fn same_text(a: &String, b: &str) -> (r: bool)
    ensures
        r == (a@ == b@),
{
    let b = String::from_str(b);
    a.eq(&b)
}

/// The lower-case hexadecimal digits, in order.
pub open spec fn hex_digits() -> Seq<char> {
    seq!['0', '1', '2', '3', '4', '5', '6', '7', '8', '9', 'a', 'b', 'c', 'd', 'e', 'f']
}

/// Two lower-case hexadecimal digits for each byte, high nibble first.
pub open spec fn hex_of(bytes: Seq<u8>) -> Seq<char>
    decreases bytes.len(),
{
    if bytes.len() == 0 {
        Seq::empty()
    } else {
        let b = bytes.last();
        hex_of(bytes.drop_last()) + seq![hex_digits()[(b / 16) as int], hex_digits()[(b % 16) as int]]
    }
}

/// The decimal digits, in order.
pub open spec fn decimal_digits() -> Seq<char> {
    seq!['0', '1', '2', '3', '4', '5', '6', '7', '8', '9']
}

/// `n` written in decimal, without leading zeros.
pub open spec fn decimal(n: nat) -> Seq<char>
    decreases n,
{
    if n < 10 {
        seq![decimal_digits()[n as int]]
    } else {
        decimal(n / 10).push(decimal_digits()[(n % 10) as int])
    }
}

/// Appends the two hexadecimal digits of `b`.
pub fn push_hex(s: &mut String, b: u8)
    ensures
        final(s)@ == old(s)@ + seq![hex_digits()[(b / 16) as int], hex_digits()[(b % 16) as int]],
{
    let digits = "0123456789abcdef";
    proof {
        reveal_strlit("0123456789abcdef");
        assert(digits@ =~= hex_digits());
    }
    let high = (b / 16) as usize;
    let low = (b % 16) as usize;
    s.append(digits.substring_char(high, high + 1));
    s.append(digits.substring_char(low, low + 1));
    proof {
        assert(s@ =~= old(s)@ + seq![hex_digits()[(b / 16) as int], hex_digits()[(b % 16) as int]]);
    }
}

/// Appends `n` in decimal.
pub fn push_decimal(s: &mut String, n: usize)
    ensures
        final(s)@ == old(s)@ + decimal(n as nat),
    decreases n,
{
    let digits = "0123456789";
    proof {
        reveal_strlit("0123456789");
        assert(digits@ =~= decimal_digits());
    }
    if n >= 10 {
        push_decimal(s, n / 10);
    }
    let d = n % 10;
    s.append(digits.substring_char(d, d + 1));
    proof {
        assert(s@ =~= old(s)@ + decimal(n as nat));
    }
}

/// `n` in decimal, as a new string.
pub fn decimal_string(n: usize) -> (r: String)
    ensures
        r@ == decimal(n as nat),
{
    let mut s = String::new();
    push_decimal(&mut s, n);
    proof {
        assert(s@ =~= decimal(n as nat));
    }
    s
}

} // verus!
