//! Decimal rendering of unsigned amounts, as token amounts are written in
//! Cosmos SDK messages.

use vstd::prelude::*;
use vstd::string::StringExecFns;

verus! {

/// The ASCII character of a decimal digit.
pub open spec fn digit_char(d: nat) -> char
    recommends
        d < 10,
{
    (d + 48) as char
}

/// The shortest decimal representation of `n`, most significant digit first.
pub open spec fn decimal(n: nat) -> Seq<char>
    decreases n,
{
    if n < 10 {
        seq![digit_char(n)]
    } else {
        decimal(n / 10).push(digit_char(n % 10))
    }
}

/// The string literal of one decimal digit.
fn digit_str(d: u128) -> (s: &'static str)
    requires
        d < 10,
    ensures
        s@ == seq![digit_char(d as nat)],
{
    if d == 0 {
        proof { reveal_strlit("0"); }
        "0"
    } else if d == 1 {
        proof { reveal_strlit("1"); }
        "1"
    } else if d == 2 {
        proof { reveal_strlit("2"); }
        "2"
    } else if d == 3 {
        proof { reveal_strlit("3"); }
        "3"
    } else if d == 4 {
        proof { reveal_strlit("4"); }
        "4"
    } else if d == 5 {
        proof { reveal_strlit("5"); }
        "5"
    } else if d == 6 {
        proof { reveal_strlit("6"); }
        "6"
    } else if d == 7 {
        proof { reveal_strlit("7"); }
        "7"
    } else if d == 8 {
        proof { reveal_strlit("8"); }
        "8"
    } else {
        proof { reveal_strlit("9"); }
        "9"
    }
}

/// Renders `n` in decimal, without sign, padding or separators.
pub fn u128_to_decimal(n: u128) -> (s: String)
    ensures
        s@ == decimal(n as nat),
{
    let mut m: u128 = n;
    let mut acc = String::new();
    loop
        invariant_except_break
            decimal(n as nat) == decimal(m as nat) + acc@,
        ensures
            decimal(n as nat) == acc@,
        decreases m,
    {
        let d: u128 = m % 10;
        let digit = String::from_str(digit_str(d));
        let ghost old_acc = acc@;
        acc = digit.concat(acc.as_str());
        if m < 10 {
            assert(decimal(m as nat) == seq![digit_char(d as nat)]);
            assert(decimal(n as nat) =~= acc@);
            break;
        }
        assert(decimal(m as nat) == decimal((m / 10) as nat).push(digit_char(d as nat)));
        assert(decimal(m as nat) + old_acc =~= decimal((m / 10) as nat) + acc@);
        m = m / 10;
    }
    acc
}

} // verus!
