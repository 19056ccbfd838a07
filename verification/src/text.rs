//! Decimal text for integers, used when a behavior renders a number as text.

use vstd::prelude::*;

verus! {

/// The character for one decimal digit.
pub open spec fn digit_char(d: nat) -> char {
    if d == 0 {
        '0'
    } else if d == 1 {
        '1'
    } else if d == 2 {
        '2'
    } else if d == 3 {
        '3'
    } else if d == 4 {
        '4'
    } else if d == 5 {
        '5'
    } else if d == 6 {
        '6'
    } else if d == 7 {
        '7'
    } else if d == 8 {
        '8'
    } else {
        '9'
    }
}

/// Decimal text of a natural number, most significant digit first.
pub open spec fn dec_text(n: nat) -> Seq<char>
    decreases n,
{
    if n < 10 {
        seq![digit_char(n)]
    } else {
        dec_text(n / 10).push(digit_char(n % 10))
    }
}

/// Decimal text of an integer, with a leading minus sign when negative.
pub open spec fn int_text(i: int) -> Seq<char> {
    if i < 0 {
        seq!['-'] + dec_text((-i) as nat)
    } else {
        dec_text(i as nat)
    }
}

/// The one-character string for one decimal digit.
fn digit_str(d: u64) -> (s: &'static str)
    requires
        d < 10,
    ensures
        s@ == seq![digit_char(d as nat)],
{
    let s: &'static str = if d == 0 {
        "0"
    } else if d == 1 {
        "1"
    } else if d == 2 {
        "2"
    } else if d == 3 {
        "3"
    } else if d == 4 {
        "4"
    } else if d == 5 {
        "5"
    } else if d == 6 {
        "6"
    } else if d == 7 {
        "7"
    } else if d == 8 {
        "8"
    } else {
        "9"
    };
    proof {
        reveal_strlit("0");
        reveal_strlit("1");
        reveal_strlit("2");
        reveal_strlit("3");
        reveal_strlit("4");
        reveal_strlit("5");
        reveal_strlit("6");
        reveal_strlit("7");
        reveal_strlit("8");
        reveal_strlit("9");
        assert(s@ =~= seq![digit_char(d as nat)]);
    }
    s
}

/// Renders an unsigned number in decimal.
pub fn u64_text(n: u64) -> (s: String)
    ensures
        s@ == dec_text(n as nat),
{
    if n == 0 {
        let s = String::from_str("0");
        proof {
            reveal_strlit("0");
            assert(s@ =~= dec_text(0));
        }
        return s;
    }
    let mut rest: u64 = n;
    let mut s = String::new();
    proof {
        assert(dec_text(n as nat) =~= dec_text(n as nat) + s@);
    }
    while rest > 0
        invariant
            rest > 0 ==> dec_text(n as nat) == dec_text(rest as nat) + s@,
            rest == 0 ==> dec_text(n as nat) == s@,
        decreases rest,
    {
        let ghost r0: nat = rest as nat;
        let ghost s0: Seq<char> = s@;
        let d: u64 = rest % 10;
        let mut next = String::from_str(digit_str(d));
        next.append(s.as_str());
        s = next;
        rest = rest / 10;
        proof {
            if r0 < 10 {
                assert(dec_text(r0) =~= seq![digit_char(r0 % 10)]);
                assert(dec_text(n as nat) =~= s@);
            } else {
                assert(dec_text(r0) =~= dec_text(r0 / 10) + seq![digit_char(r0 % 10)]);
                assert(dec_text(r0) + s0 =~= dec_text(r0 / 10) + (seq![digit_char(r0 % 10)] + s0));
                assert(dec_text(n as nat) =~= dec_text(rest as nat) + s@);
            }
        }
    }
    s
}

/// Renders a signed number in decimal.
pub fn i64_text(i: i64) -> (s: String)
    ensures
        s@ == int_text(i as int),
{
    if i >= 0 {
        u64_text(i as u64)
    } else {
        let mag: u64 = ((-(i + 1)) as u64) + 1;
        let mut s = String::from_str("-");
        s.append(u64_text(mag).as_str());
        proof {
            reveal_strlit("-");
            assert(s@ =~= int_text(i as int));
        }
        s
    }
}

} // verus!
