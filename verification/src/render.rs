//! Decimal rendering of numeric identifiers.

use vstd::prelude::*;

verus! {

/// The character that writes one decimal digit.
pub open spec fn digit_char(d: nat) -> char {
    if d == 0 {
        '0'
    } else if d == 1 {
        '1'
    } else if d == 2 {
        '2'
    } else if d == 3 {
        '3'
    } else if d == 4 {
        '4'
    } else if d == 5 {
        '5'
    } else if d == 6 {
        '6'
    } else if d == 7 {
        '7'
    } else if d == 8 {
        '8'
    } else {
        '9'
    }
}

/// The decimal writing of a natural number, most significant digit first,
/// with no leading zero except for the number zero itself.
pub open spec fn dec_rep(n: nat) -> Seq<char>
    decreases n,
{
    if n < 10 {
        seq![digit_char(n)]
    } else {
        dec_rep(n / 10).push(digit_char(n % 10))
    }
}

fn digit_str(d: u32) -> (s: &'static str)
    requires
        d < 10,
    ensures
        s@ == seq![digit_char(d as nat)],
{
    proof {
        reveal_strlit("0");
        reveal_strlit("1");
        reveal_strlit("2");
        reveal_strlit("3");
        reveal_strlit("4");
        reveal_strlit("5");
        reveal_strlit("6");
        reveal_strlit("7");
        reveal_strlit("8");
        reveal_strlit("9");
    }
    match d {
        0 => {
            proof {
                assert("0"@ =~= seq![digit_char(d as nat)]);
            }
            "0"
        },
        1 => {
            proof {
                assert("1"@ =~= seq![digit_char(d as nat)]);
            }
            "1"
        },
        2 => {
            proof {
                assert("2"@ =~= seq![digit_char(d as nat)]);
            }
            "2"
        },
        3 => {
            proof {
                assert("3"@ =~= seq![digit_char(d as nat)]);
            }
            "3"
        },
        4 => {
            proof {
                assert("4"@ =~= seq![digit_char(d as nat)]);
            }
            "4"
        },
        5 => {
            proof {
                assert("5"@ =~= seq![digit_char(d as nat)]);
            }
            "5"
        },
        6 => {
            proof {
                assert("6"@ =~= seq![digit_char(d as nat)]);
            }
            "6"
        },
        7 => {
            proof {
                assert("7"@ =~= seq![digit_char(d as nat)]);
            }
            "7"
        },
        8 => {
            proof {
                assert("8"@ =~= seq![digit_char(d as nat)]);
            }
            "8"
        },
        _ => {
            proof {
                assert("9"@ =~= seq![digit_char(d as nat)]);
            }
            "9"
        },
    }
}

/// Writes a number in decimal, exactly as `dec_rep` describes it.
pub fn dec_string(n: u32) -> (s: String)
    ensures
        s@ == dec_rep(n as nat),
    decreases n,
{
    if n < 10 {
        let s = digit_str(n).to_owned();
        s
    } else {
        let mut s = dec_string(n / 10);
        let last = digit_str(n % 10);
        s.append(last);
        proof {
            assert(s@ =~= dec_rep(n as nat));
        }
        s
    }
}

} // verus!
