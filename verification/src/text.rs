//! Decimal rendering of the small numbers that the task tool displays:
//! identifiers and zero-padded calendar fields.

use vstd::prelude::*;

verus! {

/// The decimal digit character for `d` (meaningful for `d < 10`).
pub open spec fn digit_char(d: nat) -> char {
    if d == 0 {
        '0'
    } else if d == 1 {
        '1'
    } else if d == 2 {
        '2'
    } else if d == 3 {
        '3'
    } else if d == 4 {
        '4'
    } else if d == 5 {
        '5'
    } else if d == 6 {
        '6'
    } else if d == 7 {
        '7'
    } else if d == 8 {
        '8'
    } else {
        '9'
    }
}

/// The usual decimal representation of `n`, without leading zeros
/// (a single `'0'` for zero).
pub open spec fn dec_rep(n: nat) -> Seq<char>
    decreases n,
{
    if n < 10 {
        seq![digit_char(n)]
    } else {
        dec_rep(n / 10).push(digit_char(n % 10))
    }
}

/// `n` rendered as exactly two digits, zero-padded (meaningful for `n <= 99`).
pub open spec fn two_digits(n: nat) -> Seq<char> {
    seq![digit_char(n / 10 % 10), digit_char(n % 10)]
}

/// `n` rendered as exactly four digits, zero-padded (meaningful for `n <= 9999`).
pub open spec fn four_digits(n: nat) -> Seq<char> {
    seq![
        digit_char(n / 1000 % 10),
        digit_char(n / 100 % 10),
        digit_char(n / 10 % 10),
        digit_char(n % 10),
    ]
}

fn digit_str(d: u8) -> (r: &'static str)
    requires
        d < 10,
    ensures
        r@ == seq![digit_char(d as nat)],
{
    match d {
        0 => {
            proof {
                reveal_strlit("0");
                assert("0"@ =~= seq![digit_char(0)]);
            }
            "0"
        },
        1 => {
            proof {
                reveal_strlit("1");
                assert("1"@ =~= seq![digit_char(1)]);
            }
            "1"
        },
        2 => {
            proof {
                reveal_strlit("2");
                assert("2"@ =~= seq![digit_char(2)]);
            }
            "2"
        },
        3 => {
            proof {
                reveal_strlit("3");
                assert("3"@ =~= seq![digit_char(3)]);
            }
            "3"
        },
        4 => {
            proof {
                reveal_strlit("4");
                assert("4"@ =~= seq![digit_char(4)]);
            }
            "4"
        },
        5 => {
            proof {
                reveal_strlit("5");
                assert("5"@ =~= seq![digit_char(5)]);
            }
            "5"
        },
        6 => {
            proof {
                reveal_strlit("6");
                assert("6"@ =~= seq![digit_char(6)]);
            }
            "6"
        },
        7 => {
            proof {
                reveal_strlit("7");
                assert("7"@ =~= seq![digit_char(7)]);
            }
            "7"
        },
        8 => {
            proof {
                reveal_strlit("8");
                assert("8"@ =~= seq![digit_char(8)]);
            }
            "8"
        },
        _ => {
            proof {
                reveal_strlit("9");
                assert("9"@ =~= seq![digit_char(9)]);
            }
            "9"
        },
    }
}

/// Renders `n` in decimal, without leading zeros.
pub fn u32_text(n: u32) -> (r: String)
    ensures
        r@ == dec_rep(n as nat),
    decreases n,
{
    if n < 10 {
        let r = String::from_str(digit_str(n as u8));
        proof {
            assert(r@ =~= dec_rep(n as nat));
        }
        r
    } else {
        let mut s = u32_text(n / 10);
        s.append(digit_str((n % 10) as u8));
        proof {
            assert(s@ =~= dec_rep(n as nat));
        }
        s
    }
}

/// Renders the last two decimal digits of `n`, zero-padded.
pub fn two_digit_text(n: u8) -> (r: String)
    ensures
        r@ == two_digits(n as nat),
{
    let mut s = String::from_str(digit_str(n / 10 % 10));
    s.append(digit_str(n % 10));
    proof {
        assert(s@ =~= two_digits(n as nat));
    }
    s
}

/// Renders the last four decimal digits of `n`, zero-padded.
pub fn four_digit_text(n: u16) -> (r: String)
    ensures
        r@ == four_digits(n as nat),
{
    let mut s = String::from_str(digit_str((n / 1000 % 10) as u8));
    s.append(digit_str((n / 100 % 10) as u8));
    s.append(digit_str((n / 10 % 10) as u8));
    s.append(digit_str((n % 10) as u8));
    proof {
        assert(s@ =~= four_digits(n as nat));
    }
    s
}

} // verus!
