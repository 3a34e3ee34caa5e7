//! Mapping the session outcome to the fixed-format status line and the
//! process exit code.
//!
//! The line holds five fields: the online flag, the connection count, and
//! three zeros that keep the format stable for its consumers. The exit
//! code is 0 exactly for a positive verdict.

use vstd::prelude::*;

use crate::errors::ProbeError;
use crate::session::Verdict;

verus! {

/// The decimal digits of `n`, most significant first, without leading
/// zeros (`0` itself is the single digit `0`).
pub open spec fn dec_digits(n: nat) -> Seq<char>
    decreases n,
{
    if n < 10 {
        seq![digit_char(n)]
    } else {
        dec_digits(n / 10).push(digit_char(n % 10))
    }
}

/// The character of one decimal digit.
pub open spec fn digit_char(d: nat) -> char {
    seq!['0', '1', '2', '3', '4', '5', '6', '7', '8', '9'][d as int]
}

/// The status line of an outcome.
pub open spec fn status_line_spec(outcome: Result<Verdict, ProbeError>) -> Seq<char> {
    match outcome {
        Ok(v) => (if v.online {
            "1"@
        } else {
            "0"@
        }) + " "@ + dec_digits(v.connection_count as nat) + " 0 0 0"@,
        Err(_) => "0 0 0 0 0"@,
    }
}

/// The exit code of an outcome: 0 exactly when online.
pub open spec fn exit_code_spec(outcome: Result<Verdict, ProbeError>) -> i32 {
    if outcome matches Ok(v) && v.online {
        0
    } else {
        1
    }
}

/// One decimal digit as a string slice.
fn digit_str(d: u32) -> (r: &'static str)
    requires
        d < 10,
    ensures
        r@ == seq![digit_char(d as nat)],
{
    let r: &'static str = match d {
        0 => "0",
        1 => "1",
        2 => "2",
        3 => "3",
        4 => "4",
        5 => "5",
        6 => "6",
        7 => "7",
        8 => "8",
        _ => "9",
    };
    proof {
        reveal_strlit("0");
        reveal_strlit("1");
        reveal_strlit("2");
        reveal_strlit("3");
        reveal_strlit("4");
        reveal_strlit("5");
        reveal_strlit("6");
        reveal_strlit("7");
        reveal_strlit("8");
        reveal_strlit("9");
        assert(r@ =~= seq![digit_char(d as nat)]);
    }
    r
}

/// Writes `n` in decimal.
pub fn u32_to_string(n: u32) -> (s: String)
    ensures
        s@ == dec_digits(n as nat),
    decreases n,
{
    if n < 10 {
        String::from_str(digit_str(n))
    } else {
        let mut s = u32_to_string(n / 10);
        s.append(digit_str(n % 10));
        proof {
            assert(dec_digits((n / 10) as nat) + seq![digit_char((n % 10) as nat)] =~= dec_digits(
                n as nat,
            ));
        }
        s
    }
}

/// Renders the status line of an outcome.
pub fn status_line(outcome: &Result<Verdict, ProbeError>) -> (s: String)
    ensures
        s@ == status_line_spec(*outcome),
{
    match outcome {
        Ok(v) => {
            let mut s = if v.online {
                String::from_str("1")
            } else {
                String::from_str("0")
            };
            s.append(" ");
            let count = u32_to_string(v.connection_count);
            s.append(count.as_str());
            s.append(" 0 0 0");
            s
        },
        Err(_) => String::from_str("0 0 0 0 0"),
    }
}

/// The exit code of an outcome.
pub fn exit_code(outcome: &Result<Verdict, ProbeError>) -> (c: i32)
    ensures
        c == exit_code_spec(*outcome),
{
    match outcome {
        Ok(v) => if v.online {
            0
        } else {
            1
        },
        Err(_) => 1,
    }
}

} // verus!
