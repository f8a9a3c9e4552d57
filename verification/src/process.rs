//! How the supervisor has its child end: by a signal that asks, not one that forces.

use crate::bridge::sigterm_name;
use crate::text::join_text;
use vstd::prelude::*;
use vstd::string::*;

verus! {

/// The program that sends signals.
pub const KILL: &'static str = "kill";

/// A program to run, with its arguments.
#[derive(Debug)]
pub struct Command {
    pub program: String,
    pub args: Vec<String>,
}

/// The digit for `d`, a number below ten.
pub open spec fn digit_of(d: int) -> char {
    if d == 0 {
        '0'
    } else if d == 1 {
        '1'
    } else if d == 2 {
        '2'
    } else if d == 3 {
        '3'
    } else if d == 4 {
        '4'
    } else if d == 5 {
        '5'
    } else if d == 6 {
        '6'
    } else if d == 7 {
        '7'
    } else if d == 8 {
        '8'
    } else {
        '9'
    }
}

/// The number `n` in decimal digits, without leading zeros.
pub open spec fn decimal_text(n: nat) -> Seq<char>
    decreases n,
{
    if n < 10 {
        seq![digit_of(n as int)]
    } else {
        decimal_text(n / 10).push(digit_of((n % 10) as int))
    }
}

/// The digit for `d` as a text of one character.
fn digit_text(d: u32) -> (r: &'static str)
    requires
        d < 10,
    ensures
        r@ == seq![digit_of(d as int)],
{
    proof {
        reveal_strlit("0");
        reveal_strlit("1");
        reveal_strlit("2");
        reveal_strlit("3");
        reveal_strlit("4");
        reveal_strlit("5");
        reveal_strlit("6");
        reveal_strlit("7");
        reveal_strlit("8");
        reveal_strlit("9");
    }
    let r = if d == 0 {
        "0"
    } else if d == 1 {
        "1"
    } else if d == 2 {
        "2"
    } else if d == 3 {
        "3"
    } else if d == 4 {
        "4"
    } else if d == 5 {
        "5"
    } else if d == 6 {
        "6"
    } else if d == 7 {
        "7"
    } else if d == 8 {
        "8"
    } else {
        "9"
    };
    assert(r@ =~= seq![digit_of(d as int)]);
    r
}

/// The number `n` in decimal digits.
pub fn decimal(n: u32) -> (r: String)
    ensures
        r@ == decimal_text(n as nat),
{
    let mut rest: u32 = n / 10;
    let mut r = String::from_str(digit_text(n % 10));
    proof {
        if n < 10 {
            assert(r@ =~= decimal_text(n as nat));
        } else {
            assert(decimal_text(rest as nat).push(digit_of((n % 10) as int)) =~= decimal_text(
                rest as nat,
            ) + r@);
        }
    }
    while rest > 0
        invariant
            if rest == 0 {
                r@ == decimal_text(n as nat)
            } else {
                decimal_text(rest as nat) + r@ == decimal_text(n as nat)
            },
        decreases rest,
    {
        let d = digit_text(rest % 10);
        let ghost before = r@;
        let ghost was = rest;
        r = join_text(d, r.as_str());
        rest = rest / 10;
        proof {
            if was < 10 {
                assert(decimal_text(was as nat) =~= d@);
            } else {
                assert(decimal_text(was as nat) =~= decimal_text(rest as nat) + d@);
                assert(decimal_text(rest as nat) + (d@ + before) =~= (decimal_text(rest as nat)
                    + d@) + before);
            }
        }
    }
    r
}

/// The command that asks the process `pid` to end: the signal is the one that a process
/// may answer in its own time, so that the child can finish what it has in hand.
pub fn graceful_shutdown(pid: u32) -> (command: Command)
    ensures
        command.program@ == KILL@,
        command.args@.len() == 3,
        command.args@[0]@ == "-s"@,
        command.args@[1]@ == "SIGTERM"@,
        command.args@[2]@ == decimal_text(pid as nat),
{
    let mut args: Vec<String> = Vec::new();
    args.push(String::from_str("-s"));
    args.push(sigterm_name());
    args.push(decimal(pid));
    Command { program: String::from_str(KILL), args }
}

} // verus!
