//! The texts of the wallet's error messages.

use vstd::prelude::*;
use vstd::string::StringExecFns;

verus! {

/// The decimal digit for a number below ten.
pub open spec fn digit_spec(d: int) -> Seq<char> {
    if d == 0 {
        seq!['0']
    } else if d == 1 {
        seq!['1']
    } else if d == 2 {
        seq!['2']
    } else if d == 3 {
        seq!['3']
    } else if d == 4 {
        seq!['4']
    } else if d == 5 {
        seq!['5']
    } else if d == 6 {
        seq!['6']
    } else if d == 7 {
        seq!['7']
    } else if d == 8 {
        seq!['8']
    } else {
        seq!['9']
    }
}

/// A number written in decimal digits, without leading zeros.
pub open spec fn decimal_spec(n: nat) -> Seq<char>
    decreases n,
{
    if n < 10 {
        digit_spec(n as int)
    } else {
        decimal_spec(n / 10) + digit_spec((n % 10) as int)
    }
}

fn digit(d: u128) -> (r: &'static str)
    requires
        d < 10,
    ensures
        r@ == digit_spec(d as int),
{
    proof {
        reveal_strlit("0");
        reveal_strlit("1");
        reveal_strlit("2");
        reveal_strlit("3");
        reveal_strlit("4");
        reveal_strlit("5");
        reveal_strlit("6");
        reveal_strlit("7");
        reveal_strlit("8");
        reveal_strlit("9");
    }
    if d == 0 {
        "0"
    } else if d == 1 {
        "1"
    } else if d == 2 {
        "2"
    } else if d == 3 {
        "3"
    } else if d == 4 {
        "4"
    } else if d == 5 {
        "5"
    } else if d == 6 {
        "6"
    } else if d == 7 {
        "7"
    } else if d == 8 {
        "8"
    } else {
        "9"
    }
}

/// A number written in decimal digits.
pub fn decimal(n: u128) -> (r: String)
    ensures
        r@ == decimal_spec(n as nat),
    decreases n,
{
    if n < 10 {
        String::from_str(digit(n))
    } else {
        decimal(n / 10).concat(digit(n % 10))
    }
}

/// What is said of a call to another canister that failed: the code of the
/// rejection and the message that came with it.
pub open spec fn call_error_spec(code: u8, message: Seq<char>) -> Seq<char> {
    "An error happened during the call: "@ + decimal_spec(code as nat) + ": "@ + message
}

/// What is said of a call to another canister that failed.
pub fn call_error(code: u8, message: &str) -> (r: String)
    ensures
        r@ == call_error_spec(code, message@),
{
    let number = decimal(code as u128);
    String::from_str("An error happened during the call: ").concat(number.as_str()).concat(
        ": ",
    ).concat(message)
}

/// What is said when cycles were sent and the call failed: the amount sent,
/// the amount that came back, and what is said of the failed call.
pub open spec fn send_error_spec(amount: u128, refund: u128, code: u8, message: Seq<char>) -> Seq<
    char,
> {
    "Cycles sent: "@ + decimal_spec(amount as nat) + "\nCycles refunded: "@ + decimal_spec(
        refund as nat,
    ) + "\n"@ + call_error_spec(code, message)
}

/// What is said when cycles were sent and the call failed.
pub fn send_error(amount: u128, refund: u128, code: u8, message: &str) -> (r: String)
    ensures
        r@ == send_error_spec(amount, refund, code, message@),
{
    let sent = decimal(amount);
    let refunded = decimal(refund);
    let failed = call_error(code, message);
    String::from_str("Cycles sent: ").concat(sent.as_str()).concat("\nCycles refunded: ").concat(
        refunded.as_str(),
    ).concat("\n").concat(failed.as_str())
}

} // verus!
