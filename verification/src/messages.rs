//! The error messages a field can report, together with a verified decimal
//! rendering of the maximum-length bound that one of them embeds.

use vstd::prelude::*;
use vstd::string::StringExecFns;

verus! {

/// The character for a single decimal digit.
pub open spec fn digit_char(d: nat) -> char {
    if d == 0 {
        '0'
    } else if d == 1 {
        '1'
    } else if d == 2 {
        '2'
    } else if d == 3 {
        '3'
    } else if d == 4 {
        '4'
    } else if d == 5 {
        '5'
    } else if d == 6 {
        '6'
    } else if d == 7 {
        '7'
    } else if d == 8 {
        '8'
    } else {
        '9'
    }
}

/// The decimal representation of `n`, most significant digit first.
pub open spec fn dec_str(n: nat) -> Seq<char>
    decreases n,
{
    if n < 10 {
        seq![digit_char(n)]
    } else {
        dec_str(n / 10).push(digit_char(n % 10))
    }
}

/// The message reported when a required field receives no value.
pub open spec fn required_message() -> Seq<char> {
    "This field is required."@
}

/// The message reported when a submitted value is longer than `max` bytes.
pub open spec fn length_message(max: nat) -> Seq<char> {
    "Character length exceeds maximum size of "@ + dec_str(max)
}

/// A one-character string slice for the digit `d`.
fn digit_str(d: usize) -> (r: &'static str)
    requires
        d < 10,
    ensures
        r@ == seq![digit_char(d as nat)],
{
    let r: &'static str = if d == 0 {
        "0"
    } else if d == 1 {
        "1"
    } else if d == 2 {
        "2"
    } else if d == 3 {
        "3"
    } else if d == 4 {
        "4"
    } else if d == 5 {
        "5"
    } else if d == 6 {
        "6"
    } else if d == 7 {
        "7"
    } else if d == 8 {
        "8"
    } else {
        "9"
    };
    proof {
        reveal_strlit("0");
        reveal_strlit("1");
        reveal_strlit("2");
        reveal_strlit("3");
        reveal_strlit("4");
        reveal_strlit("5");
        reveal_strlit("6");
        reveal_strlit("7");
        reveal_strlit("8");
        reveal_strlit("9");
        assert(r@ =~= seq![digit_char(d as nat)]);
    }
    r
}

/// Renders `n` in decimal, matching `dec_str`.
pub fn decimal_string(n: usize) -> (r: String)
    ensures
        r@ == dec_str(n as nat),
    decreases n,
{
    if n < 10 {
        digit_str(n).to_owned()
    } else {
        let mut s = decimal_string(n / 10);
        s.append(digit_str(n % 10));
        proof {
            assert(s@ =~= dec_str(n as nat));
        }
        s
    }
}

/// Builds the missing-required-value message.
pub fn required_message_string() -> (r: String)
    ensures
        r@ == required_message(),
{
    "This field is required.".to_owned()
}

/// Builds the over-length message for the bound `max_length`.
pub fn length_message_string(max_length: usize) -> (r: String)
    ensures
        r@ == length_message(max_length as nat),
{
    let mut s = "Character length exceeds maximum size of ".to_owned();
    let digits = decimal_string(max_length);
    s.append(digits.as_str());
    s
}

} // verus!
