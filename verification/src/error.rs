//! Errors of the handler.

use vstd::prelude::*;
use vstd::string::StringExecFns;

verus! {

/// Why the handler could not be set up, or why a wait came back without a
/// signal.
#[derive(Debug, Clone, Copy, PartialEq, Eq)]
pub enum Error {
    /// A system call failed; the value is the system's last error code,
    /// read right after the failing call.
    Os(i32),
    /// The wait handed back a status that is none of "signaled", "failed"
    /// and "abandoned"; the value is that status.
    Unexpected(u32),
}

impl Error {
    /// The system's error code, where the failure came from a system call.
    pub open spec fn os_code(self) -> Option<i32> {
        match self {
            Error::Os(code) => Some(code),
            Error::Unexpected(_) => None,
        }
    }

    /// The system's error code, where the failure came from a system call.
    pub fn raw_os_error(&self) -> (code: Option<i32>)
        ensures
            code == self.os_code(),
    {
        match *self {
            Error::Os(code) => Some(code),
            Error::Unexpected(_) => None,
        }
    }
}

/// The sixteen digits of lower-case hexadecimal, by their value.
pub open spec fn hex_digits() -> Seq<char> {
    seq!['0', '1', '2', '3', '4', '5', '6', '7', '8', '9', 'a', 'b', 'c', 'd', 'e', 'f']
}

/// `n` in lower-case hexadecimal: most significant digit first, no prefix
/// and no leading zero, `"0"` for zero.
pub open spec fn lower_hex(n: nat) -> Seq<char>
    decreases n,
{
    if n < 16 {
        seq![hex_digits()[n as int]]
    } else {
        lower_hex(n / 16).push(hex_digits()[(n % 16) as int])
    }
}

/// The text that tells of a wait that came back with the status `status`.
pub open spec fn unexpected_status_text(status: u32) -> Seq<char> {
    "WaitForSingleObject(), unexpected return value \""@ + lower_hex(status as nat) + "\""@
}

/// The digit of value `d`, as a text of one character.
fn hex_digit(d: u32) -> (digit: &'static str)
    requires
        d < 16,
    ensures
        digit@ == seq![hex_digits()[d as int]],
{
    proof {
        reveal_strlit("0");
        reveal_strlit("1");
        reveal_strlit("2");
        reveal_strlit("3");
        reveal_strlit("4");
        reveal_strlit("5");
        reveal_strlit("6");
        reveal_strlit("7");
        reveal_strlit("8");
        reveal_strlit("9");
        reveal_strlit("a");
        reveal_strlit("b");
        reveal_strlit("c");
        reveal_strlit("d");
        reveal_strlit("e");
        reveal_strlit("f");
    }
    let digit = match d {
        0 => "0",
        1 => "1",
        2 => "2",
        3 => "3",
        4 => "4",
        5 => "5",
        6 => "6",
        7 => "7",
        8 => "8",
        9 => "9",
        10 => "a",
        11 => "b",
        12 => "c",
        13 => "d",
        14 => "e",
        _ => "f",
    };
    assert(digit@ =~= seq![hex_digits()[d as int]]);
    digit
}

/// Appends `value` in lower-case hexadecimal to `text`.
fn push_lower_hex(text: &mut String, value: u32)
    ensures
        final(text)@ == old(text)@ + lower_hex(value as nat),
    decreases value,
{
    if value >= 16 {
        push_lower_hex(text, value / 16);
    }
    text.append(hex_digit(value % 16));
    assert(text@ =~= old(text)@ + lower_hex(value as nat));
}

/// The message of `Error::Unexpected(status)`: the name of the wait and
/// the status in lower-case hexadecimal, between double quotes.
pub fn unexpected_status_message(status: u32) -> (message: String)
    ensures
        message@ == unexpected_status_text(status),
{
    let mut message = String::from_str("WaitForSingleObject(), unexpected return value \"");
    push_lower_hex(&mut message, status);
    message.append("\"");
    message
}

} // verus!
