//! The lines the tool prints.
use vstd::prelude::*;
use crate::invocation::text;

verus! {

/// The character of a decimal digit.
pub open spec fn digit_char(d: nat) -> char {
    if d == 0 { '0' }
    else if d == 1 { '1' }
    else if d == 2 { '2' }
    else if d == 3 { '3' }
    else if d == 4 { '4' }
    else if d == 5 { '5' }
    else if d == 6 { '6' }
    else if d == 7 { '7' }
    else if d == 8 { '8' }
    else { '9' }
}

/// The decimal writing of a number, without leading zeros.
pub open spec fn decimal(n: nat) -> Seq<char>
    decreases n,
{
    if n < 10 {
        seq![digit_char(n)]
    } else {
        decimal(n / 10) + seq![digit_char(n % 10)]
    }
}

/// The text of a decimal digit.
fn digit_text(d: u64) -> (t: &'static str)
    requires
        d < 10,
    ensures
        t@ == seq![digit_char(d as nat)],
{
    if d == 0 {
        proof { reveal_strlit("0"); }
        "0"
    } else if d == 1 {
        proof { reveal_strlit("1"); }
        "1"
    } else if d == 2 {
        proof { reveal_strlit("2"); }
        "2"
    } else if d == 3 {
        proof { reveal_strlit("3"); }
        "3"
    } else if d == 4 {
        proof { reveal_strlit("4"); }
        "4"
    } else if d == 5 {
        proof { reveal_strlit("5"); }
        "5"
    } else if d == 6 {
        proof { reveal_strlit("6"); }
        "6"
    } else if d == 7 {
        proof { reveal_strlit("7"); }
        "7"
    } else if d == 8 {
        proof { reveal_strlit("8"); }
        "8"
    } else {
        proof { reveal_strlit("9"); }
        "9"
    }
}

/// Writes a number in decimal, as `{}` does.
pub fn decimal_string(n: u64) -> (s: String)
    ensures
        s@ == decimal(n as nat),
    decreases n,
{
    if n < 10 {
        text(digit_text(n))
    } else {
        let mut s = decimal_string(n / 10);
        s.append(digit_text(n % 10));
        s
    }
}

/// A message as the tool prints it: a green check mark, the message, then
/// the colours reset.
pub open spec fn log_text(message: Seq<char>) -> Seq<char> {
    "\x1b[1;32m ✔\x1b[0;37m "@ + message + "\x1b[0m"@
}

/// A message as the tool prints it.
pub fn log_line(message: &str) -> (line: String)
    ensures
        line@ == log_text(message@),
{
    let mut line = text("\x1b[1;32m ✔\x1b[0;37m ");
    line.append(message);
    line.append("\x1b[0m");
    line
}

/// The line that opens a deployment, given the date as the clock writes it.
pub fn started_message(date: &str) -> (m: String)
    ensures
        m@ == "Starting deployment at "@ + date@,
{
    let mut m = text("Starting deployment at ");
    m.append(date);
    m
}

/// The line that closes a deployment, given how many seconds it took.
pub fn finished_message(secs: u64) -> (m: String)
    ensures
        m@ == "The deployment take "@ + decimal(secs as nat) + " secs"@,
{
    let mut m = text("The deployment take ");
    let d = decimal_string(secs);
    m.append(d.as_str());
    m.append(" secs");
    m
}

} // verus!
