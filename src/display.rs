use std::io::Write;
use vstd::prelude::*;
use vstd::string::StringExecFns;
use crate::event::QEvent;
use crate::handler::{Handler, SinkClosed};

verus! {

/// The character of a decimal digit.
pub open spec fn digit_char(d: nat) -> char {
    if d == 0 { '0' }
    else if d == 1 { '1' }
    else if d == 2 { '2' }
    else if d == 3 { '3' }
    else if d == 4 { '4' }
    else if d == 5 { '5' }
    else if d == 6 { '6' }
    else if d == 7 { '7' }
    else if d == 8 { '8' }
    else { '9' }
}

/// The decimal digits of `n`, most significant first, without leading zeros.
pub open spec fn digits(n: nat) -> Seq<char>
    decreases n,
{
    if n < 10 {
        seq![digit_char(n)]
    } else {
        digits(n / 10).push(digit_char(n % 10))
    }
}

/// `n` written in decimal, with a leading `-` when negative.
pub open spec fn decimal(n: int) -> Seq<char> {
    if n < 0 {
        seq!['-'] + digits((-n) as nat)
    } else {
        digits(n as nat)
    }
}

/// What `{:?}` writes for an event.
pub uninterp spec fn debug_text_of(e: QEvent) -> Seq<char>;

/// The line that the console handler prints for an event: the four kinds
/// with the richest payload get a line of their own, every other kind its
/// structured dump.
pub open spec fn rendered(e: QEvent) -> Seq<char> {
    match e {
        QEvent::GroupMessage(m) => "MESSAGE (GROUP="@ + decimal(m.group_code as int) + "): "@
            + m.elements@,
        QEvent::PrivateMessage(m) => "MESSAGE (FRIEND="@ + decimal(m.from_uin as int) + "): "@
            + m.elements@,
        QEvent::GroupRequest(m) => "REQUEST (GROUP="@ + decimal(m.group_code as int) + ", UIN="@
            + decimal(m.req_uin as int) + "): "@ + m.message@,
        QEvent::FriendRequest(m) => "REQUEST (UIN="@ + decimal(m.req_uin as int) + "): "@
            + m.message@,
        _ => debug_text_of(e),
    }
}

fn digit_str(d: u64) -> (r: &'static str)
    requires
        d < 10,
    ensures
        r@ == seq![digit_char(d as nat)],
{
    proof {
        reveal_strlit("0");
        reveal_strlit("1");
        reveal_strlit("2");
        reveal_strlit("3");
        reveal_strlit("4");
        reveal_strlit("5");
        reveal_strlit("6");
        reveal_strlit("7");
        reveal_strlit("8");
        reveal_strlit("9");
    }
    if d == 0 { "0" }
    else if d == 1 { "1" }
    else if d == 2 { "2" }
    else if d == 3 { "3" }
    else if d == 4 { "4" }
    else if d == 5 { "5" }
    else if d == 6 { "6" }
    else if d == 7 { "7" }
    else if d == 8 { "8" }
    else { "9" }
}

fn push_digits(out: &mut String, n: u64)
    ensures
        final(out)@ == old(out)@ + digits(n as nat),
    decreases n,
{
    if n >= 10 {
        push_digits(out, n / 10);
    }
    out.append(digit_str(n % 10));
}

/// Appends `n` in decimal to `out`.
pub fn push_decimal(out: &mut String, n: i64)
    ensures
        final(out)@ == old(out)@ + decimal(n as int),
{
    if n < 0 {
        proof {
            reveal_strlit("-");
        }
        out.append("-");
        let magnitude: u64 = (-(n + 1)) as u64 + 1;
        push_digits(out, magnitude);
    } else {
        push_digits(out, n as u64);
    }
}

/// Relies on the `Debug` impl that `derive` writes for `QEvent`, through
/// `format!`: the structured dump of the whole event.
#[verifier::external_body]
fn debug_text(e: &QEvent) -> (r: String)
    ensures
        r@ == debug_text_of(*e),
{
    format!("{:?}", e)
}

/// Relies on `writeln!` to `std::io::stdout()`: the line goes to standard
/// output; a failed write is dropped, as the output is advisory.
#[verifier::external_body]
fn print_line(line: &String) {
    let _ = writeln!(std::io::stdout(), "{}", line);
}

/// A handler that prints every event it takes to standard output.
pub struct DefaultHandler;

impl DefaultHandler {
    /// The line printed for `e`.
    pub fn render(&self, e: &QEvent) -> (r: String)
        ensures
            r@ == rendered(*e),
    {
        match e {
            QEvent::GroupMessage(m) => {
                let mut s = String::from_str("MESSAGE (GROUP=");
                push_decimal(&mut s, m.group_code);
                s.append("): ");
                s.append(m.elements.as_str());
                s
            },
            QEvent::PrivateMessage(m) => {
                let mut s = String::from_str("MESSAGE (FRIEND=");
                push_decimal(&mut s, m.from_uin);
                s.append("): ");
                s.append(m.elements.as_str());
                s
            },
            QEvent::GroupRequest(m) => {
                let mut s = String::from_str("REQUEST (GROUP=");
                push_decimal(&mut s, m.group_code);
                s.append(", UIN=");
                push_decimal(&mut s, m.req_uin);
                s.append("): ");
                s.append(m.message.as_str());
                s
            },
            QEvent::FriendRequest(m) => {
                let mut s = String::from_str("REQUEST (UIN=");
                push_decimal(&mut s, m.req_uin);
                s.append("): ");
                s.append(m.message.as_str());
                s
            },
            _ => debug_text(e),
        }
    }
}

impl Handler for DefaultHandler {
    /// Prints the line that `render` gives; never fails.
    fn handle(&self, e: QEvent) -> (r: Result<(), SinkClosed>)
        ensures
            r is Ok,
    {
        let line = self.render(&e);
        print_line(&line);
        Ok(())
    }
}

} // verus!
