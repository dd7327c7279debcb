//! The texts shown to the user: the notification for a due event and the
//! progress line for an upcoming one.

use vstd::prelude::*;

verus! {

/// The character for the decimal digit `d`.
pub open spec fn digit_char(d: int) -> char {
    if d == 0 {
        '0'
    } else if d == 1 {
        '1'
    } else if d == 2 {
        '2'
    } else if d == 3 {
        '3'
    } else if d == 4 {
        '4'
    } else if d == 5 {
        '5'
    } else if d == 6 {
        '6'
    } else if d == 7 {
        '7'
    } else if d == 8 {
        '8'
    } else {
        '9'
    }
}

/// The decimal digits of `n`, most significant first, without leading zeros.
pub open spec fn decimal_digits(n: nat) -> Seq<char>
    decreases n,
{
    if n < 10 {
        seq![digit_char(n as int)]
    } else {
        decimal_digits(n / 10).push(digit_char((n % 10) as int))
    }
}

/// The decimal numeral of `n`, with a minus sign where `n` is negative.
pub open spec fn decimal(n: int) -> Seq<char> {
    if n < 0 {
        seq!['-'] + decimal_digits((-n) as nat)
    } else {
        decimal_digits(n as nat)
    }
}

/// The text of the notification for an event titled `summary` that starts in
/// `lead` seconds: the lead is given in whole minutes, rounded down.
pub open spec fn notification_text(summary: Seq<char>, lead: int) -> Seq<char> {
    summary + " starts in "@ + decimal(lead / 60) + " minutes"@
}

/// The progress line for an event titled `summary` that starts in `lead`
/// seconds.
pub open spec fn event_line_text(summary: Seq<char>, lead: int) -> Seq<char> {
    "Event `"@ + summary + "` in "@ + decimal(lead) + " seconds."@
}

/// The decimal digit `d` as a string of one character.
fn digit_str(d: u64) -> (s: &'static str)
    requires
        d < 10,
    ensures
        s@ == seq![digit_char(d as int)],
{
    proof {
        reveal_strlit("0");
        reveal_strlit("1");
        reveal_strlit("2");
        reveal_strlit("3");
        reveal_strlit("4");
        reveal_strlit("5");
        reveal_strlit("6");
        reveal_strlit("7");
        reveal_strlit("8");
        reveal_strlit("9");
    }
    let s: &'static str = if d == 0 {
        "0"
    } else if d == 1 {
        "1"
    } else if d == 2 {
        "2"
    } else if d == 3 {
        "3"
    } else if d == 4 {
        "4"
    } else if d == 5 {
        "5"
    } else if d == 6 {
        "6"
    } else if d == 7 {
        "7"
    } else if d == 8 {
        "8"
    } else {
        "9"
    };
    assert(s@ =~= seq![digit_char(d as int)]);
    s
}

/// Appends the decimal digits of `n` to `out`.
fn append_digits(out: &mut String, n: u64)
    ensures
        final(out)@ == old(out)@ + decimal_digits(n as nat),
    decreases n,
{
    if n >= 10 {
        append_digits(out, n / 10);
    }
    out.append(digit_str(n % 10));
    assert(out@ =~= old(out)@ + decimal_digits(n as nat));
}

/// Appends the decimal numeral of `n` to `out`.
pub fn append_decimal(out: &mut String, n: i64)
    ensures
        final(out)@ == old(out)@ + decimal(n as int),
{
    if n < 0 {
        proof {
            reveal_strlit("-");
        }
        out.append("-");
        let magnitude: u64 = (-(n as i128)) as u64;
        append_digits(out, magnitude);
        assert(out@ =~= old(out)@ + decimal(n as int));
    } else {
        append_digits(out, n as u64);
    }
}

/// The whole minutes in `lead` seconds, rounded down.
pub fn whole_minutes(lead: i64) -> (minutes: i64)
    ensures
        minutes == lead as int / 60,
{
    if lead >= 0 {
        lead / 60
    } else {
        let below: i64 = -(lead + 1);
        -(below / 60) - 1
    }
}

/// A notification that is ready to be shown.
#[derive(Debug, PartialEq, Eq)]
pub struct Notice {
    /// The text to show.
    pub text: String,
    /// Whether the notification stays on screen until the user dismisses it.
    pub never_expires: bool,
}

impl Clone for Notice {
    fn clone(&self) -> (copy: Notice)
        ensures
            copy == *self,
    {
        Notice { text: self.text.clone(), never_expires: self.never_expires }
    }
}

/// The notification for an event titled `summary` that starts in `lead`
/// seconds: "`summary` starts in `lead / 60` minutes", to stay on screen
/// until it is dismissed.
pub fn notice_for(summary: &str, lead: i64) -> (notice: Notice)
    ensures
        notice.text@ == notification_text(summary@, lead as int),
        notice.never_expires,
{
    let mut text = String::from_str(summary);
    text.append(" starts in ");
    append_decimal(&mut text, whole_minutes(lead));
    text.append(" minutes");
    Notice { text, never_expires: true }
}

/// The progress line for an event titled `summary` that starts in `lead`
/// seconds: "Event `summary` in `lead` seconds."
pub fn event_line(summary: &str, lead: i64) -> (line: String)
    ensures
        line@ == event_line_text(summary@, lead as int),
{
    let mut line = String::from_str("Event `");
    line.append(summary);
    line.append("` in ");
    append_decimal(&mut line, lead);
    line.append(" seconds.");
    line
}

} // verus!
