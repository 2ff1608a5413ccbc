//! Label text: prices to two decimals, times to the minute.

use vstd::prelude::*;
use vstd::string::StringExecFns;

verus! {

/// The character of one decimal digit.
pub open spec fn digit(d: int) -> char {
    if d == 0 {
        '0'
    } else if d == 1 {
        '1'
    } else if d == 2 {
        '2'
    } else if d == 3 {
        '3'
    } else if d == 4 {
        '4'
    } else if d == 5 {
        '5'
    } else if d == 6 {
        '6'
    } else if d == 7 {
        '7'
    } else if d == 8 {
        '8'
    } else {
        '9'
    }
}

/// A natural number in decimal, without leading zeros.
pub open spec fn decimal(n: nat) -> Seq<char>
    decreases n,
{
    if n < 10 {
        seq![digit(n as int)]
    } else {
        decimal(n / 10).push(digit((n % 10) as int))
    }
}

/// A number of hundredths as text with two decimals: an optional minus sign,
/// the whole part, a point, two digits. `-5` reads `-0.05`.
pub open spec fn hundredths_text(v: int) -> Seq<char> {
    let a = if v < 0 {
        (-v) as nat
    } else {
        v as nat
    };
    let digits = decimal(a / 100) + seq!['.', digit(((a / 10) % 10) as int), digit((a % 10) as int)];
    if v < 0 {
        seq!['-'] + digits
    } else {
        digits
    }
}

fn digit_str(d: u8) -> (s: &'static str)
    requires
        d < 10,
    ensures
        s@ == seq![digit(d as int)],
{
    proof {
        reveal_strlit("0");
        reveal_strlit("1");
        reveal_strlit("2");
        reveal_strlit("3");
        reveal_strlit("4");
        reveal_strlit("5");
        reveal_strlit("6");
        reveal_strlit("7");
        reveal_strlit("8");
        reveal_strlit("9");
    }
    let s = if d == 0 {
        "0"
    } else if d == 1 {
        "1"
    } else if d == 2 {
        "2"
    } else if d == 3 {
        "3"
    } else if d == 4 {
        "4"
    } else if d == 5 {
        "5"
    } else if d == 6 {
        "6"
    } else if d == 7 {
        "7"
    } else if d == 8 {
        "8"
    } else {
        "9"
    };
    assert(s@ =~= seq![digit(d as int)]);
    s
}

fn push_decimal(out: &mut String, n: u128)
    ensures
        final(out)@ == old(out)@ + decimal(n as nat),
    decreases n,
{
    if n >= 10 {
        push_decimal(out, n / 10);
    }
    out.append(digit_str((n % 10) as u8));
    assert(out@ =~= old(out)@ + decimal(n as nat));
}

/// Writes a number of hundredths with two decimals.
pub fn format_hundredths(v: i128) -> (s: String)
    ensures
        s@ == hundredths_text(v as int),
{
    let a: u128 = if v >= 0 {
        v as u128
    } else if v == i128::MIN {
        0x8000_0000_0000_0000_0000_0000_0000_0000u128
    } else {
        (-v) as u128
    };
    let mut s = String::new();
    if v < 0 {
        proof {
            reveal_strlit("-");
        }
        s.append("-");
    }
    push_decimal(&mut s, a / 100);
    proof {
        reveal_strlit(".");
    }
    s.append(".");
    s.append(digit_str(((a / 10) % 10) as u8));
    s.append(digit_str((a % 10) as u8));
    assert(s@ =~= hundredths_text(v as int));
    s
}

/// The format of the time labels: year, month and day, then hour and
/// minute.
pub const TIME_FORMAT: &'static str = "%Y-%m-%d %H:%M";

/// What chrono writes for the time `secs` seconds after 1970-01-01 00:00:00
/// UTC under the `strftime` format `fmt`, or `None` where its calendar cannot
/// hold that time or it cannot write the format. Under `TIME_FORMAT` a time
/// in the years 0 to 9999 reads `YYYY-MM-DD HH:MM`; other years carry a sign
/// and may take more digits.
pub uninterp spec fn utc_text(secs: int, fmt: Seq<char>) -> Option<Seq<char>>;

/// The characters of an optional string.
pub open spec fn text_of(s: Option<String>) -> Option<Seq<char>> {
    match s {
        Some(s) => Some(s@),
        None => None,
    }
}

/// Calls `chrono::DateTime::from_timestamp` with no nanoseconds and, where
/// that gives a time, `DateTime::format` with `fmt` and
/// `DelayedFormat::write_to` into a fresh string. All three depend on `secs`
/// and `fmt` alone, Coordinated Universal Time having neither zone nor
/// locale, so the result is `utc_text(secs, fmt)`; nothing more is claimed of
/// it. A format that chrono cannot write comes back as its error, which
/// gives `None`.
#[verifier::external_body]
pub(crate) fn format_utc(secs: i64, fmt: &str) -> (r: Option<String>)
    ensures
        text_of(r) == utc_text(secs as int, fmt@),
{
    let time = chrono::DateTime::from_timestamp(secs, 0)?;
    let mut text = String::new();
    match time.format(fmt).write_to(&mut text) {
        Ok(()) => Some(text),
        Err(_) => None,
    }
}

} // verus!
