//! The notices that the inactivity timer gives to the thread.

use vstd::prelude::*;
use vstd::string::StringExecFns;

verus! {

/// The character of the decimal digit `d`.
pub open spec fn digit(d: nat) -> char {
    if d == 0 {
        '0'
    } else if d == 1 {
        '1'
    } else if d == 2 {
        '2'
    } else if d == 3 {
        '3'
    } else if d == 4 {
        '4'
    } else if d == 5 {
        '5'
    } else if d == 6 {
        '6'
    } else if d == 7 {
        '7'
    } else if d == 8 {
        '8'
    } else {
        '9'
    }
}

/// The decimal digits of `n`, the most significant first, without leading
/// zeros.
pub open spec fn decimal_nat(n: nat) -> Seq<char>
    decreases n,
{
    if n < 10 {
        seq![digit(n)]
    } else {
        decimal_nat(n / 10).push(digit(n % 10))
    }
}

/// `n` written in decimal, with a minus sign in front where it is negative.
pub open spec fn decimal(n: int) -> Seq<char> {
    if n < 0 {
        seq!['-'] + decimal_nat((-n) as nat)
    } else {
        decimal_nat(n as nat)
    }
}

/// The Unix time, in seconds, at which a thread will be closed that is warned
/// at `unix_now` and has `timeout_duration` milliseconds left: the whole
/// seconds of the duration are added, and the result stops at the last second
/// that fits.
pub open spec fn closing_time(unix_now: i64, timeout_duration: u64) -> i64 {
    if unix_now + timeout_duration / 1000 > i64::MAX {
        i64::MAX
    } else {
        (unix_now + timeout_duration / 1000) as i64
    }
}

/// The title of the warning.
pub open spec fn warning_title() -> Seq<char> {
    "⚠️ Timeout warning"@
}

/// The text of the warning for a thread that will be closed at the Unix time
/// `closes_at`. The time is given in the form that the chat platform shows as
/// a time relative to the reader's present.
pub open spec fn warning_description(closes_at: i64) -> Seq<char> {
    "This thread will closed automatically for inactivity <t:"@ + decimal(closes_at as int)
        + ":R>"@
}

/// The title of the notice that the thread was closed.
pub open spec fn timeout_title() -> Seq<char> {
    "⚠️ Timeout"@
}

/// The text of the notice that the thread was closed.
pub open spec fn timeout_description() -> Seq<char> {
    "This thread has been closed due to inactivity"@
}

/// What a [`Notice`] holds, as a mathematical value.
pub struct NoticeView {
    pub title: Seq<char>,
    pub description: Seq<char>,
}

/// A notice for the thread: a title and a text below it.
pub struct Notice {
    pub title: String,
    pub description: String,
}

impl View for Notice {
    type V = NoticeView;

    open spec fn view(&self) -> NoticeView {
        NoticeView { title: self.title@, description: self.description@ }
    }
}

fn digit_text(d: u64) -> (text: &'static str)
    requires
        d < 10,
    ensures
        text@ == seq![digit(d as nat)],
{
    proof {
        reveal_strlit("0");
        reveal_strlit("1");
        reveal_strlit("2");
        reveal_strlit("3");
        reveal_strlit("4");
        reveal_strlit("5");
        reveal_strlit("6");
        reveal_strlit("7");
        reveal_strlit("8");
        reveal_strlit("9");
    }
    let text = if d == 0 {
        "0"
    } else if d == 1 {
        "1"
    } else if d == 2 {
        "2"
    } else if d == 3 {
        "3"
    } else if d == 4 {
        "4"
    } else if d == 5 {
        "5"
    } else if d == 6 {
        "6"
    } else if d == 7 {
        "7"
    } else if d == 8 {
        "8"
    } else {
        "9"
    };
    assert(text@ =~= seq![digit(d as nat)]);
    text
}

/// Writes `n` in decimal.
pub fn unsigned_text(n: u64) -> (text: String)
    ensures
        text@ == decimal_nat(n as nat),
{
    let mut digits = String::from_str(digit_text(n % 10));
    let mut rest: u64 = n / 10;
    while rest > 0
        invariant
            decimal_nat(n as nat) == if rest == 0 {
                digits@
            } else {
                decimal_nat(rest as nat) + digits@
            },
        decreases rest,
    {
        let ghost lower = digits@;
        digits = String::from_str(digit_text(rest % 10)).concat(digits.as_str());
        proof {
            if rest >= 10 {
                assert(decimal_nat((rest / 10) as nat).push(digit((rest % 10) as nat)) + lower
                    =~= decimal_nat((rest / 10) as nat) + digits@);
            } else {
                assert(decimal_nat(rest as nat) + lower =~= digits@);
            }
        }
        rest = rest / 10;
    }
    digits
}

/// Writes `n` in decimal, with a minus sign in front where it is negative.
pub fn decimal_text(n: i64) -> (text: String)
    ensures
        text@ == decimal(n as int),
{
    if n < 0 {
        let magnitude: u64 = (-(n + 1)) as u64 + 1;
        let digits = unsigned_text(magnitude);
        proof {
            reveal_strlit("-");
            assert("-"@ =~= seq!['-']);
        }
        String::from_str("-").concat(digits.as_str())
    } else {
        unsigned_text(n as u64)
    }
}

/// The Unix time at which a thread will be closed that is warned at
/// `unix_now` and has `timeout_duration` milliseconds left.
pub fn closes_at(unix_now: i64, timeout_duration: u64) -> (at: i64)
    ensures
        at == closing_time(unix_now, timeout_duration),
{
    let seconds: u64 = timeout_duration / 1000;
    let sum: i128 = unix_now as i128 + seconds as i128;
    if sum > i64::MAX as i128 {
        i64::MAX
    } else {
        sum as i64
    }
}

/// The warning for a thread that will be closed at the Unix time `closes_at`.
pub fn warning_notice(closes_at: i64) -> (notice: Notice)
    ensures
        notice@ == (NoticeView {
            title: warning_title(),
            description: warning_description(closes_at),
        }),
{
    let mut description = String::from_str(
        "This thread will closed automatically for inactivity <t:",
    );
    let time = decimal_text(closes_at);
    description.append(time.as_str());
    description.append(":R>");
    Notice { title: String::from_str("⚠️ Timeout warning"), description }
}

/// The notice that the thread was closed.
pub fn timeout_notice() -> (notice: Notice)
    ensures
        notice@ == (NoticeView { title: timeout_title(), description: timeout_description() }),
{
    Notice {
        title: String::from_str("⚠️ Timeout"),
        description: String::from_str("This thread has been closed due to inactivity"),
    }
}

} // verus!
