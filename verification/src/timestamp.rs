//! The timestamp put at the head of the merged document. The value is
//! injected by the caller rather than read from the clock, so a merge is a
//! pure function of its inputs; it is formatted here into the fixed-width
//! header line `-- [YYYY-MM-DD HH:MM:SS]` followed by a newline.

use vstd::prelude::*;
use vstd::string::StringExecFns;

verus! {

/// A point in time, as plain calendar and clock fields.
#[derive(Debug, Clone, Copy, PartialEq, Eq, Structural)]
pub struct Timestamp {
    pub year: u32,
    pub month: u32,
    pub day: u32,
    pub hour: u32,
    pub minute: u32,
    pub second: u32,
}

impl Timestamp {
    /// Fields lie in calendar and clock range, with the year at most four
    /// digits wide, so that the header keeps its fixed width.
    pub open spec fn wf(&self) -> bool {
        &&& self.year <= 9999
        &&& 1 <= self.month <= 12
        &&& 1 <= self.day <= 31
        &&& self.hour <= 23
        &&& self.minute <= 59
        &&& self.second <= 59
    }

    /// Decides well-formedness.
    pub fn is_wf(&self) -> (r: bool)
        ensures
            r == self.wf(),
    {
        self.year <= 9999 && 1 <= self.month && self.month <= 12 && 1 <= self.day && self.day
            <= 31 && self.hour <= 23 && self.minute <= 59 && self.second <= 59
    }
}

/// The decimal digit character for a value below ten.
pub open spec fn digit_char(d: int) -> char {
    if d == 0 {
        '0'
    } else if d == 1 {
        '1'
    } else if d == 2 {
        '2'
    } else if d == 3 {
        '3'
    } else if d == 4 {
        '4'
    } else if d == 5 {
        '5'
    } else if d == 6 {
        '6'
    } else if d == 7 {
        '7'
    } else if d == 8 {
        '8'
    } else {
        '9'
    }
}

/// A value below one hundred, written as exactly two decimal digits.
pub open spec fn two_digits(n: int) -> Seq<char> {
    seq![digit_char(n / 10), digit_char(n % 10)]
}

/// A value below ten thousand, written as exactly four decimal digits.
pub open spec fn four_digits(n: int) -> Seq<char> {
    two_digits(n / 100) + two_digits(n % 100)
}

/// The header line for a timestamp: `-- [YYYY-MM-DD HH:MM:SS]` and a
/// newline, every field zero-padded to fixed width.
pub open spec fn header_chars(ts: Timestamp) -> Seq<char> {
    "-- ["@ + four_digits(ts.year as int) + "-"@ + two_digits(ts.month as int) + "-"@
        + two_digits(ts.day as int) + " "@ + two_digits(ts.hour as int) + ":"@ + two_digits(
        ts.minute as int,
    ) + ":"@ + two_digits(ts.second as int) + "]\n"@
}

fn digit_str(d: u32) -> (r: &'static str)
    requires
        d < 10,
    ensures
        r@ == seq![digit_char(d as int)],
{
    match d {
        0 => {
            proof {
                reveal_strlit("0");
                assert("0"@ =~= seq![digit_char(0)]);
            }
            "0"
        },
        1 => {
            proof {
                reveal_strlit("1");
                assert("1"@ =~= seq![digit_char(1)]);
            }
            "1"
        },
        2 => {
            proof {
                reveal_strlit("2");
                assert("2"@ =~= seq![digit_char(2)]);
            }
            "2"
        },
        3 => {
            proof {
                reveal_strlit("3");
                assert("3"@ =~= seq![digit_char(3)]);
            }
            "3"
        },
        4 => {
            proof {
                reveal_strlit("4");
                assert("4"@ =~= seq![digit_char(4)]);
            }
            "4"
        },
        5 => {
            proof {
                reveal_strlit("5");
                assert("5"@ =~= seq![digit_char(5)]);
            }
            "5"
        },
        6 => {
            proof {
                reveal_strlit("6");
                assert("6"@ =~= seq![digit_char(6)]);
            }
            "6"
        },
        7 => {
            proof {
                reveal_strlit("7");
                assert("7"@ =~= seq![digit_char(7)]);
            }
            "7"
        },
        8 => {
            proof {
                reveal_strlit("8");
                assert("8"@ =~= seq![digit_char(8)]);
            }
            "8"
        },
        _ => {
            proof {
                reveal_strlit("9");
                assert("9"@ =~= seq![digit_char(9)]);
            }
            "9"
        },
    }
}

fn push_two_digits(s: &mut String, n: u32)
    requires
        n < 100,
    ensures
        final(s)@ == old(s)@ + two_digits(n as int),
{
    let tens = n / 10;
    let ones = n % 10;
    proof {
        assert(tens < 10 && ones < 10) by (nonlinear_arith)
            requires
                n < 100,
                tens == n / 10,
                ones == n % 10,
        ;
    }
    s.append(digit_str(tens));
    s.append(digit_str(ones));
    proof {
        assert(s@ =~= old(s)@ + two_digits(n as int));
    }
}

/// Formats the header line for a well-formed timestamp.
pub fn format_header(ts: &Timestamp) -> (r: String)
    requires
        ts.wf(),
    ensures
        r@ == header_chars(*ts),
{
    let mut s = String::new();
    s.append("-- [");
    proof {
        assert(ts.year / 100 < 100 && ts.year % 100 < 100) by (nonlinear_arith)
            requires
                ts.year <= 9999,
        ;
    }
    push_two_digits(&mut s, ts.year / 100);
    push_two_digits(&mut s, ts.year % 100);
    s.append("-");
    push_two_digits(&mut s, ts.month);
    s.append("-");
    push_two_digits(&mut s, ts.day);
    s.append(" ");
    push_two_digits(&mut s, ts.hour);
    s.append(":");
    push_two_digits(&mut s, ts.minute);
    s.append(":");
    push_two_digits(&mut s, ts.second);
    s.append("]\n");
    proof {
        assert(s@ =~= header_chars(*ts));
    }
    s
}

} // verus!
