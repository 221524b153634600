//! Calendar dates as plain values, and their rendering in the form
//! `YYYY-MM-DD` that the post pages show (date only, never a time component).
use vstd::prelude::*;
use vstd::string::StringExecFns;

verus! {

/// A calendar date, as decoded from post metadata. Only the date component of
/// a metadata timestamp is kept; any time-of-day part is discarded upstream.
#[derive(Clone, Copy, Debug, PartialEq, Eq, Structural)]
pub struct Date {
    pub year: u16,
    pub month: u8,
    pub day: u8,
}

/// The decimal digit `d` as a character, for `0 <= d <= 9`.
pub open spec fn digit_char(d: int) -> char {
    if d == 0 {
        '0'
    } else if d == 1 {
        '1'
    } else if d == 2 {
        '2'
    } else if d == 3 {
        '3'
    } else if d == 4 {
        '4'
    } else if d == 5 {
        '5'
    } else if d == 6 {
        '6'
    } else if d == 7 {
        '7'
    } else if d == 8 {
        '8'
    } else {
        '9'
    }
}

/// The decimal rendering of `n >= 0`, without padding or sign.
pub open spec fn dec_str(n: int) -> Seq<char>
    decreases n,
{
    if n < 10 {
        seq![digit_char(n)]
    } else {
        dec_str(n / 10).push(digit_char(n % 10))
    }
}

/// `n` rendered zero-padded to at least four digits.
pub open spec fn padded4(n: int) -> Seq<char> {
    if n < 10 {
        seq!['0', '0', '0'] + dec_str(n)
    } else if n < 100 {
        seq!['0', '0'] + dec_str(n)
    } else if n < 1000 {
        seq!['0'] + dec_str(n)
    } else {
        dec_str(n)
    }
}

/// `n` rendered zero-padded to at least two digits.
pub open spec fn padded2(n: int) -> Seq<char> {
    if n < 10 {
        seq!['0'] + dec_str(n)
    } else {
        dec_str(n)
    }
}

/// A date in the form `YYYY-MM-DD`: zero-padded year, month and day joined
/// by hyphens.
pub open spec fn date_string(d: Date) -> Seq<char> {
    padded4(d.year as int) + seq!['-'] + padded2(d.month as int) + seq!['-'] + padded2(
        d.day as int,
    )
}

/// The single decimal digit `d` as a string slice.
fn digit_str(d: u8) -> (r: &'static str)
    requires
        d <= 9,
    ensures
        r@ == seq![digit_char(d as int)],
{
    proof {
        reveal_strlit("0");
        reveal_strlit("1");
        reveal_strlit("2");
        reveal_strlit("3");
        reveal_strlit("4");
        reveal_strlit("5");
        reveal_strlit("6");
        reveal_strlit("7");
        reveal_strlit("8");
        reveal_strlit("9");
    }
    let r: &'static str = if d == 0 {
        "0"
    } else if d == 1 {
        "1"
    } else if d == 2 {
        "2"
    } else if d == 3 {
        "3"
    } else if d == 4 {
        "4"
    } else if d == 5 {
        "5"
    } else if d == 6 {
        "6"
    } else if d == 7 {
        "7"
    } else if d == 8 {
        "8"
    } else {
        "9"
    };
    proof {
        assert(r@ =~= seq![digit_char(d as int)]);
    }
    r
}

/// Appends the decimal rendering of `n` to `out`.
pub fn push_dec(out: &mut String, n: u16)
    ensures
        final(out)@ == old(out)@ + dec_str(n as int),
    decreases n,
{
    if n >= 10 {
        push_dec(out, n / 10);
    }
    out.append(digit_str((n % 10) as u8));
    proof {
        if n < 10 {
            assert(final(out)@ =~= old(out)@ + dec_str(n as int));
        } else {
            assert(final(out)@ =~= old(out)@ + dec_str(n as int));
        }
    }
}

/// The decimal rendering of `n` as a fresh string.
pub fn dec_string(n: u16) -> (r: String)
    ensures
        r@ == dec_str(n as int),
{
    let mut out = String::new();
    push_dec(&mut out, n);
    proof {
        assert(out@ =~= dec_str(n as int));
    }
    out
}

/// Appends `n` zero-padded to at least four digits.
fn push_padded4(out: &mut String, n: u16)
    ensures
        final(out)@ == old(out)@ + padded4(n as int),
{
    proof {
        reveal_strlit("0");
        reveal_strlit("00");
        reveal_strlit("000");
    }
    if n < 10 {
        out.append("000");
        proof {
            assert("000"@ =~= seq!['0', '0', '0']);
        }
    } else if n < 100 {
        out.append("00");
        proof {
            assert("00"@ =~= seq!['0', '0']);
        }
    } else if n < 1000 {
        out.append("0");
        proof {
            assert("0"@ =~= seq!['0']);
        }
    }
    push_dec(out, n);
    proof {
        assert(final(out)@ =~= old(out)@ + padded4(n as int));
    }
}

/// Appends `n` zero-padded to at least two digits.
fn push_padded2(out: &mut String, n: u8)
    ensures
        final(out)@ == old(out)@ + padded2(n as int),
{
    proof {
        reveal_strlit("0");
    }
    if n < 10 {
        out.append("0");
        proof {
            assert("0"@ =~= seq!['0']);
        }
    }
    push_dec(out, n as u16);
    proof {
        assert(final(out)@ =~= old(out)@ + padded2(n as int));
    }
}

impl Date {
    /// Renders the date as `YYYY-MM-DD`.
    pub fn render(&self) -> (r: String)
        ensures
            r@ == date_string(*self),
    {
        proof {
            reveal_strlit("-");
        }
        let mut out = String::new();
        push_padded4(&mut out, self.year);
        out.append("-");
        push_padded2(&mut out, self.month);
        out.append("-");
        push_padded2(&mut out, self.day);
        proof {
            assert("-"@ =~= seq!['-']);
            assert(out@ =~= date_string(*self));
        }
        out
    }
}

} // verus!
