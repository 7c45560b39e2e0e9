//! Small shared helpers.

use vstd::prelude::*;

verus! {

/// One of two alternatives, for racing two event sources.
#[derive(Debug)]
pub enum Either<L, R> {
    Left(L),
    Right(R),
}

/// The decimal digit character for `d`.
pub open spec fn digit_char(d: nat) -> char {
    if d == 0 {
        '0'
    } else if d == 1 {
        '1'
    } else if d == 2 {
        '2'
    } else if d == 3 {
        '3'
    } else if d == 4 {
        '4'
    } else if d == 5 {
        '5'
    } else if d == 6 {
        '6'
    } else if d == 7 {
        '7'
    } else if d == 8 {
        '8'
    } else {
        '9'
    }
}

/// The decimal digits of `n`, most significant first.
pub open spec fn dec_digits(n: nat) -> Seq<char>
    decreases n,
{
    if n < 10 {
        seq![digit_char(n)]
    } else {
        dec_digits(n / 10) + seq![digit_char(n % 10)]
    }
}

/// The decimal digits of `n`, zero-padded on the left to at least two.
pub open spec fn dec_pad2(n: nat) -> Seq<char> {
    if n < 10 {
        seq!['0'] + dec_digits(n)
    } else {
        dec_digits(n)
    }
}

/// A position in milliseconds as clock text: `MM:SS`, or `HH:MM:SS` once a
/// full hour has passed.
pub open spec fn duration_text(ms: u32) -> Seq<char> {
    let total = ms as nat / 1000;
    let h = total / 3600;
    let m = (total / 60) % 60;
    let s = total % 60;
    if h > 0 {
        dec_pad2(h) + seq![':'] + dec_pad2(m) + seq![':'] + dec_pad2(s)
    } else {
        dec_pad2(m) + seq![':'] + dec_pad2(s)
    }
}

/// The one-character string for a decimal digit.
fn digit_str(d: u32) -> (r: &'static str)
    requires
        d < 10,
    ensures
        r@ == seq![digit_char(d as nat)],
{
    proof {
        reveal_strlit("0");
        reveal_strlit("1");
        reveal_strlit("2");
        reveal_strlit("3");
        reveal_strlit("4");
        reveal_strlit("5");
        reveal_strlit("6");
        reveal_strlit("7");
        reveal_strlit("8");
        reveal_strlit("9");
    }
    let r = if d == 0 {
        "0"
    } else if d == 1 {
        "1"
    } else if d == 2 {
        "2"
    } else if d == 3 {
        "3"
    } else if d == 4 {
        "4"
    } else if d == 5 {
        "5"
    } else if d == 6 {
        "6"
    } else if d == 7 {
        "7"
    } else if d == 8 {
        "8"
    } else {
        "9"
    };
    proof {
        assert(r@ =~= seq![digit_char(d as nat)]);
    }
    r
}

/// Append the decimal digits of `n`.
fn push_dec(out: &mut String, n: u32)
    ensures
        final(out)@ == old(out)@ + dec_digits(n as nat),
    decreases n,
{
    if n >= 10 {
        push_dec(out, n / 10);
    }
    let d = digit_str(n % 10);
    out.append(d);
    proof {
        assert(final(out)@ =~= old(out)@ + dec_digits(n as nat));
    }
}

/// Append the decimal digits of `n`, zero-padded to at least two.
fn push_pad2(out: &mut String, n: u32)
    ensures
        final(out)@ == old(out)@ + dec_pad2(n as nat),
{
    if n < 10 {
        proof {
            reveal_strlit("0");
        }
        out.append("0");
        proof {
            assert("0"@ =~= seq!['0']);
        }
    }
    push_dec(out, n);
    proof {
        assert(final(out)@ =~= old(out)@ + dec_pad2(n as nat));
    }
}

/// Render a position in milliseconds as clock text.
pub fn format_duration(s: u32) -> (r: String)
    ensures
        r@ == duration_text(s),
{
    let secs = s / 1000;
    let h = secs / (60 * 60);
    let m = (secs / 60) % 60;
    let sec = secs % 60;
    let mut out = String::new();
    proof {
        reveal_strlit(":");
    }
    if h > 0 {
        push_pad2(&mut out, h);
        out.append(":");
    }
    push_pad2(&mut out, m);
    out.append(":");
    push_pad2(&mut out, sec);
    proof {
        assert(":"@ =~= seq![':']);
        assert(out@ =~= duration_text(s));
    }
    out
}

} // verus!
