//! Decimal rendering of code points and the selector strings handed to the
//! two Conversion Services.

use vstd::prelude::*;

verus! {

/// The character of one decimal digit.
pub open spec fn digit_char(d: nat) -> char
    recommends
        d < 10,
{
    if d == 0 {
        '0'
    } else if d == 1 {
        '1'
    } else if d == 2 {
        '2'
    } else if d == 3 {
        '3'
    } else if d == 4 {
        '4'
    } else if d == 5 {
        '5'
    } else if d == 6 {
        '6'
    } else if d == 7 {
        '7'
    } else if d == 8 {
        '8'
    } else {
        '9'
    }
}

/// The decimal representation of `n`: most significant digit first, no sign,
/// no leading zero (and "0" for zero).
pub open spec fn dec_rep(n: nat) -> Seq<char>
    decreases n,
{
    if n < 10 {
        seq![digit_char(n)]
    } else {
        dec_rep(n / 10).push(digit_char(n % 10))
    }
}

/// The decimal representations of `points`, joined by the separator `sep`.
pub open spec fn joined_points(points: Seq<u32>, sep: char) -> Seq<char>
    decreases points.len(),
{
    if points.len() == 0 {
        Seq::<char>::empty()
    } else if points.len() == 1 {
        dec_rep(points[0] as nat)
    } else {
        joined_points(points.drop_last(), sep) + seq![sep] + dec_rep(points.last() as nat)
    }
}

/// An inclusive numeric range selector, rendered `low-high`.
pub open spec fn range_rep(lo: u32, hi: u32) -> Seq<char> {
    dec_rep(lo as nat) + seq!['-'] + dec_rep(hi as nat)
}

/// Appends the single decimal digit `d` to `out`.
fn append_digit(out: &mut String, d: u32)
    requires
        d < 10,
    ensures
        final(out)@ == old(out)@ + seq![digit_char(d as nat)],
{
    if d == 0 {
        proof {
            reveal_strlit("0");
        }
        out.append("0");
    } else if d == 1 {
        proof {
            reveal_strlit("1");
        }
        out.append("1");
    } else if d == 2 {
        proof {
            reveal_strlit("2");
        }
        out.append("2");
    } else if d == 3 {
        proof {
            reveal_strlit("3");
        }
        out.append("3");
    } else if d == 4 {
        proof {
            reveal_strlit("4");
        }
        out.append("4");
    } else if d == 5 {
        proof {
            reveal_strlit("5");
        }
        out.append("5");
    } else if d == 6 {
        proof {
            reveal_strlit("6");
        }
        out.append("6");
    } else if d == 7 {
        proof {
            reveal_strlit("7");
        }
        out.append("7");
    } else if d == 8 {
        proof {
            reveal_strlit("8");
        }
        out.append("8");
    } else {
        proof {
            reveal_strlit("9");
        }
        out.append("9");
    }
    proof {
        assert(out@ =~= old(out)@ + seq![digit_char(d as nat)]);
    }
}

/// Appends the decimal representation of `n` to `out`.
fn append_dec(out: &mut String, n: u32)
    ensures
        final(out)@ == old(out)@ + dec_rep(n as nat),
    decreases n,
{
    if n >= 10 {
        append_dec(out, n / 10);
        append_digit(out, n % 10);
        proof {
            assert((n / 10) as nat == n as nat / 10);
            assert((n % 10) as nat == n as nat % 10);
            assert(out@ =~= old(out)@ + dec_rep(n as nat));
        }
    } else {
        append_digit(out, n);
        proof {
            assert(out@ =~= old(out)@ + dec_rep(n as nat));
        }
    }
}

/// Renders `n` in decimal.
pub fn dec_string(n: u32) -> (s: String)
    ensures
        s@ == dec_rep(n as nat),
{
    let mut out = String::new();
    append_dec(&mut out, n);
    proof {
        assert(out@ =~= dec_rep(n as nat));
    }
    out
}

/// Renders the decimal representations of `points` joined by the single
/// character of `sep`.
pub fn join_dec(points: &Vec<u32>, sep: &str) -> (s: String)
    requires
        sep@.len() == 1,
    ensures
        s@ == joined_points(points@, sep@[0]),
{
    let mut out = String::new();
    let n = points.len();
    let mut i: usize = 0;
    proof {
        assert(out@ =~= joined_points(points@.take(0), sep@[0]));
    }
    while i < n
        invariant
            n == points@.len(),
            i <= n,
            sep@.len() == 1,
            out@ == joined_points(points@.take(i as int), sep@[0]),
        decreases n - i,
    {
        if i > 0 {
            out.append(sep);
            proof {
                assert(sep@ =~= seq![sep@[0]]);
            }
        }
        append_dec(&mut out, points[i]);
        proof {
            assert(points@.take(i + 1).drop_last() =~= points@.take(i as int));
            assert(points@.take(i + 1).last() == points@[i as int]);
            if i == 0 {
                assert(joined_points(points@.take(1), sep@[0]) == dec_rep(points@[0] as nat));
            }
            assert(out@ =~= joined_points(points@.take(i + 1), sep@[0]));
        }
        i += 1;
    }
    proof {
        assert(points@.take(n as int) =~= points@);
    }
    out
}

/// Renders the inclusive range selector `low-high`.
pub fn range_string(lo: u32, hi: u32) -> (s: String)
    ensures
        s@ == range_rep(lo, hi),
{
    let mut out = String::new();
    append_dec(&mut out, lo);
    proof {
        reveal_strlit("-");
    }
    out.append("-");
    append_dec(&mut out, hi);
    proof {
        assert(out@ =~= range_rep(lo, hi));
    }
    out
}

} // verus!
