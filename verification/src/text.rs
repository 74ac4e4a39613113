//! Decimal rendering of integers, used for frame file names, directory
//! labels and error messages.

use vstd::prelude::*;

verus! {

/// The character for one decimal digit.
pub open spec fn digit_char(d: int) -> char {
    if d == 0 {
        '0'
    } else if d == 1 {
        '1'
    } else if d == 2 {
        '2'
    } else if d == 3 {
        '3'
    } else if d == 4 {
        '4'
    } else if d == 5 {
        '5'
    } else if d == 6 {
        '6'
    } else if d == 7 {
        '7'
    } else if d == 8 {
        '8'
    } else {
        '9'
    }
}

/// Decimal representation of `n`, most significant digit first,
/// without leading zeros.
pub open spec fn dec_rep(n: nat) -> Seq<char>
    decreases n,
{
    if n < 10 {
        seq![digit_char(n as int)]
    } else {
        dec_rep(n / 10).push(digit_char((n % 10) as int))
    }
}

/// Decimal representation of a signed value: a minus sign before the
/// magnitude when the value is negative.
pub open spec fn dec_rep_signed(i: int) -> Seq<char> {
    if i < 0 {
        seq!['-'] + dec_rep((-i) as nat)
    } else {
        dec_rep(i as nat)
    }
}

/// `n` zero-padded on the left to at least two digits.
pub open spec fn pad2_rep(n: nat) -> Seq<char> {
    if n < 10 {
        seq!['0'] + dec_rep(n)
    } else {
        dec_rep(n)
    }
}

/// `n` zero-padded on the left to at least four digits.
pub open spec fn pad4_rep(n: nat) -> Seq<char> {
    if n < 10 {
        seq!['0', '0', '0'] + dec_rep(n)
    } else if n < 100 {
        seq!['0', '0'] + dec_rep(n)
    } else if n < 1000 {
        seq!['0'] + dec_rep(n)
    } else {
        dec_rep(n)
    }
}

/// The decimal representation of a small value is one digit, of a larger
/// value at least two.
pub proof fn lemma_dec_rep_len(n: nat)
    ensures
        n < 10 ==> dec_rep(n).len() == 1,
        n >= 10 ==> dec_rep(n).len() >= 2,
    decreases n,
{
    if n >= 10 {
        lemma_dec_rep_len(n / 10);
    }
}

/// A decimal representation is nonempty and ends in the digit of the
/// value's last place.
pub proof fn lemma_dec_rep_last(n: nat)
    ensures
        dec_rep(n).len() >= 1,
        dec_rep(n).last() == digit_char((n % 10) as int),
{
    if n < 10 {
        assert(n % 10 == n);
    }
}

/// Distinct values have distinct decimal representations.
pub proof fn lemma_dec_rep_injective(m: nat, n: nat)
    ensures
        dec_rep(m) == dec_rep(n) ==> m == n,
    decreases m + n,
{
    lemma_dec_rep_len(m);
    lemma_dec_rep_len(n);
    if m >= 10 && n >= 10 {
        lemma_dec_rep_injective(m / 10, n / 10);
        if dec_rep(m) == dec_rep(n) {
            assert(dec_rep(m).drop_last() =~= dec_rep(m / 10));
            assert(dec_rep(n).drop_last() =~= dec_rep(n / 10));
            assert(dec_rep(m).last() == digit_char((m % 10) as int));
            assert(m % 10 == n % 10);
            assert(m == (m / 10) * 10 + m % 10) by (nonlinear_arith);
            assert(n == (n / 10) * 10 + n % 10) by (nonlinear_arith);
        }
    } else if m < 10 && n < 10 {
        if m != n {
            assert(digit_char(m as int) != digit_char(n as int));
            assert(dec_rep(m)[0] == digit_char(m as int));
        }
    }
}

/// A one-character string slice for one decimal digit.
fn digit_str(d: u64) -> (s: &'static str)
    requires
        d < 10,
    ensures
        s@ == seq![digit_char(d as int)],
{
    proof {
        reveal_strlit("0");
        reveal_strlit("1");
        reveal_strlit("2");
        reveal_strlit("3");
        reveal_strlit("4");
        reveal_strlit("5");
        reveal_strlit("6");
        reveal_strlit("7");
        reveal_strlit("8");
        reveal_strlit("9");
        assert("0"@ =~= seq![digit_char(0)]);
        assert("1"@ =~= seq![digit_char(1)]);
        assert("2"@ =~= seq![digit_char(2)]);
        assert("3"@ =~= seq![digit_char(3)]);
        assert("4"@ =~= seq![digit_char(4)]);
        assert("5"@ =~= seq![digit_char(5)]);
        assert("6"@ =~= seq![digit_char(6)]);
        assert("7"@ =~= seq![digit_char(7)]);
        assert("8"@ =~= seq![digit_char(8)]);
        assert("9"@ =~= seq![digit_char(9)]);
    }
    match d {
        0 => "0",
        1 => "1",
        2 => "2",
        3 => "3",
        4 => "4",
        5 => "5",
        6 => "6",
        7 => "7",
        8 => "8",
        _ => "9",
    }
}

/// Appends the decimal representation of `n` to `s`.
pub fn push_dec_u64(s: &mut String, n: u64)
    ensures
        final(s)@ == old(s)@ + dec_rep(n as nat),
    decreases n,
{
    if n >= 10 {
        push_dec_u64(s, n / 10);
    }
    let ds = digit_str(n % 10);
    s.append(ds);
    proof {
        if n < 10 {
            assert(old(s)@ + seq![digit_char(n as int)] =~= old(s)@ + dec_rep(n as nat));
        } else {
            assert(old(s)@ + dec_rep((n / 10) as nat) + seq![digit_char((n % 10) as int)] =~= old(
                s,
            )@ + dec_rep(n as nat));
        }
    }
}

/// The decimal representation of `n` as a fresh string.
pub fn u64_to_dec(n: u64) -> (s: String)
    ensures
        s@ == dec_rep(n as nat),
{
    let mut s = String::new();
    push_dec_u64(&mut s, n);
    proof {
        assert(Seq::<char>::empty() + dec_rep(n as nat) =~= dec_rep(n as nat));
    }
    s
}

/// Appends the signed decimal representation of `i` to `s`.
pub fn push_dec_i64(s: &mut String, i: i64)
    ensures
        final(s)@ == old(s)@ + dec_rep_signed(i as int),
{
    if i < 0 {
        proof {
            reveal_strlit("-");
            assert("-"@ =~= seq!['-']);
        }
        s.append("-");
        let magnitude: u64 = if i == i64::MIN {
            9223372036854775808u64
        } else {
            (-i) as u64
        };
        push_dec_u64(s, magnitude);
        proof {
            assert(old(s)@ + seq!['-'] + dec_rep(magnitude as nat) =~= old(s)@ + dec_rep_signed(
                i as int,
            ));
        }
    } else {
        push_dec_u64(s, i as u64);
    }
}

/// Appends `n` zero-padded to at least two digits to `s`.
pub fn push_pad2(s: &mut String, n: u64)
    ensures
        final(s)@ == old(s)@ + pad2_rep(n as nat),
{
    if n < 10 {
        proof {
            reveal_strlit("0");
            assert("0"@ =~= seq!['0']);
        }
        s.append("0");
    }
    push_dec_u64(s, n);
    proof {
        if n < 10 {
            assert(old(s)@ + seq!['0'] + dec_rep(n as nat) =~= old(s)@ + pad2_rep(n as nat));
        }
    }
}

/// Appends `n` zero-padded to at least four digits to `s`.
pub fn push_pad4(s: &mut String, n: u64)
    ensures
        final(s)@ == old(s)@ + pad4_rep(n as nat),
{
    proof {
        reveal_strlit("000");
        reveal_strlit("00");
        reveal_strlit("0");
        assert("000"@ =~= seq!['0', '0', '0']);
        assert("00"@ =~= seq!['0', '0']);
        assert("0"@ =~= seq!['0']);
    }
    if n < 10 {
        s.append("000");
    } else if n < 100 {
        s.append("00");
    } else if n < 1000 {
        s.append("0");
    }
    push_dec_u64(s, n);
    proof {
        if n < 10 {
            assert(old(s)@ + seq!['0', '0', '0'] + dec_rep(n as nat) =~= old(s)@ + pad4_rep(
                n as nat,
            ));
        } else if n < 100 {
            assert(old(s)@ + seq!['0', '0'] + dec_rep(n as nat) =~= old(s)@ + pad4_rep(n as nat));
        } else if n < 1000 {
            assert(old(s)@ + seq!['0'] + dec_rep(n as nat) =~= old(s)@ + pad4_rep(n as nat));
        }
    }
}

} // verus!
