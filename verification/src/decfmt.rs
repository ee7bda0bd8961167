//! Decimal rendering of unsigned integers, with fixed-width zero padding,
//! as the log lines and response bodies need it.
use vstd::prelude::*;

verus! {

/// The character for one decimal digit.
pub open spec fn digit_char(d: nat) -> char {
    if d == 0 {
        '0'
    } else if d == 1 {
        '1'
    } else if d == 2 {
        '2'
    } else if d == 3 {
        '3'
    } else if d == 4 {
        '4'
    } else if d == 5 {
        '5'
    } else if d == 6 {
        '6'
    } else if d == 7 {
        '7'
    } else if d == 8 {
        '8'
    } else {
        '9'
    }
}

/// The decimal digits of `n`, most significant first, no leading zeros
/// (a single `'0'` for zero).
pub open spec fn dec_digits(n: nat) -> Seq<char>
    decreases n,
{
    if n < 10 {
        seq![digit_char(n)]
    } else {
        dec_digits(n / 10).push(digit_char(n % 10))
    }
}

/// The decimal digits of `n`, zero-padded on the left to width two.
pub open spec fn dec_pad2(n: nat) -> Seq<char> {
    if n < 10 {
        seq!['0'] + dec_digits(n)
    } else {
        dec_digits(n)
    }
}

/// The decimal digits of `n`, zero-padded on the left to width four.
pub open spec fn dec_pad4(n: nat) -> Seq<char> {
    if n < 10 {
        seq!['0', '0', '0'] + dec_digits(n)
    } else if n < 100 {
        seq!['0', '0'] + dec_digits(n)
    } else if n < 1000 {
        seq!['0'] + dec_digits(n)
    } else {
        dec_digits(n)
    }
}

/// A one-character string slice for the digit `d`.
pub fn digit_str(d: u64) -> (r: &'static str)
    requires
        d < 10,
    ensures
        r@ == seq![digit_char(d as nat)],
{
    proof {
        reveal_strlit("0");
        reveal_strlit("1");
        reveal_strlit("2");
        reveal_strlit("3");
        reveal_strlit("4");
        reveal_strlit("5");
        reveal_strlit("6");
        reveal_strlit("7");
        reveal_strlit("8");
        reveal_strlit("9");
    }
    match d {
        0 => "0",
        1 => "1",
        2 => "2",
        3 => "3",
        4 => "4",
        5 => "5",
        6 => "6",
        7 => "7",
        8 => "8",
        _ => "9",
    }
}

/// Renders `n` in decimal.
pub fn u64_to_dec(n: u64) -> (r: String)
    ensures
        r@ == dec_digits(n as nat),
    decreases n,
{
    if n < 10 {
        let d = digit_str(n);
        d.to_owned()
    } else {
        let pre = u64_to_dec(n / 10);
        let last = digit_str(n % 10);
        let r = pre.concat(last);
        proof {
            assert(dec_digits(n as nat) =~= dec_digits((n / 10) as nat).push(
                digit_char((n % 10) as nat),
            ));
            assert(dec_digits((n / 10) as nat) + seq![digit_char((n % 10) as nat)] =~= dec_digits(
                (n / 10) as nat,
            ).push(digit_char((n % 10) as nat)));
        }
        r
    }
}

/// Renders `n` in decimal, zero-padded to width two.
pub fn u64_to_dec_pad2(n: u64) -> (r: String)
    ensures
        r@ == dec_pad2(n as nat),
{
    if n < 10 {
        proof {
            reveal_strlit("0");
        }
        let mut s = String::new();
        s.append("0");
        let d = u64_to_dec(n);
        let r = s.concat(d.as_str());
        proof {
            assert(r@ =~= dec_pad2(n as nat));
        }
        r
    } else {
        u64_to_dec(n)
    }
}

/// Renders `n` in decimal, zero-padded to width four.
pub fn u64_to_dec_pad4(n: u64) -> (r: String)
    ensures
        r@ == dec_pad4(n as nat),
{
    proof {
        reveal_strlit("");
        reveal_strlit("0");
        reveal_strlit("00");
        reveal_strlit("000");
    }
    let pad: &str = if n < 10 {
        "000"
    } else if n < 100 {
        "00"
    } else if n < 1000 {
        "0"
    } else {
        ""
    };
    let mut s = pad.to_owned();
    let d = u64_to_dec(n);
    let r = s.concat(d.as_str());
    proof {
        assert(r@ =~= dec_pad4(n as nat));
    }
    r
}

/// No newline ever appears in a decimal rendering: every character of one
/// is a digit.
pub proof fn lemma_dec_digits_newline_free(n: nat)
    ensures
        forall|i: int| 0 <= i < dec_digits(n).len() ==> #[trigger] dec_digits(n)[i] != '\n',
    decreases n,
{
    if n < 10 {
    } else {
        lemma_dec_digits_newline_free(n / 10);
        let prev = dec_digits(n / 10);
        let whole = dec_digits(n);
        assert(whole =~= prev.push(digit_char(n % 10)));
        assert forall|i: int| 0 <= i < whole.len() implies #[trigger] whole[i] != '\n' by {
            if i < prev.len() {
                assert(whole[i] == prev[i]);
            } else {
                assert(whole[i] == digit_char(n % 10));
            }
        }
    }
}

} // verus!
