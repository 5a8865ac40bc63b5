//! Decimal rendering of unsigned integers and of money amounts held in
//! minor units, proved to produce exactly the usual numerals.

use vstd::prelude::*;

verus! {

/// The character for one decimal digit.
pub open spec fn digit_char(d: nat) -> char {
    if d == 0 {
        '0'
    } else if d == 1 {
        '1'
    } else if d == 2 {
        '2'
    } else if d == 3 {
        '3'
    } else if d == 4 {
        '4'
    } else if d == 5 {
        '5'
    } else if d == 6 {
        '6'
    } else if d == 7 {
        '7'
    } else if d == 8 {
        '8'
    } else {
        '9'
    }
}

/// The usual decimal numeral of `n`: most significant digit first, no
/// leading zeros (zero itself is the single digit `0`).
pub open spec fn dec_str(n: nat) -> Seq<char>
    decreases n,
{
    if n < 10 {
        seq![digit_char(n)]
    } else {
        dec_str(n / 10).push(digit_char(n % 10))
    }
}

/// An amount of `c` minor units with two decimal places: the whole part in
/// decimal, a point, then exactly two digits.
pub open spec fn money_str(c: nat) -> Seq<char> {
    dec_str(c / 100).push('.').push(digit_char((c / 10) % 10)).push(digit_char(c % 10))
}

/// The digits of `ds` (least significant first) read back most significant
/// first, as characters.
spec fn rev_chars(ds: Seq<u64>) -> Seq<char> {
    Seq::new(ds.len(), |i: int| digit_char(ds[ds.len() - 1 - i] as nat))
}

fn digit_to_str(d: u64) -> (r: &'static str)
    requires
        d < 10,
    ensures
        r@ == seq![digit_char(d as nat)],
{
    let r: &'static str = if d == 0 {
        "0"
    } else if d == 1 {
        "1"
    } else if d == 2 {
        "2"
    } else if d == 3 {
        "3"
    } else if d == 4 {
        "4"
    } else if d == 5 {
        "5"
    } else if d == 6 {
        "6"
    } else if d == 7 {
        "7"
    } else if d == 8 {
        "8"
    } else {
        "9"
    };
    proof {
        reveal_strlit("0");
        reveal_strlit("1");
        reveal_strlit("2");
        reveal_strlit("3");
        reveal_strlit("4");
        reveal_strlit("5");
        reveal_strlit("6");
        reveal_strlit("7");
        reveal_strlit("8");
        reveal_strlit("9");
        assert(r@ =~= seq![digit_char(d as nat)]);
    }
    r
}

/// Renders `n` as its decimal numeral.
pub fn u64_to_string(n: u64) -> (s: String)
    ensures
        s@ == dec_str(n as nat),
{
    let mut m: u64 = n;
    let mut rev: Vec<u64> = Vec::new();
    while m >= 10
        invariant
            forall|k: int| 0 <= k < rev@.len() ==> rev@[k] < 10,
            dec_str(n as nat) =~= dec_str(m as nat) + rev_chars(rev@),
        decreases m,
    {
        let d: u64 = m % 10;
        let ghost old_rev = rev@;
        rev.push(d);
        proof {
            assert(rev_chars(rev@) =~= seq![digit_char(d as nat)] + rev_chars(old_rev));
            assert(dec_str(m as nat) =~= dec_str((m / 10) as nat).push(digit_char(d as nat)));
            assert(dec_str((m / 10) as nat) + rev_chars(rev@) =~= dec_str(m as nat) + rev_chars(
                old_rev,
            ));
        }
        m = m / 10;
    }
    let mut s: String = String::new();
    s.append(digit_to_str(m));
    let len: usize = rev.len();
    let mut i: usize = len;
    while i > 0
        invariant
            i <= len,
            len == rev@.len(),
            m < 10,
            forall|k: int| 0 <= k < rev@.len() ==> rev@[k] < 10,
            dec_str(n as nat) =~= seq![digit_char(m as nat)] + rev_chars(rev@),
            s@ =~= seq![digit_char(m as nat)] + rev_chars(rev@).take(len - i),
        decreases i,
    {
        i = i - 1;
        s.append(digit_to_str(rev[i]));
        proof {
            assert(rev_chars(rev@)[len - 1 - i] == digit_char(rev@[i as int] as nat));
            assert(rev_chars(rev@).take(len - i) =~= rev_chars(rev@).take(len - 1 - i).push(
                digit_char(rev@[i as int] as nat),
            ));
            assert(s@ =~= seq![digit_char(m as nat)] + rev_chars(rev@).take(len - i));
        }
    }
    proof {
        assert(rev_chars(rev@).take(len - 0) =~= rev_chars(rev@));
        assert(s@ =~= dec_str(n as nat));
    }
    s
}

/// Renders an amount of `c` minor units with two decimal places.
pub fn cents_to_string(c: u64) -> (s: String)
    ensures
        s@ == money_str(c as nat),
{
    let mut s: String = u64_to_string(c / 100);
    s.append(".");
    s.append(digit_to_str((c / 10) % 10));
    s.append(digit_to_str(c % 10));
    proof {
        reveal_strlit(".");
        assert(s@ =~= money_str(c as nat));
    }
    s
}

} // verus!
