//! Token addresses: the base address followed by the token's number.

use crate::contract::Contract;
use crate::error::SaleError;
use vstd::prelude::*;

verus! {

/// The character that stands for the digit `d`.
pub open spec fn digit_char(d: nat) -> char {
    if d == 0 {
        '0'
    } else if d == 1 {
        '1'
    } else if d == 2 {
        '2'
    } else if d == 3 {
        '3'
    } else if d == 4 {
        '4'
    } else if d == 5 {
        '5'
    } else if d == 6 {
        '6'
    } else if d == 7 {
        '7'
    } else if d == 8 {
        '8'
    } else {
        '9'
    }
}

/// The digits of `n`, the most significant first; none at all for zero.
pub open spec fn digits(n: nat) -> Seq<char>
    decreases n,
{
    if n == 0 {
        Seq::empty()
    } else {
        digits(n / 10).push(digit_char(n % 10))
    }
}

/// The decimal numeral of `n`: no sign, no leading zero, `"0"` for zero.
pub open spec fn decimal(n: nat) -> Seq<char> {
    if n == 0 {
        seq!['0']
    } else {
        digits(n)
    }
}

/// The one-character string that stands for the digit `d`.
fn digit_str(d: u8) -> (r: &'static str)
    requires
        d < 10,
    ensures
        r@ == seq![digit_char(d as nat)],
{
    proof {
        reveal_strlit("0");
        reveal_strlit("1");
        reveal_strlit("2");
        reveal_strlit("3");
        reveal_strlit("4");
        reveal_strlit("5");
        reveal_strlit("6");
        reveal_strlit("7");
        reveal_strlit("8");
        reveal_strlit("9");
    }
    let r = match d {
        0 => "0",
        1 => "1",
        2 => "2",
        3 => "3",
        4 => "4",
        5 => "5",
        6 => "6",
        7 => "7",
        8 => "8",
        _ => "9",
    };
    assert(r@ =~= seq![digit_char(d as nat)]);
    r
}

/// Appends the decimal numeral of `n` to `s`.
pub fn push_decimal(s: &mut String, n: u128)
    ensures
        final(s)@ == old(s)@ + decimal(n as nat),
{
    if n == 0 {
        s.append(digit_str(0));
        return ;
    }
    // The digits of `n`, the least significant first.
    let mut low_first: Vec<u8> = Vec::new();
    let mut rest: u128 = n;
    let ghost mut tail: Seq<char> = Seq::empty();
    while rest > 0
        invariant
            digits(n as nat) == digits(rest as nat) + tail,
            tail.len() == low_first.len(),
            forall|i: int| 0 <= i < low_first.len() ==> low_first[i] < 10,
            forall|i: int|
                0 <= i < tail.len() ==> tail[i] == digit_char(
                    low_first[low_first.len() - 1 - i] as nat,
                ),
        decreases rest,
    {
        let d: u8 = (rest % 10) as u8;
        proof {
            let c = digit_char(d as nat);
            assert(digits(rest as nat) == digits((rest / 10) as nat).push(c));
            assert(digits((rest / 10) as nat).push(c) + tail =~= digits((rest / 10) as nat) + (
            seq![c] + tail));
            tail = seq![c] + tail;
        }
        low_first.push(d);
        rest = rest / 10;
    }
    assert(digits(0) + tail =~= tail);
    let mut i: usize = low_first.len();
    while i > 0
        invariant
            i <= low_first.len(),
            tail.len() == low_first.len(),
            forall|j: int| 0 <= j < low_first.len() ==> low_first[j] < 10,
            forall|j: int|
                0 <= j < tail.len() ==> tail[j] == digit_char(
                    low_first[low_first.len() - 1 - j] as nat,
                ),
            s@ == old(s)@ + tail.take(low_first.len() - i),
        decreases i,
    {
        i = i - 1;
        s.append(digit_str(low_first[i]));
        assert(s@ =~= old(s)@ + tail.take(low_first.len() - i));
    }
    assert(tail.take(tail.len() as int) =~= tail);
}

impl Contract {
    /// The address of the token `token_id`: the base address followed by the
    /// decimal numeral of `token_id`.
    pub fn token_uri(&self, token_id: u128) -> (r: Result<String, SaleError>)
        ensures
            r is Ok,
            r->Ok_0@ == self@.base_uri + decimal(token_id as nat),
    {
        let mut uri = self.base_uri();
        push_decimal(&mut uri, token_id);
        Ok(uri)
    }
}

} // verus!
