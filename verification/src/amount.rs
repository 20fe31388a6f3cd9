//! Token amounts: unsigned 256-bit integers, written in decimal on the wire.

use vstd::prelude::*;

verus! {

/// One more than the largest amount: 2^256.
pub open spec fn amount_limit() -> nat {
    0x1_0000_0000_0000_0000_0000_0000_0000_0000_0000_0000_0000_0000_0000_0000_0000_0000nat
}

/// The number that four 64-bit limbs stand for, least significant limb first.
pub open spec fn limbs_value(limbs: [u64; 4]) -> nat {
    (limbs[0] as nat) + (limbs[1] as nat) * 0x1_0000_0000_0000_0000nat
        + (limbs[2] as nat) * 0x1_0000_0000_0000_0000_0000_0000_0000_0000nat
        + (limbs[3] as nat) * 0x1_0000_0000_0000_0000_0000_0000_0000_0000_0000_0000_0000_0000nat
}

/// Whether `c` is one of the ASCII digits `0` to `9`.
pub open spec fn is_digit(c: char) -> bool {
    48 <= c as int <= 57
}

/// The digit that the character `c` writes.
pub open spec fn digit_value(c: char) -> nat {
    (c as int - 48) as nat
}

/// The character that writes the digit `d`, for `d` below ten.
pub open spec fn digit_char(d: nat) -> char {
    (48 + d) as u8 as char
}

/// Whether every character of `s` is an ASCII digit. The empty string is.
pub open spec fn is_decimal(s: Seq<char>) -> bool {
    forall|i: int| 0 <= i < s.len() ==> is_digit(#[trigger] s[i])
}

/// The number that the digits of `s` write in base ten; the empty string writes zero.
pub open spec fn decimal_value(s: Seq<char>) -> nat
    decreases s.len(),
{
    if s.len() == 0 {
        0
    } else {
        decimal_value(s.drop_last()) * 10 + digit_value(s.last())
    }
}

/// The shortest decimal writing of `n`: no leading zero, and `0` for zero.
pub open spec fn decimal_digits(n: nat) -> Seq<char>
    decreases n,
{
    if n < 10 {
        seq![digit_char(n)]
    } else {
        decimal_digits(n / 10).push(digit_char(n % 10))
    }
}

/// Reading back the decimal writing of a number gives that number.
pub proof fn lemma_decimal_round_trip(n: nat)
    ensures
        is_decimal(decimal_digits(n)),
        decimal_value(decimal_digits(n)) == n,
        decimal_digits(n).len() > 0,
    decreases n,
{
    let s = decimal_digits(n);
    if n < 10 {
        assert(s.len() == 1);
        assert(s.drop_last().len() == 0);
        assert(s.last() == digit_char(n));
        assert(decimal_value(s.drop_last()) == 0);
    } else {
        lemma_decimal_round_trip(n / 10);
        let head = decimal_digits(n / 10);
        assert(s.drop_last() =~= head);
        assert(s.last() == digit_char(n % 10));
        assert forall|i: int| 0 <= i < s.len() implies is_digit(#[trigger] s[i]) by {
            if i < head.len() {
                assert(s[i] == head[i]);
            }
        }
    }
}

/// A token amount: an unsigned integer below 2^256.
#[derive(Clone, Copy, Debug, PartialEq, Eq)]
pub struct Amount {
    limbs: [u64; 4],
}

impl View for Amount {
    type V = nat;

    closed spec fn view(&self) -> nat {
        limbs_value(self.limbs)
    }
}

/// Parses a decimal amount with `Amount::from_str` of ibc's transfer types,
/// which reads the string with `U256::from_dec_str`: every byte must be an
/// ASCII digit and the number must fit in 256 bits. The limbs that come back
/// are those of the parsed number.
#[verifier::external_body]
fn parse_decimal(s: &str) -> (r: Option<Amount>)
    ensures
        match r {
            Some(a) => is_decimal(s@) && decimal_value(s@) < amount_limit() && a@ == decimal_value(s@),
            None => !(is_decimal(s@) && decimal_value(s@) < amount_limit()),
        },
{
    s.parse::<ibc::apps::transfer::types::Amount>().ok().map(|a| Amount { limbs: *a })
}

/// Writes an amount with the `Display` of ibc's transfer `Amount`, which is
/// that of `U256`: the decimal digits without a leading zero, `0` for zero.
#[verifier::external_body]
fn format_decimal(a: &Amount) -> (r: String)
    ensures
        r@ == decimal_digits(a@),
{
    ibc::apps::transfer::types::Amount::from(a.limbs).to_string()
}

impl Amount {
    /// The amount whose limbs are `limbs`, least significant first.
    pub fn from_limbs(limbs: [u64; 4]) -> (r: Amount)
        ensures
            r@ == limbs_value(limbs),
            r.spec_limbs() == limbs,
    {
        Amount { limbs }
    }

    /// The limbs of this amount in specifications.
    pub closed spec fn spec_limbs(&self) -> [u64; 4] {
        self.limbs
    }

    /// The four 64-bit limbs of this amount, least significant first.
    pub fn limbs(&self) -> (r: [u64; 4])
        ensures
            r == self.spec_limbs(),
            limbs_value(r) == self@,
    {
        self.limbs
    }

    /// The amount `v`.
    pub fn from_u64(v: u64) -> (r: Amount)
        ensures
            r@ == v,
    {
        Amount { limbs: [v, 0, 0, 0] }
    }

    /// Reads an amount written in decimal. `None` when a character is not an
    /// ASCII digit or the number does not fit in 256 bits.
    pub fn from_decimal(s: &str) -> (r: Option<Amount>)
        ensures
            r is Some <==> is_decimal(s@) && decimal_value(s@) < amount_limit(),
            r matches Some(a) ==> a@ == decimal_value(s@),
    {
        parse_decimal(s)
    }

    /// Writes this amount in decimal, without a leading zero.
    pub fn to_decimal(&self) -> (r: String)
        ensures
            r@ == decimal_digits(self@),
    {
        format_decimal(self)
    }
}

/// Every amount is below 2^256.
pub proof fn lemma_amount_below_limit(a: Amount)
    ensures
        a@ < amount_limit(),
{
}

/// An amount written with `to_decimal` is read back by `from_decimal` as the
/// same amount.
pub proof fn lemma_amount_decimal_round_trip(a: Amount)
    ensures
        is_decimal(decimal_digits(a@)),
        decimal_value(decimal_digits(a@)) == a@,
        decimal_value(decimal_digits(a@)) < amount_limit(),
{
    lemma_decimal_round_trip(a@);
    lemma_amount_below_limit(a);
}

} // verus!
