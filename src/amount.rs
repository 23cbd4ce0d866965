use vstd::prelude::*;

verus! {

/// 2^64, the radix of one word of an [`Amount`].
pub open spec fn word() -> nat {
    0x1_0000_0000_0000_0000
}

/// The largest value an [`Amount`] holds: 2^256 - 1.
pub open spec fn amount_max() -> nat {
    (word() * word() * word() * word() - 1) as nat
}

/// Clamps a mathematical integer into `[0, 2^256 - 1]`.
pub open spec fn clamp_amount(x: int) -> nat {
    if x < 0 {
        0
    } else if x > amount_max() {
        amount_max()
    } else {
        x as nat
    }
}

/// Big-endian unsigned integer of a byte sequence.
pub open spec fn be_value(s: Seq<u8>) -> nat
    decreases s.len(),
{
    if s.len() == 0 {
        0
    } else {
        be_value(s.drop_last()) * 256 + s.last() as nat
    }
}

/// Whether `c` is one of the ASCII digits `0` to `9`.
pub open spec fn is_dec_digit(c: char) -> bool {
    '0' <= c && c <= '9'
}

pub open spec fn digit_value(c: char) -> nat {
    (c as u32 - '0' as u32) as nat
}

pub open spec fn digit_char(d: nat) -> char {
    if d == 0 { '0' } else if d == 1 { '1' } else if d == 2 { '2' } else if d == 3 { '3' }
    else if d == 4 { '4' } else if d == 5 { '5' } else if d == 6 { '6' } else if d == 7 { '7' }
    else if d == 8 { '8' } else { '9' }
}

/// Whether every character of `s` is a decimal digit.
pub open spec fn all_dec_digits(s: Seq<char>) -> bool {
    forall|i: int| 0 <= i < s.len() ==> is_dec_digit(#[trigger] s[i])
}

/// The number that a string of decimal digits denotes (empty text denotes 0).
pub open spec fn dec_value(s: Seq<char>) -> nat
    decreases s.len(),
{
    if s.len() == 0 {
        0
    } else {
        dec_value(s.drop_last()) * 10 + digit_value(s.last())
    }
}

/// The decimal text of `n`: its digits, most significant first, with no
/// leading zero (zero itself is written `0`).
pub open spec fn dec_text(n: nat) -> Seq<char>
    decreases n,
{
    if n < 10 {
        seq![digit_char(n)]
    } else {
        dec_text(n / 10).push(digit_char(n % 10))
    }
}

/// An unsigned 256-bit integer held as four little-endian 64-bit words.
#[derive(Clone, Copy, Debug, PartialEq, Eq, Structural)]
pub struct Amount {
    pub w0: u64,
    pub w1: u64,
    pub w2: u64,
    pub w3: u64,
}

impl Amount {
    /// The number this amount denotes.
    pub open spec fn value(&self) -> nat {
        self.w0 as nat + word() * (self.w1 as nat + word() * (self.w2 as nat + word() * self.w3 as nat))
    }

    /// Zero.
    pub fn zero() -> (r: Amount)
        ensures
            r.value() == 0,
    {
        Amount { w0: 0, w1: 0, w2: 0, w3: 0 }
    }
}

/// Every amount lies in `[0, 2^256 - 1]`.
pub proof fn lemma_value_bounded(a: Amount)
    ensures
        a.value() <= amount_max(),
{
    let w = word() as int;
    let x0 = a.w0 as int;
    let x1 = a.w1 as int;
    let x2 = a.w2 as int;
    let x3 = a.w3 as int;
    assert(x2 + w * x3 <= w * w - 1) by (nonlinear_arith)
        requires 0 <= x2 < w, 0 <= x3 < w;
    assert(x1 + w * (x2 + w * x3) <= w * w * w - 1) by (nonlinear_arith)
        requires 0 <= x1 < w, 0 <= x2 + w * x3 <= w * w - 1, w > 0;
    assert(x0 + w * (x1 + w * (x2 + w * x3)) <= w * w * w * w - 1) by (nonlinear_arith)
        requires 0 <= x0 < w, 0 <= x1 + w * (x2 + w * x3) <= w * w * w - 1, w > 0;
}

/// Relies on `U256::saturating_add` of the `uint` crate (re-exported by
/// ethers): the sum, or `U256::MAX` when the sum overflows.
#[verifier::external_body]
fn u256_saturating_add(a: Amount, b: Amount) -> (r: Amount)
    ensures
        r.value() == clamp_amount(a.value() as int + b.value() as int),
{
    let x = ethers::types::U256([a.w0, a.w1, a.w2, a.w3]);
    let y = ethers::types::U256([b.w0, b.w1, b.w2, b.w3]);
    let s = x.saturating_add(y);
    Amount { w0: s.0[0], w1: s.0[1], w2: s.0[2], w3: s.0[3] }
}

/// Relies on `U256::saturating_sub` of the `uint` crate: the difference, or
/// zero when the subtrahend is the larger.
#[verifier::external_body]
fn u256_saturating_sub(a: Amount, b: Amount) -> (r: Amount)
    ensures
        r.value() == clamp_amount(a.value() - b.value()),
{
    let x = ethers::types::U256([a.w0, a.w1, a.w2, a.w3]);
    let y = ethers::types::U256([b.w0, b.w1, b.w2, b.w3]);
    let s = x.saturating_sub(y);
    Amount { w0: s.0[0], w1: s.0[1], w2: s.0[2], w3: s.0[3] }
}

/// Relies on `From<u128> for U256` of the `uint` crate: the same number.
#[verifier::external_body]
fn u256_from_u128(v: u128) -> (r: Amount)
    ensures
        r.value() == v,
{
    let s = ethers::types::U256::from(v);
    Amount { w0: s.0[0], w1: s.0[1], w2: s.0[2], w3: s.0[3] }
}

/// Relies on `U256::from_big_endian` of the `uint` crate: the big-endian
/// number of at most 32 bytes (it panics on a longer slice).
#[verifier::external_body]
fn u256_from_big_endian(bytes: &[u8]) -> (r: Amount)
    requires
        bytes@.len() <= 32,
    ensures
        r.value() == be_value(bytes@),
{
    let s = ethers::types::U256::from_big_endian(bytes);
    Amount { w0: s.0[0], w1: s.0[1], w2: s.0[2], w3: s.0[3] }
}

/// Relies on `U256::from_dec_str` of the `uint` crate: it accepts exactly the
/// all-digit texts whose number fits in 256 bits (the empty text reads as 0).
#[verifier::external_body]
fn u256_from_dec_str(s: &str) -> (r: Option<Amount>)
    ensures
        r.is_some() <==> (all_dec_digits(s@) && dec_value(s@) <= amount_max()),
        r matches Some(a) ==> a.value() == dec_value(s@),
{
    match ethers::types::U256::from_dec_str(s) {
        Ok(v) => Some(Amount { w0: v.0[0], w1: v.0[1], w2: v.0[2], w3: v.0[3] }),
        Err(_) => None,
    }
}

/// Relies on `Display for U256` of the `uint` crate: the decimal digits, with
/// no sign, padding or leading zero.
#[verifier::external_body]
fn u256_to_dec_string(a: Amount) -> (r: String)
    ensures
        r@ == dec_text(a.value()),
{
    ethers::types::U256([a.w0, a.w1, a.w2, a.w3]).to_string()
}

impl Amount {
    /// Reads a big-endian number of at most 32 bytes.
    pub fn from_be_bytes(bytes: &[u8]) -> (r: Amount)
        requires
            bytes@.len() <= 32,
        ensures
            r.value() == be_value(bytes@),
    {
        u256_from_big_endian(bytes)
    }

    /// Parses decimal text; `None` where a character is not a digit or the
    /// number exceeds 2^256 - 1.
    pub fn parse_decimal(s: &str) -> (r: Option<Amount>)
        ensures
            r.is_some() <==> (all_dec_digits(s@) && dec_value(s@) <= amount_max()),
            r matches Some(a) ==> a.value() == dec_value(s@),
    {
        u256_from_dec_str(s)
    }

    /// The decimal text of this amount.
    pub fn to_decimal(&self) -> (r: String)
        ensures
            r@ == dec_text(self.value()),
    {
        u256_to_dec_string(*self)
    }

    /// Saturating addition: the sum, or 2^256 - 1 where it overflows.
    pub fn saturating_add(self, other: Amount) -> (r: Amount)
        ensures
            r.value() == clamp_amount(self.value() as int + other.value() as int),
    {
        u256_saturating_add(self, other)
    }

    /// Floor-clamped subtraction: the difference, or 0 where it would be
    /// negative.
    pub fn saturating_sub(self, other: Amount) -> (r: Amount)
        ensures
            r.value() == clamp_amount(self.value() - other.value()),
    {
        u256_saturating_sub(self, other)
    }

    /// The amount of an unsigned 128-bit integer.
    pub fn from_u128(v: u128) -> (r: Amount)
        ensures
            r.value() == v,
    {
        u256_from_u128(v)
    }
}

} // verus!
