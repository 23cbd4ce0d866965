use vstd::prelude::*;
use crate::amount::{Amount, amount_max, clamp_amount, dec_text, dec_value, all_dec_digits, word, lemma_value_bounded};

verus! {

/// Clamps a mathematical integer into the range of `i128`.
pub open spec fn clamp_i128(x: int) -> int {
    if x < i128::MIN { i128::MIN as int } else if x > i128::MAX { i128::MAX as int } else { x }
}

/// What one transfer contributes to a block's delta: its value, capped at
/// `i128::MAX`.
pub open spec fn capped(a: Amount) -> int {
    if a.value() > i128::MAX { i128::MAX as int } else { a.value() as int }
}

/// One decoded, classified transfer as the accumulator sees it.
#[derive(Clone, Copy, Debug, PartialEq, Eq, Structural)]
pub struct FlowEntry {
    pub value: Amount,
    pub is_inflow: bool,
    pub is_outflow: bool,
    /// Whether storing the transfer added a new row; a transfer that was
    /// already stored has been counted before and contributes nothing.
    pub newly_stored: bool,
}

/// The delta after adding one entry to the running delta `d`.
pub open spec fn step_delta(d: int, e: FlowEntry) -> int {
    let d1 = if e.newly_stored && e.is_inflow { clamp_i128(d + capped(e.value)) } else { d };
    if e.newly_stored && e.is_outflow { clamp_i128(d1 - capped(e.value)) } else { d1 }
}

/// A block's signed delta: inflows added and outflows subtracted in order,
/// each step saturating at the bounds of `i128`.
pub open spec fn block_delta_of(s: Seq<FlowEntry>) -> int
    decreases s.len(),
{
    if s.len() == 0 {
        0
    } else {
        step_delta(block_delta_of(s.drop_last()), s.last())
    }
}

/// The cumulative value after a delta: `max(0, min(2^256 - 1, old + delta))`.
pub open spec fn applied(old: nat, delta: int) -> nat {
    clamp_amount(old + delta)
}

/// What a stored decimal text reads as; text that does not parse reads as 0.
pub open spec fn stored_value(s: Seq<char>) -> nat {
    if all_dec_digits(s) && dec_value(s) <= amount_max() { dec_value(s) } else { 0 }
}

/// The amount's value capped at `i128::MAX`.
pub fn capped_i128(a: &Amount) -> (r: i128)
    ensures
        r == capped(*a),
{
    let ghost w = word() as int;
    let ghost x0 = a.w0 as int;
    let ghost x1 = a.w1 as int;
    let ghost x2 = a.w2 as int;
    let ghost x3 = a.w3 as int;
    if a.w3 == 0 && a.w2 == 0 && a.w1 < 0x8000_0000_0000_0000u64 {
        assert(a.value() == x0 + w * x1);
        assert(x0 + w * x1 <= i128::MAX) by (nonlinear_arith)
            requires 0 <= x0 < w, 0 <= x1 < 0x8000_0000_0000_0000int, w == 0x1_0000_0000_0000_0000int;
        let hi: i128 = (a.w1 as i128) * 0x1_0000_0000_0000_0000i128;
        hi + a.w0 as i128
    } else {
        assert(a.value() > i128::MAX) by (nonlinear_arith)
            requires
                a.value() == x0 + w * (x1 + w * (x2 + w * x3)),
                0 <= x0, 0 <= x1, 0 <= x2, 0 <= x3,
                x3 != 0 || x2 != 0 || x1 >= 0x8000_0000_0000_0000int,
                w == 0x1_0000_0000_0000_0000int;
        i128::MAX
    }
}

fn add_clamped(d: i128, v: i128) -> (r: i128)
    requires
        v >= 0,
    ensures
        r == clamp_i128(d + v),
{
    match d.checked_add(v) {
        Some(s) => s,
        None => i128::MAX,
    }
}

fn sub_clamped(d: i128, v: i128) -> (r: i128)
    requires
        v >= 0,
    ensures
        r == clamp_i128(d - v),
{
    match d.checked_sub(v) {
        Some(s) => s,
        None => i128::MIN,
    }
}

/// Folds a block's entries into one signed delta: each newly stored inflow
/// adds its value and each newly stored outflow subtracts it, values capped
/// at `i128::MAX` and every step saturating at the bounds of `i128`.
pub fn block_delta(entries: &Vec<FlowEntry>) -> (r: i128)
    ensures
        r == block_delta_of(entries@),
{
    let mut d: i128 = 0;
    let mut i: usize = 0;
    while i < entries.len()
        invariant
            i <= entries@.len(),
            d == block_delta_of(entries@.subrange(0, i as int)),
        decreases entries@.len() - i,
    {
        let e = entries[i];
        assert(entries@.subrange(0, i + 1).drop_last() == entries@.subrange(0, i as int));
        if e.newly_stored && e.is_inflow {
            let v = capped_i128(&e.value);
            d = add_clamped(d, v);
        }
        if e.newly_stored && e.is_outflow {
            let v = capped_i128(&e.value);
            d = sub_clamped(d, v);
        }
        i = i + 1;
    }
    assert(entries@.subrange(0, entries@.len() as int) == entries@);
    d
}

/// Applies a signed delta to a cumulative amount: a saturating add for a
/// positive delta, a subtraction clamped at zero for a negative one.
pub fn apply_delta(acc: Amount, delta: i128) -> (r: Amount)
    ensures
        r.value() == applied(acc.value(), delta as int),
{
    proof { lemma_value_bounded(acc); }
    if delta > 0 {
        acc.saturating_add(Amount::from_u128(delta as u128))
    } else if delta < 0 {
        let m: u128 = if delta == i128::MIN {
            0x8000_0000_0000_0000_0000_0000_0000_0000u128
        } else {
            (-delta) as u128
        };
        acc.saturating_sub(Amount::from_u128(m))
    } else {
        acc
    }
}

/// The decimal text of the cumulative value after a block's delta, from the
/// stored decimal text before it (text that does not parse counts as 0).
pub fn next_cumulative(stored: &str, delta: i128) -> (r: String)
    ensures
        r@ == dec_text(applied(stored_value(stored@), delta as int)),
{
    let old = match Amount::parse_decimal(stored) {
        Some(a) => a,
        None => Amount::zero(),
    };
    apply_delta(old, delta).to_decimal()
}

/// The cumulative text to write after a block, or `None` when the block's
/// delta is zero and no write is issued.
pub fn cumulative_write(stored: &str, delta: i128) -> (r: Option<String>)
    ensures
        r is None <==> delta == 0,
        r matches Some(t) ==> t@ == dec_text(applied(stored_value(stored@), delta as int)),
{
    if delta == 0 {
        None
    } else {
        Some(next_cumulative(stored, delta))
    }
}

/// A transfer that was already stored contributes nothing: redelivering a
/// log adds an entry that leaves the block's delta as it was.
pub proof fn lemma_redelivery_counts_once(s: Seq<FlowEntry>, e: FlowEntry)
    requires
        !e.newly_stored,
    ensures
        block_delta_of(s.push(e)) == block_delta_of(s),
{
    assert(s.push(e).drop_last() == s);
}


/// The cumulative update law: for every cumulative value in range and every
/// delta, the new value is `max(0, min(2^256 - 1, old + delta))`; it stays in
/// range, a zero delta leaves it unchanged, and a non-negative delta never
/// lowers it.
pub proof fn lemma_update_law(old: Amount, delta: i128)
    ensures
        applied(old.value(), delta as int) == if old.value() + delta < 0 {
            0
        } else if old.value() + delta > amount_max() {
            amount_max() as int
        } else {
            old.value() + delta
        },
        applied(old.value(), delta as int) <= amount_max(),
        delta == 0 ==> applied(old.value(), delta as int) == old.value(),
        delta >= 0 ==> applied(old.value(), delta as int) >= old.value(),
{
    lemma_value_bounded(old);
}

} // verus!
