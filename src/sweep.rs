use vstd::prelude::*;

use crate::rules::{valid_args, Rule};

verus! {

/// `2` raised to `e`.
pub open spec fn two_pow(e: nat) -> nat
    decreases e,
{
    if e == 0 {
        1
    } else {
        2 * two_pow((e - 1) as nat)
    }
}

/// The counts `2^first, 2^(first + 1), ..., 2^last`, smallest first.
pub open spec fn geometric_spec(first: nat, last: nat) -> Seq<nat> {
    Seq::new((last + 1 - first) as nat, |k: int| two_pow((first + k) as nat))
}

/// The number of rows of a comparison table: one per count `2^1 ..= 2^27`.
pub const COMPARE_ROWS: usize = 27;

/// The exponent of the largest count of the comparison sweep.
pub const COMPARE_LAST_EXP: u32 = 27;

/// The exponents of the smallest and largest counts of the sweep that
/// approximates pi.
pub const PI_FIRST_EXP: u32 = 2;

pub const PI_LAST_EXP: u32 = 25;

proof fn lemma_two_pow_monotone(e1: nat, e2: nat)
    requires
        e1 <= e2,
    ensures
        two_pow(e1) <= two_pow(e2),
        1 <= two_pow(e1),
    decreases e2,
{
    if e1 < e2 {
        lemma_two_pow_monotone(e1, (e2 - 1) as nat);
    }
    if e1 > 0 {
        lemma_two_pow_monotone(0, (e1 - 1) as nat);
    }
}

proof fn lemma_two_pow_31()
    ensures
        two_pow(31) == 0x8000_0000,
{
    reveal_with_fuel(two_pow, 32);
}

/// The subdivision counts `2^first ..= 2^last`, smallest first.
pub fn geometric_counts(first: u32, last: u32) -> (r: Vec<u32>)
    requires
        first <= last <= 31,
    ensures
        r@.map_values(|c: u32| c as nat) == geometric_spec(first as nat, last as nat),
        r@.len() == last - first + 1,
{
    let mut r: Vec<u32> = Vec::new();
    let mut e: u32 = 0;
    let mut c: u32 = 1;
    while e < first
        invariant
            e <= first <= 31,
            c as nat == two_pow(e as nat),
        decreases first - e,
    {
        proof {
            lemma_two_pow_monotone((e + 1) as nat, 31);
            lemma_two_pow_31();
        }
        c = c * 2;
        e = e + 1;
    }
    while e <= last
        invariant
            first <= e <= last + 1,
            last <= 31,
            e <= last ==> c as nat == two_pow(e as nat),
            r@.len() == e - first,
            forall|k: int| 0 <= k < r@.len() ==> r@[k] as nat == two_pow((first + k) as nat),
        decreases last + 1 - e,
    {
        r.push(c);
        if e < last {
            proof {
                lemma_two_pow_monotone((e + 1) as nat, 31);
                lemma_two_pow_31();
            }
            c = c * 2;
        }
        e = e + 1;
    }
    assert(r@.map_values(|c: u32| c as nat) =~= geometric_spec(first as nat, last as nat));
    r
}

/// The subdivision counts of a comparison sweep: `2^1, 2^2, ..., 2^27`.
pub fn compare_counts() -> (r: Vec<u32>)
    ensures
        r@.map_values(|c: u32| c as nat) == geometric_spec(1, COMPARE_LAST_EXP as nat),
        r@.len() == COMPARE_ROWS,
{
    geometric_counts(1, COMPARE_LAST_EXP)
}

/// The subdivision counts at which the area of the unit circle is taken:
/// `2^2, 2^3, ..., 2^25`.
pub fn pi_counts() -> (r: Vec<u32>)
    ensures
        r@.map_values(|c: u32| c as nat) == geometric_spec(
            PI_FIRST_EXP as nat,
            PI_LAST_EXP as nat,
        ),
{
    geometric_counts(PI_FIRST_EXP, PI_LAST_EXP)
}

/// A geometric sweep that starts at `2^1` or above visits strictly
/// increasing counts, and each of them is a valid cell count for all three
/// rules (positive and even).
pub proof fn lemma_sweep_increasing_and_valid(first: nat, last: nat, j: int, k: int)
    requires
        1 <= first <= last,
        0 <= j < k < geometric_spec(first, last).len(),
    ensures
        geometric_spec(first, last)[j] < geometric_spec(first, last)[k],
        valid_args(Rule::Rectangle, true, geometric_spec(first, last)[j]),
        valid_args(Rule::Trapezoid, true, geometric_spec(first, last)[j]),
        valid_args(Rule::Simpson, true, geometric_spec(first, last)[j]),
{
    let s = geometric_spec(first, last);
    let ej = (first + j) as nat;
    let ek = (first + k) as nat;
    lemma_two_pow_monotone(ej + 1, ek);
    lemma_two_pow_monotone(0, (ej - 1) as nat);
    assert(s[j] == two_pow(ej));
    assert(s[k] == two_pow(ek));
    assert(two_pow(ej) == 2 * two_pow((ej - 1) as nat));
    assert(two_pow(ej + 1) == 2 * two_pow(ej));
}

} // verus!
