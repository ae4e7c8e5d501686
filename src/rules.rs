use vstd::prelude::*;

verus! {

/// One of the three composite quadrature rules.
///
/// Each rule estimates the integral over `[a, b]` split into `n` cells of
/// width `h = (b - a) / n` as
/// `h / divisor(rule) * sum(weight(rule, n, i) * f(a + node_position(rule, i) * h / 2))`
/// over the `node_count(rule, n)` nodes `i`.
#[derive(Clone, Copy, Debug, PartialEq, Eq, Structural)]
pub enum Rule {
    /// One sample at the centre of each cell.
    Rectangle,
    /// Samples at the cell boundaries, the two ends at half weight.
    Trapezoid,
    /// Samples at the cell boundaries, weighted 1, 4, 2, 4, ..., 4, 1.
    Simpson,
}

/// Why a rule refuses to compute.
#[derive(Clone, Copy, Debug, PartialEq, Eq, Structural)]
pub enum QuadError {
    /// The lower bound lies above the upper bound.
    ReversedInterval,
    /// The interval was to be split into no cells.
    NoSubdivisions,
    /// Simpson's rule was asked for an odd number of cells.
    OddSubdivisions,
}

/// The inputs on which `rule` computes: an ordered interval and a positive
/// cell count, even for Simpson's rule.
pub open spec fn valid_args(rule: Rule, ordered: bool, n: nat) -> bool {
    ordered && n > 0 && (rule == Rule::Simpson ==> n % 2 == 0)
}

/// The error that `check_args` reports, checked in the order interval,
/// count, parity.
pub open spec fn args_error(rule: Rule, ordered: bool, n: nat) -> Option<QuadError> {
    if !ordered {
        Some(QuadError::ReversedInterval)
    } else if n == 0 {
        Some(QuadError::NoSubdivisions)
    } else if rule == Rule::Simpson && n % 2 == 1 {
        Some(QuadError::OddSubdivisions)
    } else {
        None
    }
}

/// How many samples the rule takes on `n` cells.
pub open spec fn spec_node_count(rule: Rule, n: nat) -> nat {
    match rule {
        Rule::Rectangle => n,
        _ => n + 1,
    }
}

/// Where sample `i` lies, in half cells from the lower bound.
pub open spec fn spec_node_position(rule: Rule, i: nat) -> nat {
    match rule {
        Rule::Rectangle => 2 * i + 1,
        _ => 2 * i,
    }
}

/// The integer weight of sample `i` on `n` cells.
pub open spec fn spec_weight(rule: Rule, n: nat, i: nat) -> nat {
    match rule {
        Rule::Rectangle => 1,
        Rule::Trapezoid => if i == 0 || i == n { 1 } else { 2 },
        Rule::Simpson => if i == 0 || i == n {
            1
        } else if i % 2 == 1 {
            4
        } else {
            2
        },
    }
}

/// What the weighted sum is divided by before it is scaled by the cell width.
pub open spec fn spec_divisor(rule: Rule) -> nat {
    match rule {
        Rule::Rectangle => 1,
        Rule::Trapezoid => 2,
        Rule::Simpson => 3,
    }
}

/// The sum of the weights of the first `k` samples.
pub open spec fn weight_sum(rule: Rule, n: nat, k: nat) -> nat
    decreases k,
{
    if k == 0 {
        0
    } else {
        weight_sum(rule, n, (k - 1) as nat) + spec_weight(rule, n, (k - 1) as nat)
    }
}

proof fn lemma_partial_sum(rule: Rule, n: nat, k: nat)
    requires
        1 <= k <= n,
    ensures
        rule == Rule::Rectangle ==> weight_sum(rule, n, k) == k,
        rule == Rule::Trapezoid ==> weight_sum(rule, n, k) == 2 * k - 1,
        rule == Rule::Simpson ==> weight_sum(rule, n, k) == 3 * k - 1 - k % 2,
    decreases k,
{
    assert(weight_sum(rule, n, 0) == 0);
    if k > 1 {
        lemma_partial_sum(rule, n, (k - 1) as nat);
    }
}

/// Every rule integrates a constant exactly: on valid arguments the weights
/// of all samples add up to the divisor times the number of cells, so a
/// constant `c` is estimated as `h / divisor * divisor * n * c = (b - a) * c`.
pub proof fn lemma_constants_exact(rule: Rule, n: nat)
    requires
        valid_args(rule, true, n),
    ensures
        weight_sum(rule, n, spec_node_count(rule, n)) == spec_divisor(rule) * n,
{
    lemma_partial_sum(rule, n, n);
    assert(weight_sum(rule, n, n + 1) == weight_sum(rule, n, n) + spec_weight(rule, n, n));
}

/// The samples of every rule lie in strictly increasing order on the closed
/// interval: `0 <= position(i) < position(i + 1) <= 2 * n` in half cells.
pub proof fn lemma_nodes_ordered_in_interval(rule: Rule, n: nat, i: nat)
    requires
        i < spec_node_count(rule, n),
    ensures
        spec_node_position(rule, i) <= 2 * n,
        i + 1 < spec_node_count(rule, n) ==> spec_node_position(rule, i) < spec_node_position(
            rule,
            i + 1,
        ),
{
}

/// Checks the arguments of a rule before any sample is taken; `ordered`
/// tells whether the lower bound is at most the upper bound.
pub fn check_args(rule: Rule, ordered: bool, n: u32) -> (r: Result<(), QuadError>)
    ensures
        r is Ok <==> valid_args(rule, ordered, n as nat),
        r is Err ==> Some(r->Err_0) == args_error(rule, ordered, n as nat),
        r is Ok ==> args_error(rule, ordered, n as nat) is None,
{
    if !ordered {
        Err(QuadError::ReversedInterval)
    } else if n == 0 {
        Err(QuadError::NoSubdivisions)
    } else if rule == Rule::Simpson && n % 2 == 1 {
        Err(QuadError::OddSubdivisions)
    } else {
        Ok(())
    }
}

/// How many samples `rule` takes on `n` cells.
pub fn node_count(rule: Rule, n: u32) -> (r: u64)
    ensures
        r as nat == spec_node_count(rule, n as nat),
{
    match rule {
        Rule::Rectangle => n as u64,
        _ => n as u64 + 1,
    }
}

/// Where sample `i` lies, in half cells from the lower bound.
pub fn node_position(rule: Rule, i: u64) -> (r: u64)
    requires
        i <= u32::MAX as u64 + 1,
    ensures
        r as nat == spec_node_position(rule, i as nat),
{
    match rule {
        Rule::Rectangle => 2 * i + 1,
        _ => 2 * i,
    }
}

/// The weight of sample `i` of `rule` on `n` cells.
pub fn weight(rule: Rule, n: u32, i: u64) -> (r: u32)
    ensures
        r as nat == spec_weight(rule, n as nat, i as nat),
{
    match rule {
        Rule::Rectangle => 1,
        Rule::Trapezoid => if i == 0 || i == n as u64 { 1 } else { 2 },
        Rule::Simpson => if i == 0 || i == n as u64 {
            1
        } else if i % 2 == 1 {
            4
        } else {
            2
        },
    }
}

/// What the weighted sum of `rule` is divided by.
pub fn divisor(rule: Rule) -> (r: u32)
    ensures
        r as nat == spec_divisor(rule),
{
    match rule {
        Rule::Rectangle => 1,
        Rule::Trapezoid => 2,
        Rule::Simpson => 3,
    }
}

} // verus!
