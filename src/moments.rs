use vstd::prelude::*;

use vstd::math::abs;

use crate::rules::{spec_divisor, spec_node_count, spec_node_position, spec_weight, valid_args, Rule};

verus! {

/// `sum(weight(i) * position(i)^2)` over the first `k` samples, positions in
/// half cells: the weighted sum that `rule` forms for the integrand `x^2` on
/// `[0, n]` (measured in cells), times `4`.
pub open spec fn square_moment(rule: Rule, n: nat, k: nat) -> int
    decreases k,
{
    if k == 0 {
        0
    } else {
        let p = spec_node_position(rule, (k - 1) as nat) as int;
        square_moment(rule, n, (k - 1) as nat) + spec_weight(rule, n, (k - 1) as nat) * (p * p)
    }
}

/// The error of `rule` on `x^2`, in units of `(b - a)^3 / (12 * divisor * n^3)`:
/// `3 * moment - 4 * divisor * n^3`, where the exact value corresponds to
/// `4 * divisor * n^3`.
pub open spec fn square_error(rule: Rule, n: nat) -> int {
    3 * square_moment(rule, n, spec_node_count(rule, n)) - 4 * spec_divisor(rule) * (n * n * n)
}

/// The constant `c` of the error `c * n` of `rule` on `x^2`.
pub open spec fn square_error_coefficient(rule: Rule) -> int {
    match rule {
        Rule::Rectangle => -1,
        Rule::Trapezoid => 4,
        Rule::Simpson => 0,
    }
}

proof fn lemma_moment_step(rule: Rule, n: nat, j: nat)
    ensures
        square_moment(rule, n, j + 1) == square_moment(rule, n, j) + spec_weight(rule, n, j) * (
        spec_node_position(rule, j) * spec_node_position(rule, j)),
        spec_node_position(rule, j) == 0 ==> square_moment(rule, n, j + 1) == square_moment(
            rule,
            n,
            j,
        ),
{
    let p = spec_node_position(rule, j) as int;
    assert((p * p) == spec_node_position(rule, j) * spec_node_position(rule, j));
    if p == 0 {
        assert(spec_weight(rule, n, j) * (p * p) == 0) by (nonlinear_arith)
            requires
                p == 0,
        ;
    }
}

proof fn lemma_rectangle_moment(n: nat, k: nat)
    ensures
        3 * square_moment(Rule::Rectangle, n, k) == 4 * (k * k * k) - k,
    decreases k,
{
    if k == 0 {
        assert(square_moment(Rule::Rectangle, n, 0) == 0);
        assert(k * k * k == 0) by (nonlinear_arith)
            requires
                k == 0,
        ;
    } else {
        let j = (k - 1) as nat;
        lemma_rectangle_moment(n, j);
        lemma_moment_step(Rule::Rectangle, n, j);
        assert(spec_weight(Rule::Rectangle, n, j) == 1);
        assert(spec_node_position(Rule::Rectangle, j) == 2 * j + 1);
        assert(square_moment(Rule::Rectangle, n, k) == square_moment(Rule::Rectangle, n, j) + (2
            * j + 1) * (2 * j + 1));
        assert(3 * ((2 * j + 1) * (2 * j + 1)) + 4 * (j * j * j) - j == 4 * (k * k * k) - k)
            by (nonlinear_arith)
            requires
                k == j + 1,
        ;
    }
}

proof fn lemma_trapezoid_moment(n: nat, k: nat)
    requires
        1 <= k <= n,
    ensures
        3 * square_moment(Rule::Trapezoid, n, k) == 4 * ((k - 1) * k * (2 * k - 1)),
    decreases k,
{
    if k == 1 {
        assert(square_moment(Rule::Trapezoid, n, 0) == 0);
        lemma_moment_step(Rule::Trapezoid, n, 0);
        assert(spec_node_position(Rule::Trapezoid, 0) == 0);
        assert(square_moment(Rule::Trapezoid, n, 1) == 0);
        assert((k - 1) * k * (2 * k - 1) == 0) by (nonlinear_arith)
            requires
                k == 1,
        ;
    } else {
        let j = (k - 1) as nat;
        lemma_trapezoid_moment(n, j);
        lemma_moment_step(Rule::Trapezoid, n, j);
        assert(spec_weight(Rule::Trapezoid, n, j) == 2);
        assert(spec_node_position(Rule::Trapezoid, j) == 2 * j);
        assert(square_moment(Rule::Trapezoid, n, k) == square_moment(Rule::Trapezoid, n, j) + 2 * (
        (2 * j) * (2 * j)));
        assert(4 * ((j - 1) * j * (2 * j - 1)) + 3 * (2 * ((2 * j) * (2 * j))) == 4 * ((k - 1) * k
            * (2 * k - 1))) by (nonlinear_arith)
            requires
                k == j + 1,
        ;
    }
}

proof fn lemma_simpson_moment(n: nat, k: nat)
    requires
        k <= n,
    ensures
        k % 2 == 0 ==> square_moment(Rule::Simpson, n, k) == 4 * (k * k * k - k * k),
        k % 2 == 1 ==> square_moment(Rule::Simpson, n, k) == 4 * ((k - 1) * (k - 1) * (k - 1) + (
        k - 1) * (k - 1)),
    decreases k,
{
    if k == 0 {
        assert(square_moment(Rule::Simpson, n, 0) == 0);
        assert(k * k * k - k * k == 0) by (nonlinear_arith)
            requires
                k == 0,
        ;
    } else if k == 1 {
        lemma_moment_step(Rule::Simpson, n, 0);
        assert(square_moment(Rule::Simpson, n, 0) == 0);
        assert(spec_node_position(Rule::Simpson, 0) == 0);
        assert(spec_weight(Rule::Simpson, n, 0) == 1);
        assert(square_moment(Rule::Simpson, n, 1) == 0);
        assert((k - 1) * (k - 1) * (k - 1) + (k - 1) * (k - 1) == 0) by (nonlinear_arith)
            requires
                k == 1,
        ;
    } else {
        let j = (k - 1) as nat;
        lemma_simpson_moment(n, j);
        lemma_moment_step(Rule::Simpson, n, j);
        assert(spec_node_position(Rule::Simpson, j) == 2 * j);
        if k % 2 == 0 {
            assert(spec_weight(Rule::Simpson, n, j) == 4);
            assert(square_moment(Rule::Simpson, n, k) == square_moment(Rule::Simpson, n, j) + 4 * (
            (2 * j) * (2 * j)));
            assert(4 * ((j - 1) * (j - 1) * (j - 1) + (j - 1) * (j - 1)) + 4 * ((2 * j) * (2 * j))
                == 4 * (k * k * k - k * k)) by (nonlinear_arith)
                requires
                    k == j + 1,
                    j >= 1,
            ;
        } else {
            assert(spec_weight(Rule::Simpson, n, j) == 2);
            assert(square_moment(Rule::Simpson, n, k) == square_moment(Rule::Simpson, n, j) + 2 * (
            (2 * j) * (2 * j)));
            assert(4 * (j * j * j - j * j) + 2 * ((2 * j) * (2 * j)) == 4 * ((k - 1) * (k - 1) * (k
                - 1) + (k - 1) * (k - 1))) by (nonlinear_arith)
                requires
                    k == j + 1,
            ;
        }
    }
}

/// On the integrand `x^2` the error of each rule is exactly
/// `square_error_coefficient(rule) * n` in units of
/// `(b - a)^3 / (12 * divisor * n^3)`: the midpoint rule falls short by
/// `(b - a) * h^2 / 12`, the trapezoid rule overshoots by `(b - a) * h^2 / 6`,
/// and Simpson's rule is exact. The first two thus shrink as `1 / n^2`.
pub proof fn lemma_square_error(rule: Rule, n: nat)
    requires
        valid_args(rule, true, n),
    ensures
        square_error(rule, n) == square_error_coefficient(rule) * n,
{
    match rule {
        Rule::Rectangle => {
            lemma_rectangle_moment(n, n);
        },
        Rule::Trapezoid => {
            lemma_trapezoid_moment(n, n);
            let m = square_moment(Rule::Trapezoid, n, n);
            lemma_moment_step(Rule::Trapezoid, n, n);
            assert(square_moment(Rule::Trapezoid, n, n + 1) == m + (2 * n) * (2 * n));
            assert(4 * ((n - 1) * n * (2 * n - 1)) + 3 * ((2 * n) * (2 * n)) == 8 * (n * n * n) + 4
                * n) by (nonlinear_arith)
                requires
                    n >= 1,
            ;
        },
        Rule::Simpson => {
            lemma_simpson_moment(n, n);
            let m = square_moment(Rule::Simpson, n, n);
            lemma_moment_step(Rule::Simpson, n, n);
            assert(square_moment(Rule::Simpson, n, n + 1) == m + (2 * n) * (2 * n));
            assert(3 * (4 * (n * n * n - n * n) + (2 * n) * (2 * n)) == 12 * (n * n * n))
                by (nonlinear_arith);
        },
    }
}

/// Doubling the number of cells divides the error on `x^2` by four (the
/// error relative to `(b - a)^3` is `square_error(rule, n) / n^3`), and more
/// cells never give a larger error.
pub proof fn lemma_square_error_shrinks(rule: Rule, n: nat, m: nat)
    requires
        valid_args(rule, true, n),
        n <= m,
        valid_args(rule, true, m),
    ensures
        square_error(rule, n) * ((2 * n) * (2 * n) * (2 * n)) == 4 * (square_error(rule, 2 * n) * (
        n * n * n)),
        abs(square_error(rule, m)) * (n * n * n) <= abs(square_error(rule, n)) * (m * m * m),
{
    lemma_square_error(rule, n);
    lemma_square_error(rule, m);
    lemma_square_error(rule, 2 * n);
    let c = square_error_coefficient(rule);
    assert(c * n * ((2 * n) * (2 * n) * (2 * n)) == 4 * (c * (2 * n) * (n * n * n)))
        by (nonlinear_arith);
    let ac = abs(c);
    assert(ac * m * (n * n * n) <= ac * n * (m * m * m)) by (nonlinear_arith)
        requires
            ac >= 0,
            0 < n <= m,
    ;
    assert(abs(c * m) == ac * m) by (nonlinear_arith)
        requires
            ac == abs(c),
            m >= 0,
    ;
    assert(abs(c * n) == ac * n) by (nonlinear_arith)
        requires
            ac == abs(c),
            n >= 0,
    ;
}

} // verus!
