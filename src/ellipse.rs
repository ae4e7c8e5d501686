use vstd::prelude::*;

use crate::rules::{valid_args, Rule};

verus! {

/// The area of the ellipse with semi-axes `a` and `b`, taken as
/// `2 * simpson(-a, a, div, x -> b * sqrt(1 - x^2 / a^2))` and compared with
/// its closed form `pi * a * b`, kept as the multiple `pi_multiple` of pi.
#[derive(Clone, Copy, Debug, PartialEq, Eq, Structural)]
pub struct EllipseArea {
    pub a: u32,
    pub b: u32,
    pub div: u32,
    pub pi_multiple: u32,
}

/// The perimeter of the ellipse with semi-axes `a` and `b`, taken as twice the
/// midpoint-rule arc length over `[-a + eps, a - eps]` with
/// `eps = 10^-eps_exp` (the slope of the half ellipse is unbounded at `-a`
/// and `a`), and compared with `expected_e4` ten-thousandths.
#[derive(Clone, Copy, Debug, PartialEq, Eq, Structural)]
pub struct EllipsePerimeter {
    pub a: u32,
    pub b: u32,
    pub div: u32,
    pub eps_exp: u32,
    pub expected_e4: u32,
}

/// Cells per area estimate.
pub const AREA_DIVISIONS: u32 = 100_000;

/// Cells per perimeter estimate.
pub const PERIMETER_DIVISIONS: u32 = 1_000_000;

/// The exponent of the inset `eps = 10^-10` of a perimeter estimate.
pub const PERIMETER_EPS_EXP: u32 = 10;

/// The semi-axes of the ellipses whose areas are shown.
pub open spec fn area_axes() -> Seq<(u32, u32)> {
    seq![(1u32, 1u32), (3u32, 2u32), (7u32, 3u32), (4u32, 1u32)]
}

/// The semi-axes of the ellipses whose perimeters are shown, with each
/// perimeter in ten-thousandths.
pub open spec fn perimeter_axes() -> Seq<(u32, u32, u32)> {
    seq![(3u32, 2u32, 158654u32), (7u32, 3u32, 326857u32), (4u32, 1u32, 171568u32)]
}

/// The area case of the ellipse with semi-axes `a` and `b` on `div` cells.
pub fn ellipse_area(a: u32, b: u32, div: u32) -> (r: EllipseArea)
    requires
        a as nat * b as nat <= u32::MAX,
    ensures
        r == (EllipseArea { a, b, div, pi_multiple: (a * b) as u32 }),
{
    EllipseArea { a, b, div, pi_multiple: a * b }
}

/// The ellipses whose areas are shown, each with the number of cells and the
/// exact area as a multiple of pi.
pub fn run_ellipse() -> (r: Vec<EllipseArea>)
    ensures
        r@.len() == area_axes().len(),
        forall|i: int|
            0 <= i < r@.len() ==> {
                &&& #[trigger] r@[i].a == area_axes()[i].0
                &&& r@[i].b == area_axes()[i].1
                &&& r@[i].div == AREA_DIVISIONS
                &&& r@[i].pi_multiple == r@[i].a * r@[i].b
                &&& valid_args(Rule::Simpson, true, r@[i].div as nat)
            },
{
    let mut r: Vec<EllipseArea> = Vec::new();
    r.push(ellipse_area(1, 1, AREA_DIVISIONS));
    r.push(ellipse_area(3, 2, AREA_DIVISIONS));
    r.push(ellipse_area(7, 3, AREA_DIVISIONS));
    r.push(ellipse_area(4, 1, AREA_DIVISIONS));
    r
}

/// The ellipses whose perimeters are shown, each with the number of cells,
/// the inset and the perimeter it is compared with.
pub fn run_arc_ellipse() -> (r: Vec<EllipsePerimeter>)
    ensures
        r@.len() == perimeter_axes().len(),
        forall|i: int|
            0 <= i < r@.len() ==> {
                &&& #[trigger] r@[i].a == perimeter_axes()[i].0
                &&& r@[i].b == perimeter_axes()[i].1
                &&& r@[i].expected_e4 == perimeter_axes()[i].2
                &&& r@[i].div == PERIMETER_DIVISIONS
                &&& r@[i].eps_exp == PERIMETER_EPS_EXP
                &&& valid_args(Rule::Rectangle, true, r@[i].div as nat)
            },
{
    let mut r: Vec<EllipsePerimeter> = Vec::new();
    r.push(
        EllipsePerimeter {
            a: 3,
            b: 2,
            div: PERIMETER_DIVISIONS,
            eps_exp: PERIMETER_EPS_EXP,
            expected_e4: 158654,
        },
    );
    r.push(
        EllipsePerimeter {
            a: 7,
            b: 3,
            div: PERIMETER_DIVISIONS,
            eps_exp: PERIMETER_EPS_EXP,
            expected_e4: 326857,
        },
    );
    r.push(
        EllipsePerimeter {
            a: 4,
            b: 1,
            div: PERIMETER_DIVISIONS,
            eps_exp: PERIMETER_EPS_EXP,
            expected_e4: 171568,
        },
    );
    r
}

} // verus!
