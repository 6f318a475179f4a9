//! The curve engine: points, their validation, and the addition law, computed
//! with field elements.

use crate::closure::{lemma_add_closed, lemma_quotient};
use crate::edwards::{
    add_spec, base_point, congruent, curve_lhs, curve_rhs, denominator_x, denominator_y,
    double_spec, identity, lemma_congruent_mul, lemma_congruent_reduced, lemma_fadd_congruent,
    lemma_fmul_congruent, lemma_fsub_congruent, lemma_inverse_congruent, numerator_x, numerator_y,
    on_curve, param_a, param_d, Coords,
};
use crate::error::Error;
use crate::field::{modulus, FieldElement};
use vstd::prelude::*;

verus! {

/// A point as it is given: two field elements of which nothing is known.
#[derive(Clone, Copy, Debug)]
pub struct Point {
    pub x: FieldElement,
    pub y: FieldElement,
}

impl View for Point {
    type V = Coords;

    open spec fn view(&self) -> Coords {
        Coords { x: self.x@, y: self.y@ }
    }
}

impl Point {
    /// The point with the two coordinates.
    pub fn new(x: FieldElement, y: FieldElement) -> (r: Point)
        ensures
            r@ == (Coords { x: x@, y: y@ }),
    {
        Point { x, y }
    }
}

/// A point that the engine has loaded or computed.
#[derive(Clone, Copy, Debug)]
pub struct AssignedPoint {
    pub x: FieldElement,
    pub y: FieldElement,
}

impl View for AssignedPoint {
    type V = Coords;

    open spec fn view(&self) -> Coords {
        Coords { x: self.x@, y: self.y@ }
    }
}

/// The engine for the curve `a*x^2 + y^2 = 1 + d*x^2*y^2` with `a = 168700`
/// and `d = 168696`. The two parameters are set once, when it is made.
#[derive(Clone, Copy, Debug)]
pub struct BabyJubConfig {
    a: FieldElement,
    d: FieldElement,
}

impl View for BabyJubConfig {
    type V = (int, int);

    /// The two parameters `(a, d)` that the engine holds.
    closed spec fn view(&self) -> (int, int) {
        (self.a@, self.d@)
    }
}

impl BabyJubConfig {
    /// The engine holds the two parameters of the curve.
    #[verifier::type_invariant]
    pub closed spec fn well_formed(self) -> bool {
        self.a@ == param_a() && self.d@ == param_d()
    }

    /// The engine for the curve, with `a = 168700` and `d = 168696`.
    pub fn new() -> (r: BabyJubConfig)
        ensures
            r@ == (param_a(), param_d()),
    {
        BabyJubConfig { a: FieldElement::from_u64(168700), d: FieldElement::from_u64(168696) }
    }

    /// Loads a point as it is, with no check.
    pub fn load_point_unchecked(&self, point: &Point) -> (r: AssignedPoint)
        ensures
            r@ == point@,
    {
        AssignedPoint { x: point.x, y: point.y }
    }

    /// Loads a point that has to lie on the curve, and rejects any other.
    pub fn load_point_checked(&self, point: &Point) -> (r: Result<AssignedPoint, Error>)
        ensures
            r.is_ok() <==> on_curve(point@),
            r matches Ok(p) ==> p@ == point@,
            r matches Err(e) ==> e == Error::PointNotOnCurve,
    {
        let loaded = self.load_point_unchecked(point);
        let one = FieldElement::from_u64(1);
        let x2 = loaded.x.mul(&loaded.x);
        let y2 = loaded.y.mul(&loaded.y);
        let ax2 = self.a.mul(&x2);
        let left = ax2.add(&y2);
        let muled = x2.mul(&y2);
        let scaled = muled.mul(&self.d);
        let right = scaled.add(&one);
        proof {
            use_type_invariant(self);
            let c = point@;
            let a = param_a();
            let d = param_d();
            lemma_fmul_congruent(c.x, c.x, c.x, c.x);
            lemma_fmul_congruent(c.y, c.y, c.y, c.y);
            lemma_fmul_congruent(a, a, x2@, c.x * c.x);
            lemma_fadd_congruent(ax2@, a * (c.x * c.x), y2@, c.y * c.y);
            lemma_fmul_congruent(x2@, c.x * c.x, y2@, c.y * c.y);
            lemma_fmul_congruent(muled@, (c.x * c.x) * (c.y * c.y), d, d);
            crate::ring::lemma_mul_comm((c.x * c.x) * (c.y * c.y), d);
            lemma_fadd_congruent(scaled@, d * ((c.x * c.x) * (c.y * c.y)), 1, 1);
            assert(congruent(left@, curve_lhs(c)));
            assert(congruent(right@, curve_rhs(c)));
            lemma_congruent_reduced(left@, right@);
        }
        if left.is_equal(&right) {
            Ok(loaded)
        } else {
            Err(Error::PointNotOnCurve)
        }
    }

    /// The neutral element `(0, 1)`.
    pub fn load_identity(&self) -> (r: AssignedPoint)
        ensures
            r@ == identity(),
    {
        AssignedPoint { x: FieldElement::from_u64(0), y: FieldElement::from_u64(1) }
    }

    /// The base point `G`.
    pub fn load_base_point(&self) -> (r: AssignedPoint)
        ensures
            r@ == base_point(),
    {
        let x = FieldElement::from_limbs(
            0x2893f3f6bb957051,
            0x2ab8d8010534e0b6,
            0x4eacb2e09d6277c1,
            0x0bb77a6ad63e739b,
        );
        let y = FieldElement::from_limbs(
            0x4b3c257a872d7d8b,
            0xfce0051fb9e13377,
            0x25572e1cd16bf9ed,
            0x25797203f7a0b249,
        );
        proof {
            vstd::arithmetic::div_mod::lemma_small_mod(base_point().x as nat, modulus() as nat);
            vstd::arithmetic::div_mod::lemma_small_mod(base_point().y as nat, modulus() as nat);
        }
        AssignedPoint { x, y }
    }

    /// The sum of two points by the unified addition law
    /// `x3 = (beta + gamma) / (1 + d*tau)`,
    /// `y3 = (delta + a*beta - gamma) / (1 - d*tau)`.
    ///
    /// Each quotient is the numerator times the inverse of the denominator,
    /// so that the quotient times the denominator gives the numerator back.
    /// Where a denominator is zero there is no quotient, and the addition
    /// is refused.
    pub fn add(&self, point1: &AssignedPoint, point2: &AssignedPoint) -> (r: Result<
        AssignedPoint,
        Error,
    >)
        ensures
            (match add_spec(point1@, point2@) {
                Some(sum) => r matches Ok(s) && s@ == sum,
                None => r matches Err(e) && e == Error::ZeroDenominator,
            }),
            r.is_err() <==> (congruent(denominator_x(point1@, point2@), 0) || congruent(
                denominator_y(point1@, point2@),
                0,
            )),
            r matches Ok(s) ==> congruent(s@.x * denominator_x(point1@, point2@), numerator_x(
                point1@,
                point2@,
            )) && congruent(
                s@.y * denominator_y(point1@, point2@),
                numerator_y(point1@, point2@),
            ),
            on_curve(point1@) && on_curve(point2@) ==> (r matches Ok(s) ==> on_curve(s@)),
    {
        let ghost p = point1@;
        let ghost q = point2@;
        let one = FieldElement::from_u64(1);
        let beta = point1.x.mul(&point2.y);
        let gamma = point1.y.mul(&point2.x);
        let ax = self.a.mul(&point1.x);
        let factor1 = point1.y.sub(&ax);
        let factor2 = point2.x.add(&point2.y);
        let delta = factor1.mul(&factor2);
        let tau = beta.mul(&gamma);
        let num_x = beta.add(&gamma);
        let dtau = self.d.mul(&tau);
        let den_x = one.add(&dtau);
        let abeta = beta.mul(&self.a);
        let term = abeta.add(&delta);
        let num_y = term.sub(&gamma);
        let den_y = one.sub(&dtau);
        proof {
            use_type_invariant(self);
            let a = param_a();
            let d = param_d();
            lemma_fmul_congruent(p.x, p.x, q.y, q.y);
            lemma_fmul_congruent(p.y, p.y, q.x, q.x);
            lemma_fmul_congruent(a, a, p.x, p.x);
            lemma_fsub_congruent(p.y, p.y, ax@, a * p.x);
            lemma_fadd_congruent(q.x, q.x, q.y, q.y);
            lemma_fmul_congruent(factor1@, p.y - a * p.x, factor2@, q.x + q.y);
            lemma_fmul_congruent(beta@, crate::edwards::beta(p, q), gamma@, crate::edwards::gamma(p, q));
            lemma_fadd_congruent(beta@, crate::edwards::beta(p, q), gamma@, crate::edwards::gamma(p, q));
            lemma_fmul_congruent(d, d, tau@, crate::edwards::tau(p, q));
            lemma_fadd_congruent(1, 1, dtau@, d * crate::edwards::tau(p, q));
            lemma_fmul_congruent(beta@, crate::edwards::beta(p, q), a, a);
            crate::ring::lemma_mul_comm(crate::edwards::beta(p, q), a);
            lemma_fadd_congruent(
                abeta@,
                a * crate::edwards::beta(p, q),
                delta@,
                crate::edwards::delta(p, q),
            );
            lemma_fsub_congruent(
                term@,
                a * crate::edwards::beta(p, q) + crate::edwards::delta(p, q),
                gamma@,
                crate::edwards::gamma(p, q),
            );
            lemma_fsub_congruent(1, 1, dtau@, d * crate::edwards::tau(p, q));
            assert(congruent(num_x@, numerator_x(p, q)));
            assert(congruent(num_y@, numerator_y(p, q)));
            assert(congruent(den_x@, denominator_x(p, q)));
            assert(congruent(den_y@, denominator_y(p, q)));
            lemma_inverse_congruent(den_x@, denominator_x(p, q));
            lemma_inverse_congruent(den_y@, denominator_y(p, q));
            lemma_congruent_reduced(den_x@, 0);
            lemma_congruent_reduced(den_y@, 0);
        }
        let inv_x = match den_x.invert() {
            Some(i) => i,
            None => {
                return Err(Error::ZeroDenominator);
            },
        };
        let inv_y = match den_y.invert() {
            Some(i) => i,
            None => {
                return Err(Error::ZeroDenominator);
            },
        };
        let x = num_x.mul(&inv_x);
        let y = num_y.mul(&inv_y);
        proof {
            lemma_congruent_mul(num_x@, numerator_x(p, q), inv_x@, inv_x@);
            lemma_congruent_mul(num_y@, numerator_y(p, q), inv_y@, inv_y@);
            lemma_quotient(numerator_x(p, q), denominator_x(p, q));
            lemma_quotient(numerator_y(p, q), denominator_y(p, q));
            if on_curve(p) && on_curve(q) {
                lemma_add_closed(p, q);
            }
        }
        Ok(AssignedPoint { x, y })
    }

    /// The double of a point: its sum with itself.
    pub fn double(&self, point: &AssignedPoint) -> (r: Result<AssignedPoint, Error>)
        ensures
            (match double_spec(point@) {
                Some(sum) => r matches Ok(s) && s@ == sum,
                None => r matches Err(e) && e == Error::ZeroDenominator,
            }),
            on_curve(point@) ==> (r matches Ok(s) ==> on_curve(s@)),
    {
        self.add(point, point)
    }

    /// Whether two points are the same: whether both coordinates are.
    pub fn is_equal(&self, point1: &AssignedPoint, point2: &AssignedPoint) -> (r: bool)
        ensures
            r == (point1@ == point2@),
    {
        let same_x = point1.x.is_equal(&point2.x);
        let same_y = point1.y.is_equal(&point2.y);
        same_x && same_y
    }
}

} // verus!
