//! The addition law is associative on the curve.
//!
//! Each coordinate of `(P + Q) + R` is a quotient `num_left / den_left`
//! of two polynomials in the coordinates of the three points, and each
//! coordinate of `P + (Q + R)` a quotient `num_right / den_right`. On the
//! curve the cross products `num_left * den_right` and `num_right * den_left`
//! are congruent, and the denominators are invertible wherever the four
//! additions have a result.

use crate::assoc_x::{cofactor_x1, cofactor_x2, cofactor_x3, lemma_assoc_x_identity};
use crate::assoc_y::{cofactor_y1, cofactor_y2, cofactor_y3, lemma_assoc_y_identity};
use crate::closure::{lemma_numerator_y, lemma_quotient};
use crate::edwards::{
    add_spec, congruent, denominator_x, denominator_y, lemma_congruent_add, lemma_congruent_mul,
    lemma_congruent_reduced, lemma_congruent_sub, numerator_x, numerator_y, on_curve, param_a,
    param_d, Coords,
};
use crate::field::{finv, modulus};
use crate::monomial::Vars;
use crate::ring::{
    lemma_mul_assoc, lemma_mul_comm, lemma_mul_dist, lemma_mul_right_comm, lemma_mul_swap,
};
use crate::shapes::{
    curve1, curve2, curve3, den_left_x, den_left_y, den_right_x, den_right_y, dx12, dx23, dy12,
    dy23, n12x, n12y, n23x, n23y, num_left_x, num_left_y, num_right_x, num_right_y,
};
use vstd::prelude::*;

verus! {

/// The two parameters of the curve and the coordinates of three points.
pub open spec fn vars(p: Coords, q: Coords, r: Coords) -> Vars {
    Vars {
        a: param_a(),
        d: param_d(),
        x1: p.x,
        y1: p.y,
        x2: q.x,
        y2: q.y,
        x3: r.x,
        y3: r.y,
    }
}

/// A combination of three numbers that are congruent to zero is congruent
/// to zero.
proof fn lemma_combination_vanishes(k1: int, e1: int, k2: int, e2: int, k3: int, e3: int)
    requires
        congruent(e1, 0),
        congruent(e2, 0),
        congruent(e3, 0),
    ensures
        congruent(k1 * e1 + k2 * e2 + k3 * e3, 0),
{
    lemma_congruent_mul(k1, k1, e1, 0);
    lemma_congruent_mul(k2, k2, e2, 0);
    lemma_congruent_mul(k3, k3, e3, 0);
    assert(k1 * 0 == 0);
    assert(k2 * 0 == 0);
    assert(k3 * 0 == 0);
    lemma_congruent_add(k1 * e1, 0, k2 * e2, 0);
    lemma_congruent_add(k1 * e1 + k2 * e2, 0, k3 * e3, 0);
}

/// On the curve, the cross products of both coordinates are congruent.
proof fn lemma_cross_products(p: Coords, q: Coords, r: Coords)
    requires
        on_curve(p),
        on_curve(q),
        on_curve(r),
    ensures
        ({
            let v = vars(p, q, r);
            &&& congruent(num_left_x(v) * den_right_x(v), num_right_x(v) * den_left_x(v))
            &&& congruent(num_left_y(v) * den_right_y(v), num_right_y(v) * den_left_y(v))
        }),
{
    let v = vars(p, q, r);
    lemma_congruent_sub(
        crate::edwards::curve_lhs(p),
        crate::edwards::curve_rhs(p),
        crate::edwards::curve_rhs(p),
        crate::edwards::curve_rhs(p),
    );
    lemma_congruent_sub(
        crate::edwards::curve_lhs(q),
        crate::edwards::curve_rhs(q),
        crate::edwards::curve_rhs(q),
        crate::edwards::curve_rhs(q),
    );
    lemma_congruent_sub(
        crate::edwards::curve_lhs(r),
        crate::edwards::curve_rhs(r),
        crate::edwards::curve_rhs(r),
        crate::edwards::curve_rhs(r),
    );
    assert(congruent(curve1(v), 0));
    assert(congruent(curve2(v), 0));
    assert(congruent(curve3(v), 0));
    lemma_assoc_x_identity(v);
    lemma_combination_vanishes(
        cofactor_x1(v),
        curve1(v),
        cofactor_x2(v),
        curve2(v),
        cofactor_x3(v),
        curve3(v),
    );
    let rx = num_right_x(v) * den_left_x(v);
    lemma_congruent_add(num_left_x(v) * den_right_x(v) - rx, 0, rx, rx);
    lemma_assoc_y_identity(v);
    lemma_combination_vanishes(
        cofactor_y1(v),
        curve1(v),
        cofactor_y2(v),
        curve2(v),
        cofactor_y3(v),
        curve3(v),
    );
    let ry = num_right_y(v) * den_left_y(v);
    lemma_congruent_add(num_left_y(v) * den_right_y(v) - ry, 0, ry, ry);
}

/// `(x*y)*(u*w) == ((x*u)*w)*y`.
proof fn lemma_regroup(x: int, y: int, u: int, w: int)
    ensures
        (x * y) * (u * w) == ((x * u) * w) * y,
        (x * y) * (u * w) == ((x * w) * u) * y,
        (x * y) * (u * w) == y * ((x * u) * w),
        (x * y) * (u * w) == y * ((x * w) * u),
{
    lemma_mul_right_comm(x, y, u * w);
    lemma_mul_assoc(x, u, w);
    lemma_mul_comm(u, w);
    lemma_mul_assoc(x, w, u);
    lemma_mul_comm(y, (x * u) * w);
    lemma_mul_comm(y, (x * w) * u);
}

/// `((sx*p)*(sy*q))*(u*w) == ((sx*u)*(sy*w))*(q*p)`, in the two orders of
/// `p` and `q`.
proof fn lemma_regroup_six(sx: int, p: int, sy: int, q: int, u: int, w: int)
    ensures
        ((sx * p) * (sy * q)) * (u * w) == ((sx * u) * (sy * w)) * (q * p),
        ((sx * p) * (sy * q)) * (u * w) == ((sx * u) * (sy * w)) * (p * q),
        ((p * sx) * (q * sy)) * (u * w) == (p * q) * ((sx * u) * (sy * w)),
{
    lemma_mul_swap(sx, p, sy, q);
    lemma_mul_right_comm(sx * sy, p * q, u * w);
    lemma_mul_swap(sx, sy, u, w);
    lemma_mul_comm(p, q);
    lemma_mul_comm(p, sx);
    lemma_mul_comm(q, sy);
    lemma_mul_comm(p * q, (sx * u) * (sy * w));
}

/// The numerators and denominators of `S + R`, where `S = P + Q`, times
/// the two denominators of `S`, are congruent to the polynomials of the left
/// side.
proof fn lemma_left_side(p: Coords, q: Coords, r: Coords)
    requires
        add_spec(p, q).is_some(),
    ensures
        ({
            let v = vars(p, q, r);
            let s = add_spec(p, q).unwrap();
            let k = dx12(v) * dy12(v);
            &&& congruent(numerator_x(s, r) * k, num_left_x(v))
            &&& congruent(denominator_x(s, r) * k, den_left_x(v))
            &&& congruent(numerator_y(s, r) * k, num_left_y(v))
            &&& congruent(denominator_y(s, r) * k, den_left_y(v))
        }),
{
    let v = vars(p, q, r);
    let s = add_spec(p, q).unwrap();
    let (a, d, x3, y3) = (v.a, v.d, r.x, r.y);
    let (dx, dy) = (dx12(v), dy12(v));
    let (nx, ny) = (n12x(v), n12y(v));
    let k = dx * dy;
    lemma_numerator_y(p, q);
    lemma_numerator_y(s, r);
    assert(denominator_x(p, q) == dx);
    assert(denominator_y(p, q) == dy);
    assert(numerator_x(p, q) == nx);
    assert(numerator_y(p, q) == ny);
    lemma_quotient(nx, dx);
    lemma_quotient(ny, dy);
    let bx = s.x * dx;
    let by = s.y * dy;
    // first numerator
    lemma_mul_dist(k, s.x * y3, s.y * x3);
    lemma_regroup(s.x, y3, dx, dy);
    lemma_mul_comm(dx, dy);
    lemma_regroup(s.y, x3, dy, dx);
    lemma_congruent_mul(bx, nx, dy, dy);
    lemma_congruent_mul(bx * dy, nx * dy, y3, y3);
    lemma_congruent_mul(by, ny, dx, dx);
    lemma_congruent_mul(by * dx, ny * dx, x3, x3);
    lemma_congruent_add((bx * dy) * y3, (nx * dy) * y3, (by * dx) * x3, (ny * dx) * x3);
    assert(numerator_x(s, r) * k == (bx * dy) * y3 + (by * dx) * x3);
    // second numerator
    lemma_mul_dist(k, s.y * y3, a * (s.x * x3));
    vstd::arithmetic::mul::lemma_mul_is_distributive_sub_other_way(k, s.y * y3, a * (s.x * x3));
    lemma_regroup(s.y, y3, dy, dx);
    lemma_mul_assoc(a, s.x * x3, k);
    lemma_regroup(s.x, x3, dx, dy);
    lemma_congruent_mul(by * dx, ny * dx, y3, y3);
    lemma_congruent_mul(bx * dy, nx * dy, x3, x3);
    lemma_congruent_mul(a, a, (bx * dy) * x3, (nx * dy) * x3);
    lemma_congruent_sub(
        (by * dx) * y3,
        (ny * dx) * y3,
        a * ((bx * dy) * x3),
        a * ((nx * dy) * x3),
    );
    assert(numerator_y(s, r) * k == (by * dx) * y3 - a * ((bx * dy) * x3));
    // the denominators
    let t = (s.x * y3) * (s.y * x3);
    lemma_mul_dist(k, 1, d * t);
    vstd::arithmetic::mul::lemma_mul_is_distributive_sub_other_way(k, 1, d * t);
    lemma_mul_assoc(d, t, k);
    lemma_regroup_six(s.x, y3, s.y, x3, dx, dy);
    lemma_congruent_mul(bx, nx, by, ny);
    lemma_congruent_mul(bx * by, nx * ny, x3 * y3, x3 * y3);
    lemma_congruent_mul(d, d, (bx * by) * (x3 * y3), (nx * ny) * (x3 * y3));
    lemma_congruent_add(k, k, d * ((bx * by) * (x3 * y3)), d * ((nx * ny) * (x3 * y3)));
    lemma_congruent_sub(k, k, d * ((bx * by) * (x3 * y3)), d * ((nx * ny) * (x3 * y3)));
    assert(denominator_x(s, r) * k == k + d * ((bx * by) * (x3 * y3)));
    assert(denominator_y(s, r) * k == k - d * ((bx * by) * (x3 * y3)));
}

/// The numerators and denominators of `P + T`, where `T = Q + R`, times
/// the two denominators of `T`, are congruent to the polynomials of the
/// right side.
proof fn lemma_right_side(p: Coords, q: Coords, r: Coords)
    requires
        add_spec(q, r).is_some(),
    ensures
        ({
            let v = vars(p, q, r);
            let t = add_spec(q, r).unwrap();
            let k = dx23(v) * dy23(v);
            &&& congruent(numerator_x(p, t) * k, num_right_x(v))
            &&& congruent(denominator_x(p, t) * k, den_right_x(v))
            &&& congruent(numerator_y(p, t) * k, num_right_y(v))
            &&& congruent(denominator_y(p, t) * k, den_right_y(v))
        }),
{
    let v = vars(p, q, r);
    let s = add_spec(q, r).unwrap();
    let (a, d, x1, y1) = (v.a, v.d, p.x, p.y);
    let (dx, dy) = (dx23(v), dy23(v));
    let (nx, ny) = (n23x(v), n23y(v));
    let k = dx * dy;
    lemma_numerator_y(q, r);
    lemma_numerator_y(p, s);
    assert(denominator_x(q, r) == dx);
    assert(denominator_y(q, r) == dy);
    assert(numerator_x(q, r) == nx);
    assert(numerator_y(q, r) == ny);
    lemma_quotient(nx, dx);
    lemma_quotient(ny, dy);
    let bx = s.x * dx;
    let by = s.y * dy;
    // first numerator: (x1*ty + y1*tx) * k
    lemma_mul_dist(k, x1 * s.y, y1 * s.x);
    lemma_mul_comm(x1, s.y);
    lemma_mul_comm(y1, s.x);
    lemma_mul_comm(dx, dy);
    lemma_regroup(s.y, x1, dy, dx);
    lemma_regroup(s.x, y1, dx, dy);
    lemma_congruent_mul(by, ny, dx, dx);
    lemma_congruent_mul(x1, x1, by * dx, ny * dx);
    lemma_congruent_mul(bx, nx, dy, dy);
    lemma_congruent_mul(y1, y1, bx * dy, nx * dy);
    lemma_congruent_add(x1 * (by * dx), x1 * (ny * dx), y1 * (bx * dy), y1 * (nx * dy));
    assert(numerator_x(p, s) * k == x1 * (by * dx) + y1 * (bx * dy));
    // second numerator: (y1*ty - a*(x1*tx)) * k
    vstd::arithmetic::mul::lemma_mul_is_distributive_sub_other_way(k, y1 * s.y, a * (x1 * s.x));
    lemma_mul_comm(y1, s.y);
    lemma_mul_comm(x1, s.x);
    lemma_regroup(s.y, y1, dy, dx);
    lemma_mul_assoc(a, x1 * s.x, k);
    lemma_regroup(s.x, x1, dx, dy);
    lemma_congruent_mul(y1, y1, by * dx, ny * dx);
    lemma_congruent_mul(x1, x1, bx * dy, nx * dy);
    lemma_congruent_mul(a, a, x1 * (bx * dy), x1 * (nx * dy));
    lemma_congruent_sub(
        y1 * (by * dx),
        y1 * (ny * dx),
        a * (x1 * (bx * dy)),
        a * (x1 * (nx * dy)),
    );
    assert(numerator_y(p, s) * k == y1 * (by * dx) - a * (x1 * (bx * dy)));
    // the denominators
    let t = (x1 * s.y) * (y1 * s.x);
    lemma_mul_dist(k, 1, d * t);
    vstd::arithmetic::mul::lemma_mul_is_distributive_sub_other_way(k, 1, d * t);
    lemma_mul_assoc(d, t, k);
    lemma_regroup_six(s.y, x1, s.x, y1, dy, dx);
    lemma_mul_comm(by, bx);
    lemma_congruent_mul(bx, nx, by, ny);
    lemma_congruent_mul(x1 * y1, x1 * y1, bx * by, nx * ny);
    lemma_congruent_mul(d, d, (x1 * y1) * (bx * by), (x1 * y1) * (nx * ny));
    lemma_congruent_add(k, k, d * ((x1 * y1) * (bx * by)), d * ((x1 * y1) * (nx * ny)));
    lemma_congruent_sub(k, k, d * ((x1 * y1) * (bx * by)), d * ((x1 * y1) * (nx * ny)));
    assert(denominator_x(p, s) * k == k + d * ((x1 * y1) * (bx * by)));
    assert(denominator_y(p, s) * k == k - d * ((x1 * y1) * (bx * by)));
}

/// The product of two invertible numbers is invertible.
proof fn lemma_inverse_of_product(u: int, iu: int, w: int, iw: int)
    requires
        congruent(u * iu, 1),
        congruent(w * iw, 1),
    ensures
        congruent((u * w) * (iu * iw), 1),
{
    lemma_mul_swap(u, w, iu, iw);
    lemma_congruent_mul(u * iu, 1, w * iw, 1);
    assert(1int * 1int == 1);
}

/// A number congruent to an invertible one has the same inverse.
proof fn lemma_inverse_carries(u: int, w: int, i: int)
    requires
        congruent(u, w),
        congruent(u * i, 1),
    ensures
        congruent(w * i, 1),
{
    lemma_congruent_mul(u, w, i, i);
}

/// One coordinate of the two sums of three points.
///
/// `cl` and `cr` are the coordinate on the left and on the right, each the
/// quotient of `nl / dl` and `nr / dr`. Times `kl` and `kr`, the numerators
/// and denominators are congruent to polynomials whose cross products are
/// congruent. Then the two coordinates are congruent.
proof fn lemma_coordinates_agree(
    cl: int,
    nl: int,
    dl: int,
    kl: int,
    cr: int,
    nr: int,
    dr: int,
    kr: int,
    pnl: int,
    pdl: int,
    pnr: int,
    pdr: int,
    idl: int,
    ikl: int,
    idr: int,
    ikr: int,
)
    requires
        congruent(cl * dl, nl),
        congruent(cr * dr, nr),
        congruent(nl * kl, pnl),
        congruent(dl * kl, pdl),
        congruent(nr * kr, pnr),
        congruent(dr * kr, pdr),
        congruent(pnl * pdr, pnr * pdl),
        congruent(dl * idl, 1),
        congruent(kl * ikl, 1),
        congruent(dr * idr, 1),
        congruent(kr * ikr, 1),
    ensures
        congruent(cl, cr),
{
    // cl * pdl is congruent to pnl, and cr * pdr to pnr
    lemma_congruent_mul(cl * dl, nl, kl, kl);
    lemma_mul_assoc(cl, dl, kl);
    lemma_congruent_mul(cl, cl, dl * kl, pdl);
    assert(congruent(cl * pdl, pnl));
    lemma_congruent_mul(cr * dr, nr, kr, kr);
    lemma_mul_assoc(cr, dr, kr);
    lemma_congruent_mul(cr, cr, dr * kr, pdr);
    assert(congruent(cr * pdr, pnr));
    // cl * (pdl * pdr) is congruent to cr * (pdl * pdr)
    lemma_congruent_mul(cl * pdl, pnl, pdr, pdr);
    lemma_mul_assoc(cl, pdl, pdr);
    lemma_congruent_mul(cr * pdr, pnr, pdl, pdl);
    lemma_mul_assoc(cr, pdr, pdl);
    lemma_mul_comm(pdr, pdl);
    assert(congruent(cl * (pdl * pdr), cr * (pdl * pdr)));
    // pdl * pdr is invertible
    lemma_inverse_of_product(dl, idl, kl, ikl);
    lemma_inverse_carries(dl * kl, pdl, idl * ikl);
    lemma_inverse_of_product(dr, idr, kr, ikr);
    lemma_inverse_carries(dr * kr, pdr, idr * ikr);
    lemma_inverse_of_product(pdl, idl * ikl, pdr, idr * ikr);
    let j = (idl * ikl) * (idr * ikr);
    let k = pdl * pdr;
    // cancel it
    lemma_congruent_mul(cl * k, cr * k, j, j);
    lemma_mul_assoc(cl, k, j);
    lemma_mul_assoc(cr, k, j);
    lemma_congruent_mul(cl, cl, k * j, 1);
    lemma_congruent_mul(cr, cr, k * j, 1);
    assert(cl * 1 == cl);
    assert(cr * 1 == cr);
}

/// The addition law is associative: for three points on the curve,
/// `(P + Q) + R` is `P + (Q + R)`, wherever the four additions have a
/// result.
pub proof fn lemma_add_associative(p: Coords, q: Coords, r: Coords)
    requires
        on_curve(p),
        on_curve(q),
        on_curve(r),
        add_spec(p, q).is_some(),
        add_spec(q, r).is_some(),
        add_spec(add_spec(p, q).unwrap(), r).is_some(),
        add_spec(p, add_spec(q, r).unwrap()).is_some(),
    ensures
        add_spec(add_spec(p, q).unwrap(), r) == add_spec(p, add_spec(q, r).unwrap()),
{
    let v = vars(p, q, r);
    let s = add_spec(p, q).unwrap();
    let t = add_spec(q, r).unwrap();
    let left = add_spec(s, r).unwrap();
    let right = add_spec(p, t).unwrap();
    let kl = dx12(v) * dy12(v);
    let kr = dx23(v) * dy23(v);
    lemma_cross_products(p, q, r);
    lemma_left_side(p, q, r);
    lemma_right_side(p, q, r);
    assert(denominator_x(p, q) == dx12(v));
    assert(denominator_y(p, q) == dy12(v));
    assert(denominator_x(q, r) == dx23(v));
    assert(denominator_y(q, r) == dy23(v));
    lemma_quotient(0, dx12(v));
    lemma_quotient(0, dy12(v));
    lemma_quotient(0, dx23(v));
    lemma_quotient(0, dy23(v));
    lemma_inverse_of_product(dx12(v), finv(dx12(v)), dy12(v), finv(dy12(v)));
    lemma_inverse_of_product(dx23(v), finv(dx23(v)), dy23(v), finv(dy23(v)));
    let ikl = finv(dx12(v)) * finv(dy12(v));
    let ikr = finv(dx23(v)) * finv(dy23(v));
    lemma_quotient(numerator_x(s, r), denominator_x(s, r));
    lemma_quotient(numerator_x(p, t), denominator_x(p, t));
    lemma_coordinates_agree(
        left.x,
        numerator_x(s, r),
        denominator_x(s, r),
        kl,
        right.x,
        numerator_x(p, t),
        denominator_x(p, t),
        kr,
        num_left_x(v),
        den_left_x(v),
        num_right_x(v),
        den_right_x(v),
        finv(denominator_x(s, r)),
        ikl,
        finv(denominator_x(p, t)),
        ikr,
    );
    lemma_quotient(numerator_y(s, r), denominator_y(s, r));
    lemma_quotient(numerator_y(p, t), denominator_y(p, t));
    lemma_coordinates_agree(
        left.y,
        numerator_y(s, r),
        denominator_y(s, r),
        kl,
        right.y,
        numerator_y(p, t),
        denominator_y(p, t),
        kr,
        num_left_y(v),
        den_left_y(v),
        num_right_y(v),
        den_right_y(v),
        finv(denominator_y(s, r)),
        ikl,
        finv(denominator_y(p, t)),
        ikr,
    );
    vstd::arithmetic::div_mod::lemma_mod_bound(
        numerator_x(s, r) * finv(denominator_x(s, r)),
        modulus(),
    );
    vstd::arithmetic::div_mod::lemma_mod_bound(
        numerator_y(s, r) * finv(denominator_y(s, r)),
        modulus(),
    );
    vstd::arithmetic::div_mod::lemma_mod_bound(
        numerator_x(p, t) * finv(denominator_x(p, t)),
        modulus(),
    );
    vstd::arithmetic::div_mod::lemma_mod_bound(
        numerator_y(p, t) * finv(denominator_y(p, t)),
        modulus(),
    );
    lemma_congruent_reduced(left.x, right.x);
    lemma_congruent_reduced(left.y, right.y);
}

} // verus!
