//! The addition law stays on the curve.
//!
//! With `nx, ny` the numerators and `dx, dy` the denominators of the sum of two
//! points, the sum lies on the curve exactly when
//! `a*nx^2*dy^2 + ny^2*dx^2 - d*nx^2*ny^2` is congruent to `dx^2*dy^2`. That
//! polynomial is the product of two factors, each of which the curve equations
//! of the two points turn into `1 - d^2 * (x1*y1*x2*y2)^2 = dx*dy`.

use crate::edwards::{
    add_spec, congruent, curve_lhs, curve_rhs, denominator_x, denominator_y, lemma_congruent_add,
    lemma_congruent_mul, lemma_congruent_reduce, lemma_congruent_sub, numerator_x, numerator_y,
    on_curve, param_a, param_d, Coords,
};
use crate::field::{finv, fmul, invertible, is_inverse, modulus};
use crate::ring::{
    lemma_difference_of_squares, lemma_expand_difference, lemma_expand_differences,
    lemma_expand_product, lemma_mul_assoc, lemma_mul_comm, lemma_mul_dist, lemma_mul_left_comm,
    lemma_mul_swap, lemma_scale_combination, lemma_shifted_product, lemma_square_difference,
    lemma_square_sum, lemma_times_shifted, lemma_times_square,
};
use vstd::prelude::*;

verus! {

/// The numerator of the second coordinate is `y1*y2 - a*x1*x2`.
pub proof fn lemma_numerator_y(p: Coords, q: Coords)
    ensures
        numerator_y(p, q) == p.y * q.y - param_a() * (p.x * q.x),
{
    let a = param_a();
    let (x1, y1, x2, y2) = (p.x, p.y, q.x, q.y);
    let ax = a * x1;
    lemma_expand_difference(y1, ax, x2, y2);
    lemma_mul_assoc(a, x1, x2);
    lemma_mul_assoc(a, x1, y2);
}

/// With `u2 = U + 2t` and `v2 = V - 2at`, the closure polynomial in terms of
/// `U`, `V` and `t`.
proof fn lemma_closure_core(a: int, d: int, uu: int, vv: int, t: int, u2: int, v2: int)
    requires
        u2 == uu + 2 * t,
        v2 == vv - 2 * (a * t),
    ensures
        a * u2 * ((1 - d * t) * (1 - d * t)) + v2 * ((1 + d * t) * (1 + d * t)) - d * (u2 * v2)
            == (a * uu + vv) * (1 + d * d * (t * t)) - d * (uu * vv + 4 * (a * (t * t))),
{
    let k = d * t;
    let w = a * t;
    let big = a * u2;
    let kk = k * k;
    let main = a * uu + vv;
    // big == a*uu + 2w
    lemma_mul_dist(a, uu, 2 * t);
    lemma_mul_left_comm(a, 2, t);
    assert(big == a * uu + 2 * w);
    assert(big + v2 == main);
    // the two squares
    lemma_times_square(big, k);
    lemma_times_square(v2, k);
    assert(big * ((1 - k) * (1 - k)) + v2 * ((1 + k) * (1 + k)) == main - 2 * (big * k) + 2 * (v2
        * k) + big * kk + v2 * kk);
    // main * (1 + kk)
    lemma_mul_swap(d, t, d, t);
    assert(kk == d * d * (t * t));
    lemma_mul_dist(main, 1, kk);
    lemma_mul_dist(kk, big, v2);
    assert(main * (1 + kk) == main + big * kk + v2 * kk);
    // the terms with one factor d
    lemma_mul_left_comm(big, d, t);
    lemma_mul_left_comm(v2, d, t);
    assert(big * k == d * (big * t));
    assert(v2 * k == d * (v2 * t));
    lemma_scale_combination(d, big * t, v2 * t, u2 * v2);
    let inner = 2 * (big * t) - 2 * (v2 * t) + u2 * v2;
    assert(2 * (big * k) - 2 * (v2 * k) + d * (u2 * v2) == d * inner);
    lemma_times_shifted(a * uu, w, t);
    lemma_times_shifted(vv, w, t);
    lemma_shifted_product(uu, t, vv, w);
    lemma_mul_assoc(a, uu, t);
    lemma_mul_left_comm(uu, a, t);
    assert((a * uu) * t == uu * w);
    lemma_mul_assoc(a, t, t);
    lemma_mul_left_comm(t, a, t);
    assert(w * t == a * (t * t));
    assert(t * w == a * (t * t));
    lemma_mul_comm(vv, t);
    assert(inner == uu * vv + 4 * (a * (t * t)));
}

/// The products of the four coordinates that the closure polynomial is made of.
proof fn lemma_closure_products(a: int, x1: int, y1: int, x2: int, y2: int)
    ensures
        ({
            let b = x1 * y2;
            let g = y1 * x2;
            let pp = x1 * x2;
            let qq = y1 * y2;
            let a1 = a * (x1 * x1) + y1 * y1;
            let a2 = a * (x2 * x2) + y2 * y2;
            let s1 = (x1 * x1) * (y1 * y1);
            let s2 = (x2 * x2) * (y2 * y2);
            let uu = b * b + g * g;
            let vv = qq * qq + a * a * (pp * pp);
            let t = b * g;
            &&& (b + g) * (b + g) == uu + 2 * t
            &&& (qq - a * pp) * (qq - a * pp) == vv - 2 * (a * t)
            &&& a * uu + vv == a1 * a2
            &&& uu * vv + 4 * (a * (t * t)) == s2 * (a1 * a1) + s1 * (a2 * a2)
            &&& s1 * s2 == t * t
        }),
{
    let b = x1 * y2;
    let g = y1 * x2;
    let pp = x1 * x2;
    let qq = y1 * y2;
    let sx1 = x1 * x1;
    let sy1 = y1 * y1;
    let sx2 = x2 * x2;
    let sy2 = y2 * y2;
    let m1 = a * sx1;
    let m2 = a * sx2;
    let a1 = m1 + sy1;
    let a2 = m2 + sy2;
    let s1 = sx1 * sy1;
    let s2 = sx2 * sy2;
    let bb = b * b;
    let gg = g * g;
    let uu = bb + gg;
    let m = a * pp;
    let mm = m * m;
    let q2 = qq * qq;
    let vv = q2 + a * a * (pp * pp);
    let t = b * g;
    // squares of the four products
    lemma_mul_swap(x1, y2, x1, y2);
    assert(bb == sx1 * sy2);
    lemma_mul_swap(y1, x2, y1, x2);
    assert(gg == sy1 * sx2);
    lemma_mul_swap(x1, x2, x1, x2);
    assert(pp * pp == sx1 * sx2);
    lemma_mul_swap(y1, y2, y1, y2);
    assert(q2 == sy1 * sy2);
    lemma_mul_swap(a, pp, a, pp);
    assert(mm == a * a * (pp * pp));
    // t == pp * qq
    lemma_mul_swap(x1, y2, y1, x2);
    lemma_mul_swap(x1, x2, y1, y2);
    lemma_mul_comm(y2, x2);
    assert(pp * qq == t);
    // (b + g)^2
    lemma_square_sum(b, g);
    // (qq - a*pp)^2
    lemma_square_difference(qq, m);
    lemma_mul_comm(qq, m);
    lemma_mul_assoc(a, pp, qq);
    assert(qq * m == a * t);
    assert((qq - a * pp) * (qq - a * pp) == vv - 2 * (a * t));
    // s1 * s2 == t^2
    lemma_mul_swap(b, g, b, g);
    lemma_mul_swap(sx1, sy2, sy1, sx2);
    lemma_mul_comm(sy2, sx2);
    assert(t * t == s1 * s2);
    // a*uu + vv == a1*a2
    lemma_expand_product(m1, sy1, m2, sy2);
    lemma_mul_swap(a, sx1, a, sx2);
    assert(m1 * m2 == mm);
    lemma_mul_assoc(a, sx1, sy2);
    assert(m1 * sy2 == a * bb);
    lemma_mul_comm(sy1, m2);
    lemma_mul_assoc(a, sx2, sy1);
    lemma_mul_comm(sx2, sy1);
    assert(sy1 * m2 == a * gg);
    lemma_mul_dist(a, bb, gg);
    assert(a * uu + vv == a1 * a2);
    // uu*vv + 4*a*t^2 == e^2 + f^2
    let e1 = m * b;
    let e2 = qq * g;
    let f1 = m * g;
    let f2 = qq * b;
    let e = e1 + e2;
    let f = f1 + f2;
    lemma_square_sum(e1, e2);
    lemma_square_sum(f1, f2);
    lemma_mul_swap(m, b, m, b);
    lemma_mul_swap(qq, g, qq, g);
    lemma_mul_swap(m, g, m, g);
    lemma_mul_swap(qq, b, qq, b);
    assert(e1 * e1 == mm * bb);
    assert(e2 * e2 == q2 * gg);
    assert(f1 * f1 == mm * gg);
    assert(f2 * f2 == q2 * bb);
    lemma_mul_swap(m, b, qq, g);
    lemma_mul_swap(m, g, qq, b);
    lemma_mul_comm(g, b);
    lemma_mul_comm(m, qq);
    assert(m * qq == a * t);
    lemma_mul_assoc(a, t, t);
    assert(e1 * e2 == a * (t * t));
    assert(f1 * f2 == a * (t * t));
    lemma_expand_product(bb, gg, q2, mm);
    lemma_mul_comm(bb, q2);
    lemma_mul_comm(bb, mm);
    lemma_mul_comm(gg, q2);
    lemma_mul_comm(gg, mm);
    assert(uu * vv == q2 * bb + mm * bb + q2 * gg + mm * gg);
    assert(e * e + f * f == uu * vv + 4 * (a * (t * t)));
    // e == (x2*y2) * a1
    let c2 = x2 * y2;
    lemma_mul_assoc(a, pp, b);
    lemma_mul_swap(x1, x2, x1, y2);
    assert(e1 == a * (sx1 * c2));
    lemma_mul_comm(c2, m1);
    lemma_mul_assoc(a, sx1, c2);
    assert(e1 == c2 * m1);
    lemma_mul_swap(y1, y2, y1, x2);
    lemma_mul_comm(c2, sy1);
    assert(e2 == c2 * sy1);
    lemma_mul_dist(c2, m1, sy1);
    assert(e == c2 * a1);
    // f == (x1*y1) * a2
    let c1 = x1 * y1;
    lemma_mul_assoc(a, pp, g);
    lemma_mul_swap(x1, x2, y1, x2);
    assert(f1 == a * (c1 * sx2));
    lemma_mul_comm(c1, m2);
    lemma_mul_assoc(a, sx2, c1);
    lemma_mul_comm(sx2, c1);
    assert(f1 == c1 * m2);
    lemma_mul_swap(y1, y2, x1, y2);
    lemma_mul_comm(y1, x1);
    assert(f2 == c1 * sy2);
    lemma_mul_dist(c1, m2, sy2);
    assert(f == c1 * a2);
    // their squares
    lemma_mul_swap(c2, a1, c2, a1);
    lemma_mul_swap(x2, y2, x2, y2);
    assert(e * e == s2 * (a1 * a1));
    lemma_mul_swap(c1, a2, c1, a2);
    lemma_mul_swap(x1, y1, x1, y1);
    assert(f * f == s1 * (a2 * a2));
}

/// The product of the two factors that the closure polynomial splits into.
proof fn lemma_closure_split(d: int, a1: int, a2: int, s1: int, s2: int)
    ensures
        (a1 - (d * s1) * a2) * (a2 - (d * s2) * a1) == (a1 * a2) * (1 + d * d * (s1 * s2)) - d * (s2
            * (a1 * a1) + s1 * (a2 * a2)),
{
    let e1 = (d * s1) * a2;
    let e2 = (d * s2) * a1;
    let m = a1 * a2;
    let z = d * d * (s1 * s2);
    let h1 = s2 * (a1 * a1);
    let h2 = s1 * (a2 * a2);
    lemma_expand_differences(a1, e1, a2, e2);
    // a1 * e2 == d * h1
    lemma_mul_left_comm(a1, d * s2, a1);
    lemma_mul_assoc(d, s2, a1 * a1);
    assert(a1 * e2 == d * h1);
    // e1 * a2 == d * h2
    lemma_mul_assoc(d * s1, a2, a2);
    lemma_mul_assoc(d, s1, a2 * a2);
    assert(e1 * a2 == d * h2);
    // e1 * e2 == m * z
    lemma_mul_swap(d * s1, a2, d * s2, a1);
    lemma_mul_swap(d, s1, d, s2);
    lemma_mul_comm(a2, a1);
    lemma_mul_comm(z, m);
    assert(e1 * e2 == m * z);
    lemma_mul_dist(m, 1, z);
    lemma_mul_dist(d, h1, h2);
}

/// Where `k` is invertible, a congruence between multiples of `k` holds of
/// the multiplied numbers too.
proof fn lemma_cancel(l: int, r: int, k: int, j: int)
    requires
        congruent(l * k, r * k),
        congruent(k * j, 1),
    ensures
        congruent(l, r),
{
    lemma_congruent_mul(l * k, r * k, j, j);
    lemma_mul_assoc(l, k, j);
    lemma_mul_assoc(r, k, j);
    lemma_congruent_mul(l, l, k * j, 1);
    lemma_congruent_mul(r, r, k * j, 1);
    assert(l * 1 == l);
    assert(r * 1 == r);
}

/// The quotient `n / den`, multiplied by `den`, gives `n` back.
pub proof fn lemma_quotient(n: int, den: int)
    requires
        invertible(den),
    ensures
        congruent(fmul(n, finv(den)) * den, n),
        congruent(den * finv(den), 1),
{
    let i = finv(den);
    assert(is_inverse(den, i));
    let x = fmul(n, i);
    lemma_congruent_reduce(n * i);
    lemma_congruent_mul(x, n * i, den, den);
    lemma_mul_assoc(n, i, den);
    lemma_mul_comm(i, den);
    vstd::arithmetic::div_mod::lemma_small_mod(1, modulus() as nat);
    lemma_congruent_mul(n, n, den * i, 1);
    assert(n * 1 == n);
}

/// The closure polynomial of two points on the curve is congruent to the
/// squared product of the two denominators.
proof fn lemma_closure_congruence(p: Coords, q: Coords)
    requires
        on_curve(p),
        on_curve(q),
    ensures
        ({
            let a = param_a();
            let d = param_d();
            let u2 = numerator_x(p, q) * numerator_x(p, q);
            let v2 = numerator_y(p, q) * numerator_y(p, q);
            let dx = denominator_x(p, q);
            let dy = denominator_y(p, q);
            congruent(
                a * u2 * (dy * dy) + v2 * (dx * dx),
                (dx * dx) * (dy * dy) + d * (u2 * v2),
            )
        }),
{
    let a = param_a();
    let d = param_d();
    let (x1, y1, x2, y2) = (p.x, p.y, q.x, q.y);
    let b = x1 * y2;
    let g = y1 * x2;
    let pp = x1 * x2;
    let qq = y1 * y2;
    let t = b * g;
    let a1 = a * (x1 * x1) + y1 * y1;
    let a2 = a * (x2 * x2) + y2 * y2;
    let s1 = (x1 * x1) * (y1 * y1);
    let s2 = (x2 * x2) * (y2 * y2);
    let uu = b * b + g * g;
    let vv = qq * qq + a * a * (pp * pp);
    let nx = numerator_x(p, q);
    let ny = numerator_y(p, q);
    let u2 = nx * nx;
    let v2 = ny * ny;
    let dx = denominator_x(p, q);
    let dy = denominator_y(p, q);
    lemma_numerator_y(p, q);
    lemma_closure_products(a, x1, y1, x2, y2);
    lemma_closure_core(a, d, uu, vv, t, u2, v2);
    lemma_closure_split(d, a1, a2, s1, s2);
    let poly = a * u2 * (dy * dy) + v2 * (dx * dx) - d * (u2 * v2);
    let f1 = a1 - (d * s1) * a2;
    let f2 = a2 - (d * s2) * a1;
    assert(poly == f1 * f2);
    // both factors are congruent to w = 1 - d^2 * s1 * s2
    let c1 = 1 + d * s1;
    let c2 = 1 + d * s2;
    let z = d * d * (s1 * s2);
    let w = 1 - z;
    assert(congruent(a1, c1));
    assert(congruent(a2, c2));
    lemma_mul_swap(d, s1, d, s2);
    assert((d * s1) * (d * s2) == z);
    lemma_congruent_mul(d * s1, d * s1, a2, c2);
    lemma_congruent_sub(a1, c1, (d * s1) * a2, (d * s1) * c2);
    lemma_mul_dist(d * s1, 1, d * s2);
    assert(c1 - (d * s1) * c2 == w);
    lemma_congruent_mul(d * s2, d * s2, a1, c1);
    lemma_congruent_sub(a2, c2, (d * s2) * a1, (d * s2) * c1);
    lemma_mul_dist(d * s2, 1, d * s1);
    lemma_mul_comm(d * s2, d * s1);
    assert(c2 - (d * s2) * c1 == w);
    lemma_congruent_mul(f1, w, f2, w);
    // dx^2 * dy^2 == w^2
    let k = (dx * dx) * (dy * dy);
    lemma_mul_swap(dx, dx, dy, dy);
    lemma_difference_of_squares(d * t);
    lemma_mul_swap(d, t, d, t);
    assert(dx * dy == w);
    assert(k == w * w);
    assert(congruent(poly, k));
    lemma_congruent_add(poly, k, d * (u2 * v2), d * (u2 * v2));
}

/// The sum of two points on the curve, where the addition law gives one,
/// lies on the curve.
pub proof fn lemma_add_closed(p: Coords, q: Coords)
    requires
        on_curve(p),
        on_curve(q),
        add_spec(p, q).is_some(),
    ensures
        on_curve(add_spec(p, q).unwrap()),
{
    let a = param_a();
    let d = param_d();
    let r = add_spec(p, q).unwrap();
    let nx = numerator_x(p, q);
    let ny = numerator_y(p, q);
    let u2 = nx * nx;
    let v2 = ny * ny;
    let dx = denominator_x(p, q);
    let dy = denominator_y(p, q);
    let ix = finv(dx);
    let iy = finv(dy);
    let k1 = dx * dx;
    let k2 = dy * dy;
    let k = k1 * k2;
    let bx = r.x * dx;
    let by = r.y * dy;
    let sx = r.x * r.x;
    let sy = r.y * r.y;
    lemma_quotient(nx, dx);
    lemma_quotient(ny, dy);
    lemma_closure_congruence(p, q);
    lemma_congruent_mul(bx, nx, bx, nx);
    lemma_congruent_mul(by, ny, by, ny);
    lemma_mul_swap(r.x, dx, r.x, dx);
    assert(bx * bx == sx * k1);
    lemma_mul_swap(r.y, dy, r.y, dy);
    assert(by * by == sy * k2);
    // the left side of the equation, times k
    let left = curve_lhs(r);
    let m = a * sx;
    lemma_mul_dist(k, m, sy);
    lemma_mul_assoc(m, k1, k2);
    lemma_mul_assoc(a, sx, k1);
    assert(m * k == a * (bx * bx) * k2);
    lemma_mul_comm(k1, k2);
    lemma_mul_assoc(sy, k2, k1);
    assert(sy * k == (by * by) * k1);
    assert(left * k == a * (bx * bx) * k2 + (by * by) * k1);
    lemma_congruent_mul(a, a, bx * bx, u2);
    lemma_congruent_mul(a * (bx * bx), a * u2, k2, k2);
    lemma_congruent_mul(by * by, v2, k1, k1);
    lemma_congruent_add(a * (bx * bx) * k2, a * u2 * k2, (by * by) * k1, v2 * k1);
    // the right side of the equation, times k
    let right = curve_rhs(r);
    let z = d * (sx * sy);
    lemma_mul_dist(k, 1, z);
    lemma_mul_assoc(d, sx * sy, k);
    lemma_mul_swap(sx, sy, k1, k2);
    assert(z * k == d * ((bx * bx) * (by * by)));
    assert(right * k == k + d * ((bx * bx) * (by * by)));
    lemma_congruent_mul(bx * bx, u2, by * by, v2);
    lemma_congruent_mul(d, d, (bx * bx) * (by * by), u2 * v2);
    lemma_congruent_add(k, k, d * ((bx * bx) * (by * by)), d * (u2 * v2));
    assert(congruent(left * k, right * k));
    // k is invertible
    let j = (ix * ix) * (iy * iy);
    lemma_mul_swap(k1, k2, ix * ix, iy * iy);
    lemma_mul_swap(dx, dx, ix, ix);
    lemma_mul_swap(dy, dy, iy, iy);
    assert(k * j == ((dx * ix) * (dx * ix)) * ((dy * iy) * (dy * iy)));
    lemma_congruent_mul(dx * ix, 1int, dx * ix, 1int);
    lemma_congruent_mul(dy * iy, 1int, dy * iy, 1int);
    lemma_congruent_mul((dx * ix) * (dx * ix), 1int * 1int, (dy * iy) * (dy * iy), 1int * 1int);
    lemma_cancel(left, right, k, j);
}

} // verus!
