//! Exact signs of expressions with square roots.
//!
//! The distance predicates must compare arc distances whose exact values have
//! the form (a + b * sqrt(l)) / c with integer a, b, c, l. Every such
//! comparison reduces to the sign of `b * sqrt(l) - a` or of
//! `p * sqrt(l1) - q * sqrt(l2) - d`, and those signs are decided by the
//! classical squaring scheme: split on the signs of both sides, then compare
//! squares. The squared magnitudes exceed 128 bits for full-range input, so
//! the three polynomial sign evaluations at the bottom run in arbitrary
//! precision behind trusted wrappers; everything else is verified.

use vstd::prelude::*;

verus! {

/// The sign of an integer: -1, 0 or 1.
pub open spec fn isign(x: int) -> int {
    if x > 0 {
        1
    } else if x < 0 {
        -1
    } else {
        0
    }
}

/// The sign of `b * sqrt(l) - a` for l >= 0, written without square roots:
/// when both sides of `b * sqrt(l) <> a` have the same sign, their order is
/// the order of their squares `b * b * l` and `a * a`.
pub open spec fn sign_root1(b: int, l: int, a: int) -> int
    recommends
        l >= 0,
{
    if b >= 0 {
        if a < 0 {
            1
        } else {
            isign(b * b * l - a * a)
        }
    } else {
        if a >= 0 {
            if a == 0 && b * b * l == 0 {
                0
            } else {
                -1
            }
        } else {
            isign(a * a - b * b * l)
        }
    }
}

/// The sign of `p * sqrt(l1) - q * sqrt(l2) - d` for l1, l2 >= 0, written
/// without square roots. The right side `q * sqrt(l2) + d` has the sign
/// `sign_root1(q, l2, -d)`; when both sides agree in sign the comparison
/// squares once more, leaving the single-root comparison of
/// `2 * q * d * sqrt(l2)` against `p * p * l1 - q * q * l2 - d * d`.
pub open spec fn sign_root2(p: int, l1: int, q: int, l2: int, d: int) -> int
    recommends
        l1 >= 0,
        l2 >= 0,
{
    let t = sign_root1(q, l2, -d);
    let lhs_zero = p * p * l1 == 0;
    let lhs_pos = p > 0 && l1 > 0;
    let lhs_neg = p < 0 && l1 > 0;
    if !lhs_neg && t <= 0 {
        if lhs_zero && t == 0 {
            0
        } else {
            1
        }
    } else if !lhs_pos && t >= 0 {
        if lhs_zero && t == 0 {
            0
        } else {
            -1
        }
    } else if lhs_pos {
        -sign_root1(2 * q * d, l2, p * p * l1 - q * q * l2 - d * d)
    } else {
        sign_root1(2 * q * d, l2, p * p * l1 - q * q * l2 - d * d)
    }
}

/// Relies on num::BigInt: From<i128>, Mul, Sub and BigInt::sign are exact, so
/// the returned value is the sign of b*b*l - a*a.
#[verifier::external_body]
fn big_sign_sq_cmp(b: i128, l: i128, a: i128) -> (r: i8)
    ensures
        r as int == isign(b * b * l - a * a),
{
    let bb = num::BigInt::from(b);
    let ll = num::BigInt::from(l);
    let aa = num::BigInt::from(a);
    match (&bb * &bb * &ll - &aa * &aa).sign() {
        num::bigint::Sign::Minus => -1,
        num::bigint::Sign::NoSign => 0,
        num::bigint::Sign::Plus => 1,
    }
}

/// Relies on num::BigInt: From<i128>, Mul, Sub and BigInt::sign are exact, so
/// the returned value is the sign of p*p*l1 - q*q*l2 - d*d.
#[verifier::external_body]
fn big_sign_mid(p: i128, l1: i128, q: i128, l2: i128, d: i128) -> (r: i8)
    ensures
        r as int == isign(p * p * l1 - q * q * l2 - d * d),
{
    let pp = num::BigInt::from(p);
    let n1 = num::BigInt::from(l1);
    let qq = num::BigInt::from(q);
    let n2 = num::BigInt::from(l2);
    let dd = num::BigInt::from(d);
    match (&pp * &pp * &n1 - &qq * &qq * &n2 - &dd * &dd).sign() {
        num::bigint::Sign::Minus => -1,
        num::bigint::Sign::NoSign => 0,
        num::bigint::Sign::Plus => 1,
    }
}

/// Relies on num::BigInt: From<i128>, Mul, Sub and BigInt::sign are exact, so
/// the returned value is the sign of
/// 4*q*q*d*d*l2 - (p*p*l1 - q*q*l2 - d*d)^2.
#[verifier::external_body]
fn big_sign_disc(p: i128, l1: i128, q: i128, l2: i128, d: i128) -> (r: i8)
    ensures
        r as int == isign(
            4 * q * q * d * d * l2 - (p * p * l1 - q * q * l2 - d * d) * (p * p * l1 - q * q * l2
                - d * d),
        ),
{
    let pp = num::BigInt::from(p);
    let n1 = num::BigInt::from(l1);
    let qq = num::BigInt::from(q);
    let n2 = num::BigInt::from(l2);
    let dd = num::BigInt::from(d);
    let mid = &pp * &pp * &n1 - &qq * &qq * &n2 - &dd * &dd;
    match (num::BigInt::from(4) * &qq * &qq * &dd * &dd * &n2 - &mid * &mid).sign() {
        num::bigint::Sign::Minus => -1,
        num::bigint::Sign::NoSign => 0,
        num::bigint::Sign::Plus => 1,
    }
}

/// Decides the sign of `b * sqrt(l) - a` exactly.
pub fn eval_sign_root1(b: i128, l: i128, a: i128) -> (r: i8)
    requires
        l >= 0,
    ensures
        r as int == sign_root1(b as int, l as int, a as int),
{
    if b >= 0 {
        if a < 0 {
            1
        } else {
            big_sign_sq_cmp(b, l, a)
        }
    } else {
        if a >= 0 {
            proof {
                assert(b as int * b as int * l as int == 0 <==> l as int == 0)
                    by (nonlinear_arith)
                    requires
                        b < 0,
                        l >= 0,
                ;
            }
            if a == 0 && l == 0 {
                0
            } else {
                -1
            }
        } else {
            let s = big_sign_sq_cmp(b, l, a);
            proof {
                assert(isign(a as int * a as int - b as int * b as int * l as int) == -isign(
                    b as int * b as int * l as int - a as int * a as int,
                ));
            }
            -s
        }
    }
}

/// Decides the sign of `p * sqrt(l1) - q * sqrt(l2) - d` exactly.
pub fn eval_sign_root2(p: i128, l1: i128, q: i128, l2: i128, d: i128) -> (r: i8)
    requires
        l1 >= 0,
        l2 >= 0,
        d != i128::MIN,
    ensures
        r as int == sign_root2(p as int, l1 as int, q as int, l2 as int, d as int),
{
    let t = eval_sign_root1(q, l2, -d);
    proof {
        assert(p as int * p as int * l1 as int == 0 <==> (p == 0 || l1 == 0))
            by (nonlinear_arith);
        assert(p > 0 && l1 > 0 ==> p as int * p as int * l1 as int > 0) by (nonlinear_arith);
        assert(p < 0 && l1 > 0 ==> p as int * p as int * l1 as int > 0) by (nonlinear_arith);
    }
    let lhs_zero = p == 0 || l1 == 0;
    let lhs_pos = p > 0 && l1 > 0;
    let lhs_neg = p < 0 && l1 > 0;
    if !lhs_neg && t <= 0 {
        if lhs_zero && t == 0 {
            0
        } else {
            1
        }
    } else if !lhs_pos && t >= 0 {
        if lhs_zero && t == 0 {
            0
        } else {
            -1
        }
    } else {
        // Both sides of the outer comparison are strictly positive (or both
        // strictly negative); compare their squares, which leaves one root.
        let ghost gn: int = 2 * (q as int) * (d as int);
        let ghost gm: int = p as int * p as int * l1 as int - q as int * q as int * l2 as int
            - d as int * d as int;
        let sm = big_sign_mid(p, l1, q, l2, d);
        let n_zero = q == 0 || d == 0;
        let n_pos = (q > 0 && d > 0) || (q < 0 && d < 0);
        proof {
            assert(gn == 0 <==> (q == 0 || d == 0)) by (nonlinear_arith)
                requires
                    gn == 2 * (q as int) * (d as int),
            ;
            assert(gn > 0 <==> ((q > 0 && d > 0) || (q < 0 && d < 0))) by (nonlinear_arith)
                requires
                    gn == 2 * (q as int) * (d as int),
            ;
            assert(gn * gn * l2 as int == 4 * (q as int) * (q as int) * (d as int) * (d as int)
                * (l2 as int)) by (nonlinear_arith)
                requires
                    gn == 2 * (q as int) * (d as int),
            ;
        }
        let inner: i8 = if n_zero || n_pos {
            // The root coefficient 2*q*d is nonnegative.
            if sm < 0 {
                1
            } else {
                big_sign_disc(p, l1, q, l2, d)
            }
        } else {
            // The root coefficient 2*q*d is negative.
            if sm >= 0 {
                proof {
                    assert(gn * gn * (l2 as int) == 0 <==> l2 == 0) by (nonlinear_arith)
                        requires
                            gn != 0,
                            l2 >= 0,
                    ;
                }
                if sm == 0 && l2 == 0 {
                    0
                } else {
                    -1
                }
            } else {
                let w = big_sign_disc(p, l1, q, l2, d);
                -w
            }
        };
        proof {
            assert(inner as int == sign_root1(gn, l2 as int, gm));
        }
        if lhs_pos {
            -inner
        } else {
            inner
        }
    }
}

} // verus!
