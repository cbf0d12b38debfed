//! Exact aspect ratios.
//!
//! An aspect ratio is kept as a fraction of two `u32`s in lowest terms, so
//! that two ratios describe the same proportion exactly when their stored
//! numerators and denominators coincide.

use vstd::arithmetic::div_mod::{lemma_fundamental_div_mod, lemma_fundamental_div_mod_converse};
use vstd::prelude::*;

verus! {

/// Greatest common divisor, by Euclid's algorithm.
pub open spec fn spec_gcd(a: nat, b: nat) -> nat
    decreases b,
{
    if b == 0 {
        a
    } else {
        spec_gcd(b, a % b)
    }
}

/// The gcd of anything with a positive number is positive.
pub proof fn lemma_gcd_pos(a: nat, b: nat)
    requires
        a >= 1 || b >= 1,
    ensures
        spec_gcd(a, b) >= 1,
    decreases b,
{
    if b == 0 {
    } else {
        lemma_gcd_pos(b, a % b);
    }
}

/// Euclid's algorithm.
pub fn gcd(a: u32, b: u32) -> (g: u32)
    ensures
        g == spec_gcd(a as nat, b as nat),
{
    let mut x: u32 = a;
    let mut y: u32 = b;
    while y != 0
        invariant
            spec_gcd(x as nat, y as nat) == spec_gcd(a as nat, b as nat),
        decreases y,
    {
        let r: u32 = x % y;
        x = y;
        y = r;
    }
    x
}

/// The fraction `w / h` in lowest terms.
pub open spec fn spec_reduce(w: nat, h: nat) -> (nat, nat) {
    (w / spec_gcd(w, h), h / spec_gcd(w, h))
}

/// Reduce the fraction `w / h` to lowest terms.
pub fn reduce_ratio(w: u32, h: u32) -> (r: (u32, u32))
    requires
        h >= 1,
    ensures
        (r.0 as nat, r.1 as nat) == spec_reduce(w as nat, h as nat),
{
    let g: u32 = gcd(w, h);
    proof {
        lemma_gcd_pos(w as nat, h as nat);
    }
    (w / g, h / g)
}

/// `d` divides `n`.
pub open spec fn divides(d: nat, n: nat) -> bool {
    exists|q: nat| n == #[trigger] (d * q)
}

/// The gcd divides both of its arguments.
pub proof fn lemma_gcd_divides(a: nat, b: nat)
    ensures
        divides(spec_gcd(a, b), a),
        divides(spec_gcd(a, b), b),
    decreases b,
{
    let g = spec_gcd(a, b);
    if b == 0 {
        assert(a == g * 1);
        assert(b == g * 0);
    } else {
        lemma_gcd_divides(b, a % b);
        let q1 = choose|q: nat| b == #[trigger] (g * q);
        let q2 = choose|q: nat| a % b == #[trigger] (g * q);
        lemma_fundamental_div_mod(a as int, b as int);
        let k: nat = a / b;
        assert(a == g * (q1 * k + q2)) by (nonlinear_arith)
            requires
                b == g * q1,
                a % b == g * q2,
                k == a / b,
                a == b * (a / b) + a % b,
        ;
    }
}

/// A common divisor of both arguments divides their gcd.
pub proof fn lemma_divides_gcd(d: nat, a: nat, b: nat)
    requires
        divides(d, a),
        divides(d, b),
    ensures
        divides(d, spec_gcd(a, b)),
    decreases b,
{
    if b == 0 {
    } else {
        let qa = choose|q: nat| a == #[trigger] (d * q);
        let qb = choose|q: nat| b == #[trigger] (d * q);
        if d == 0 {
            assert(b == 0 * qb);
        }
        lemma_fundamental_div_mod(a as int, b as int);
        let k: int = a as int / b as int;
        let r: int = a as int % b as int;
        let m: int = qa as int - qb as int * k;
        assert(r == d as int * m) by (nonlinear_arith)
            requires
                a == d * qa,
                b == d * qb,
                a as int == b as int * k + r,
                m == qa as int - qb as int * k,
        ;
        assert(m >= 0) by (nonlinear_arith)
            requires
                d >= 1,
                d as int * m == r,
                r >= 0,
        ;
        assert(a % b == d * (m as nat));
        assert(divides(d, a % b));
        lemma_divides_gcd(d, b, a % b);
    }
}

/// The gcd scales: `gcd(k a, k b) == k gcd(a, b)`.
pub proof fn lemma_gcd_scale(k: nat, a: nat, b: nat)
    requires
        k >= 1,
    ensures
        spec_gcd(k * a, k * b) == k * spec_gcd(a, b),
    decreases b,
{
    if b == 0 {
        assert(k * b == 0);
    } else {
        let q: nat = a / b;
        let r: nat = a % b;
        lemma_fundamental_div_mod(a as int, b as int);
        assert(k * b >= 1 && k * r < k * b && (k * a) as int == q as int * ((k * b) as int) + ((
        k * r) as int)) by (nonlinear_arith)
            requires
                k >= 1,
                b >= 1,
                r < b,
                a as int == b as int * q as int + r as int,
        ;
        lemma_fundamental_div_mod_converse(
            (k * a) as int,
            (k * b) as int,
            q as int,
            (k * r) as int,
        );
        assert((k * a) % (k * b) == k * r);
        lemma_gcd_scale(k, b, r);
        assert(spec_gcd(k * a, k * b) == spec_gcd(k * b, (k * a) % (k * b)));
    }
}

/// Two positive numbers that divide each other are equal.
pub proof fn lemma_divides_antisym(n: nat, m: nat)
    requires
        n >= 1,
        m >= 1,
        divides(n, m),
        divides(m, n),
    ensures
        n == m,
{
    let p = choose|q: nat| m == #[trigger] (n * q);
    let r = choose|q: nat| n == #[trigger] (m * q);
    assert(n == m) by (nonlinear_arith)
        requires
            n >= 1,
            m >= 1,
            m == n * p,
            n == m * r,
    ;
}

/// The gcd is symmetric in its arguments.
pub proof fn lemma_gcd_sym(a: nat, b: nat)
    ensures
        spec_gcd(a, b) == spec_gcd(b, a),
{
    if a == 0 && b == 0 {
    } else {
        lemma_gcd_divides(a, b);
        lemma_gcd_divides(b, a);
        lemma_divides_gcd(spec_gcd(a, b), b, a);
        lemma_divides_gcd(spec_gcd(b, a), a, b);
        lemma_gcd_pos(a, b);
        lemma_gcd_pos(b, a);
        lemma_divides_antisym(spec_gcd(a, b), spec_gcd(b, a));
    }
}

/// Euclid's lemma for coprime divisors: if `n` divides `m k` and is coprime
/// to `m`, it divides `k`.
pub proof fn lemma_coprime_divides(n: nat, m: nat, k: nat)
    requires
        divides(n, m * k),
        spec_gcd(n, m) == 1,
    ensures
        divides(n, k),
{
    if k == 0 {
        assert(k == n * 0);
    } else {
        lemma_gcd_scale(k, n, m);
        assert(k * spec_gcd(n, m) == k);
        assert(divides(n, k * n)) by {
            assert(k * n == n * k) by (nonlinear_arith);
        }
        assert(divides(n, k * m)) by {
            let q = choose|q: nat| m * k == #[trigger] (n * q);
            assert(k * m == n * q) by (nonlinear_arith)
                requires
                    m * k == n * q,
            ;
        }
        lemma_divides_gcd(n, k * n, k * m);
    }
}

/// `w / h` in lowest terms really is a factorisation of `w` and `h` by
/// their gcd, its parts are coprime, and its denominator stays positive.
pub proof fn lemma_reduce_parts(w: nat, h: nat)
    requires
        h >= 1,
    ensures
        w == spec_gcd(w, h) * spec_reduce(w, h).0,
        h == spec_gcd(w, h) * spec_reduce(w, h).1,
        spec_gcd(spec_reduce(w, h).0, spec_reduce(w, h).1) == 1,
        spec_reduce(w, h).1 >= 1,
        spec_reduce(w, h).0 <= w,
        spec_reduce(w, h).1 <= h,
{
    lemma_gcd_pos(w, h);
    lemma_gcd_divides(w, h);
    let g = spec_gcd(w, h);
    let qw = choose|q: nat| w == #[trigger] (g * q);
    let qh = choose|q: nat| h == #[trigger] (g * q);
    assert(w as int == qw as int * (g as int) + 0 && h as int == qh as int * (g as int) + 0 && 0
        <= 0 < g as int) by (nonlinear_arith)
        requires
            g >= 1,
            w == g * qw,
            h == g * qh,
    ;
    lemma_fundamental_div_mod_converse(w as int, g as int, qw as int, 0);
    lemma_fundamental_div_mod_converse(h as int, g as int, qh as int, 0);
    assert(w / g == qw && h / g == qh);
    lemma_gcd_scale(g, qw, qh);
    assert(spec_gcd(qw, qh) == 1) by (nonlinear_arith)
        requires
            g >= 1,
            g == g * spec_gcd(qw, qh),
    ;
    assert(qh >= 1 && qh <= h && qw <= w) by (nonlinear_arith)
        requires
            g >= 1,
            h >= 1,
            w == g * qw,
            h == g * qh,
    ;
}

/// Reduction to lowest terms is canonical: two fractions stand for the same
/// ratio — their cross products agree — exactly when they reduce to the
/// same pair.
pub proof fn lemma_reduce_canonical(w1: nat, h1: nat, w2: nat, h2: nat)
    requires
        h1 >= 1,
        h2 >= 1,
    ensures
        (w1 * h2 == w2 * h1) <==> (spec_reduce(w1, h1) == spec_reduce(w2, h2)),
{
    lemma_reduce_parts(w1, h1);
    lemma_reduce_parts(w2, h2);
    let g1 = spec_gcd(w1, h1);
    let g2 = spec_gcd(w2, h2);
    let a1 = spec_reduce(w1, h1).0;
    let b1 = spec_reduce(w1, h1).1;
    let a2 = spec_reduce(w2, h2).0;
    let b2 = spec_reduce(w2, h2).1;
    lemma_gcd_pos(w1, h1);
    lemma_gcd_pos(w2, h2);
    if a1 == a2 && b1 == b2 {
        assert(w1 * h2 == w2 * h1) by (nonlinear_arith)
            requires
                w1 == g1 * a1,
                h1 == g1 * b1,
                w2 == g2 * a2,
                h2 == g2 * b2,
                a1 == a2,
                b1 == b2,
        ;
    }
    if w1 * h2 == w2 * h1 {
        assert(a1 * b2 == a2 * b1) by (nonlinear_arith)
            requires
                g1 >= 1,
                g2 >= 1,
                w1 == g1 * a1,
                h1 == g1 * b1,
                w2 == g2 * a2,
                h2 == g2 * b2,
                w1 * h2 == w2 * h1,
        ;
        assert(divides(b1, a1 * b2)) by {
            assert(a1 * b2 == b1 * a2) by (nonlinear_arith)
                requires
                    a1 * b2 == a2 * b1,
            ;
        }
        assert(divides(b2, a2 * b1)) by {
            assert(a2 * b1 == b2 * a1) by (nonlinear_arith)
                requires
                    a1 * b2 == a2 * b1,
            ;
        }
        lemma_gcd_sym(a1, b1);
        lemma_gcd_sym(a2, b2);
        lemma_coprime_divides(b1, a1, b2);
        lemma_coprime_divides(b2, a2, b1);
        lemma_divides_antisym(b1, b2);
        assert(a1 == a2) by (nonlinear_arith)
            requires
                b1 >= 1,
                b1 == b2,
                a1 * b2 == a2 * b1,
        ;
    }
}

} // verus!
