use vstd::arithmetic::div_mod::{
    lemma_add_mod_noop, lemma_fundamental_div_mod, lemma_fundamental_div_mod_converse,
    lemma_mod_equivalence, lemma_mod_multiples_basic, lemma_mod_multiples_vanish, lemma_mod_self_0,
    lemma_mod_twice, lemma_small_mod,
};
use vstd::arithmetic::mul::lemma_mul_is_commutative;
use vstd::prelude::*;

verus! {

/// The index reached from `start` after `k` steps of `offset` around `0..n`.
pub open spec fn orbit(start: nat, offset: nat, n: nat, k: nat) -> nat
    recommends
        n > 0,
{
    (start + k * offset) % n
}

/// After `k > 0` steps the walk is back at `start`.
pub open spec fn returns_at(start: nat, offset: nat, n: nat, k: nat) -> bool {
    k > 0 && orbit(start, offset, n, k) == start
}

/// One more step adds `offset` to where the walk stood, modulo `n`.
pub proof fn lemma_orbit_step(start: nat, offset: nat, n: nat, k: nat)
    requires
        n > 0,
    ensures
        orbit(start, offset, n, k + 1) == (orbit(start, offset, n, k) + offset) % n,
{
    let m = n as int;
    let a: int = (start + k * offset) as int;
    assert(start + (k + 1) * offset == a + offset) by (nonlinear_arith)
        requires
            a == start + k * offset,
    ;
    lemma_add_mod_noop(a, offset as int, m);
    lemma_add_mod_noop(a % m, offset as int, m);
    lemma_mod_twice(a, m);
}

/// After `n` steps the walk is back at `start`.
pub proof fn lemma_orbit_full_circle(start: nat, offset: nat, n: nat)
    requires
        start < n,
    ensures
        orbit(start, offset, n, n) == start,
{
    lemma_mul_is_commutative(n as int, offset as int);
    lemma_mod_multiples_vanish(offset as int, start as int, n as int);
    lemma_small_mod(start, n);
}

/// The index after `current` on a walk of stride `offset` around `0..n`.
pub fn next_index(current: usize, offset: usize, n: usize) -> (r: usize)
    requires
        current < n,
    ensures
        r == (current + offset) % (n as int),
{
    let step = offset % n;
    proof {
        lemma_add_mod_noop(current as int, offset as int, n as int);
        lemma_small_mod(current as nat, n as nat);
    }
    if current >= n - step {
        let r = current - (n - step);
        proof {
            lemma_mod_multiples_vanish(-1, (current + step) as int, n as int);
            lemma_small_mod(r as nat, n as nat);
        }
        r
    } else {
        let r = current + step;
        proof {
            lemma_small_mod(r as nat, n as nat);
        }
        r
    }
}


/// Greatest common divisor, by Euclid's algorithm.
pub open spec fn gcd(a: nat, b: nat) -> nat
    decreases b,
{
    if b == 0 {
        a
    } else {
        gcd(b, a % b)
    }
}

/// `gcd(a, b)` divides `a` and `b` (with the quotients returned), is
/// positive unless both are 0, and is an integer combination of them
/// (Bezout: `x * a + y * b`).
proof fn lemma_gcd_bezout(a: nat, b: nat) -> (r: (int, int, int, int))
    ensures
        a == r.2 * gcd(a, b),
        b == r.3 * gcd(a, b),
        a > 0 || b > 0 ==> gcd(a, b) > 0,
        r.0 * a + r.1 * b == gcd(a, b),
    decreases b,
{
    if b == 0 {
        (1, 0, 1, 0)
    } else {
        let g = gcd(a, b);
        let q = a / b;
        let m = a % b;
        lemma_fundamental_div_mod(a as int, b as int);
        assert(a == q * b + m);
        let (x, y, qb, qm) = lemma_gcd_bezout(b, m);
        assert(gcd(b, m) == g);
        assert(a == (q * qb + qm) * g) by (nonlinear_arith)
            requires
                a == q * b + m,
                b == qb * g,
                m == qm * g,
        ;
        assert(y * a + (x - y * q) * b == g) by (nonlinear_arith)
            requires
                x * b + y * m == g,
                a == q * b + m,
        ;
        (y, x - y * q, q * qb + qm, qb)
    }
}

/// The walk is back at `start` after `k` steps exactly when `k * offset`
/// is a multiple of `n`.
proof fn lemma_returns_iff_multiple(start: nat, offset: nat, n: nat, k: nat)
    requires
        start < n,
    ensures
        orbit(start, offset, n, k) == start <==> (k * offset) % n == 0,
{
    let m = n as int;
    lemma_small_mod(start, n);
    lemma_mod_equivalence((start + k * offset) as int, start as int, m);
    assert((start + k * offset) - start == k * offset);
}

/// With `g = gcd(offset, n)`, `k * offset` is a multiple of `n` exactly
/// when `k` is a multiple of `n / g`.
proof fn lemma_multiple_iff_period(offset: nat, n: nat, k: nat)
    requires
        n > 0,
    ensures
        gcd(offset, n) > 0,
        n / gcd(offset, n) > 0,
        (k * offset) % n == 0 <==> k % (n / gcd(offset, n)) == 0,
{
    let g = gcd(offset, n) as int;
    let (x, y, qo, qn) = lemma_gcd_bezout(offset, n);
    assert(qn > 0) by (nonlinear_arith)
        requires
            n == qn * g,
            n > 0,
            g > 0,
    ;
    lemma_fundamental_div_mod_converse(n as int, g, qn, 0);
    assert(n / gcd(offset, n) == qn);
    assert(x * qo + y * qn == 1) by (nonlinear_arith)
        requires
            x * offset + y * n == g,
            offset == qo * g,
            n == qn * g,
            g > 0,
    ;
    let ki = k as int;
    if (ki * offset) % (n as int) == 0 {
        lemma_fundamental_div_mod(ki * offset, n as int);
        let q = (ki * offset) / (n as int);
        assert(ki * qo == q * qn) by (nonlinear_arith)
            requires
                ki * offset == n * q,
                offset == qo * g,
                n == qn * g,
                g > 0,
        ;
        assert(ki == (x * q + ki * y) * qn) by (nonlinear_arith)
            requires
                ki * qo == q * qn,
                x * qo + y * qn == 1,
        ;
        lemma_mod_multiples_basic(x * q + ki * y, qn);
    }
    if ki % qn == 0 {
        lemma_fundamental_div_mod(ki, qn);
        let c = ki / qn;
        assert(ki * offset == (c * qo) * n) by (nonlinear_arith)
            requires
                ki == qn * c,
                offset == qo * g,
                n == qn * g,
        ;
        lemma_mod_multiples_basic(c * qo, n as int);
    }
}

/// The walk stands on `t` within its first `n` steps.
pub open spec fn visited(start: nat, offset: nat, n: nat, t: nat) -> bool {
    exists|k: nat| k < n && #[trigger] orbit(start, offset, n, k) == t
}

/// A walk of stride `offset` around `0..n` first comes back to `start`
/// after `n / gcd(offset, n)` steps; the indices it stands on before that
/// are all distinct; and where `offset` and `n` are coprime, every index
/// of `0..n` is among them.
pub proof fn lemma_walk_cycle(start: nat, offset: nat, n: nat)
    requires
        start < n,
    ensures
        returns_at(start, offset, n, n / gcd(offset, n)),
        forall|j: nat| 0 < j < n / gcd(offset, n) ==> !#[trigger] returns_at(start, offset, n, j),
        forall|i: nat, j: nat|
            i < j < n / gcd(offset, n) ==> #[trigger] orbit(start, offset, n, i) != #[trigger] orbit(
                start,
                offset,
                n,
                j,
            ),
        gcd(offset, n) == 1 ==> forall|t: nat| t < n ==> #[trigger] visited(start, offset, n, t),
{
    let p = n / gcd(offset, n);
    lemma_multiple_iff_period(offset, n, p);
    lemma_returns_iff_multiple(start, offset, n, p);
    lemma_mod_self_0(p as int);
    assert forall|j: nat| 0 < j < p implies !#[trigger] returns_at(start, offset, n, j) by {
        lemma_multiple_iff_period(offset, n, j);
        lemma_returns_iff_multiple(start, offset, n, j);
        lemma_small_mod(j, p);
    }
    assert forall|i: nat, j: nat| i < j < p implies #[trigger] orbit(start, offset, n, i)
        != #[trigger] orbit(start, offset, n, j) by {
        if orbit(start, offset, n, i) == orbit(start, offset, n, j) {
            let d = (j - i) as nat;
            let m = n as int;
            lemma_mod_equivalence((start + j * offset) as int, (start + i * offset) as int, m);
            assert((start + j * offset) - (start + i * offset) == d * offset) by (nonlinear_arith)
                requires
                    d == j - i,
            ;
            lemma_multiple_iff_period(offset, n, d);
            lemma_small_mod(d, p);
        }
    }
    if gcd(offset, n) == 1 {
        let (x, y, qo, qn) = lemma_gcd_bezout(offset, n);
        assert forall|t: nat| t < n implies #[trigger] visited(start, offset, n, t) by {
            let m = n as int;
            let v = (t - start) * x;
            lemma_fundamental_div_mod(v, m);
            let d = v / m;
            let k = v % m;
            assert(0 <= k < m);
            let kn = k as nat;
            assert((start + kn * offset) - t == m * (-(t - start) * y - d * offset)) by (nonlinear_arith)
                requires
                    v == (t - start) * x,
                    v == m * d + k,
                    kn == k,
                    x * offset + y * n == 1,
                    m == n,
            ;
            lemma_mul_is_commutative(m, -(t - start) * y - d * offset);
            lemma_mod_multiples_basic(-(t - start) * y - d * offset, m);
            lemma_mod_equivalence((start + kn * offset) as int, t as int, m);
            lemma_small_mod(t, n);
            assert(orbit(start, offset, n, kn) == t);
        }
    }
}

} // verus!
