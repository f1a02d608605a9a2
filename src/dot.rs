use vstd::prelude::*;

verus! {

/// The number of fractional bits in a dot radius: radii are counted in
/// sixteenths of a pixel of the upsampled plane.
pub const RADIUS_SHIFT: u32 = 4;

/// The radius, in sixteenths of a pixel of the upsampled plane, of the dot
/// drawn for a sample `v`: `7.5 * v / 255`, which is `v / 34` pixels,
/// rounded to the nearest sixteenth. A tie cannot occur.
pub open spec fn radius_of(v: u8) -> nat {
    (16 * v as nat + 17) / 34
}

/// `m` is `sqrt(n)` rounded to the nearest integer:
/// `m - 1/2 <= sqrt(n) < m + 1/2`. A tie cannot occur for an integer `n`.
pub open spec fn is_rounded_sqrt(n: nat, m: nat) -> bool {
    &&& (m == 0 || (2 * m - 1) * (2 * m - 1) <= 4 * n)
    &&& 4 * n < (2 * m + 1) * (2 * m + 1)
}

/// The gray value of the dot drawn for a sample `v`:
/// `round(255 * sqrt(v / 255))`, which is `round(sqrt(255 * v))`.
pub open spec fn color_of(v: u8) -> nat {
    choose|m: nat| #[trigger] is_rounded_sqrt(255 * v as nat, m)
}

/// Two rounded square roots of numbers in order are in the same order.
pub proof fn lemma_rounded_sqrt_monotone(n1: nat, m1: nat, n2: nat, m2: nat)
    requires
        is_rounded_sqrt(n1, m1),
        is_rounded_sqrt(n2, m2),
        n1 <= n2,
    ensures
        m1 <= m2,
{
    if m1 > m2 {
        assert((2 * m2 + 1) * (2 * m2 + 1) <= (2 * m1 - 1) * (2 * m1 - 1)) by (nonlinear_arith)
            requires
                m1 > m2,
        ;
    }
}

/// A number has one rounded square root.
pub proof fn lemma_rounded_sqrt_unique(n: nat, m1: nat, m2: nat)
    requires
        is_rounded_sqrt(n, m1),
        is_rounded_sqrt(n, m2),
    ensures
        m1 == m2,
{
    lemma_rounded_sqrt_monotone(n, m1, n, m2);
    lemma_rounded_sqrt_monotone(n, m2, n, m1);
}

/// Whatever rounded square root is chosen for `255 * v`, it is `m`.
pub proof fn lemma_color_of(v: u8, m: nat)
    requires
        is_rounded_sqrt(255 * v as nat, m),
    ensures
        color_of(v) == m,
{
    let c = color_of(v);
    assert(is_rounded_sqrt(255 * v as nat, c));
    lemma_rounded_sqrt_unique(255 * v as nat, c, m);
}

/// A brighter sample never gets a smaller dot, nor a darker one.
pub proof fn lemma_dot_monotone(a: u8, b: u8)
    requires
        a < b,
    ensures
        radius_of(a) <= radius_of(b),
        color_of(a) <= color_of(b),
{
    assert((16 * a as nat + 17) / 34 <= (16 * b as nat + 17) / 34) by (nonlinear_arith)
        requires
            a < b,
    ;
    let ca = dot_color_proof(a);
    let cb = dot_color_proof(b);
    lemma_rounded_sqrt_monotone(255 * a as nat, ca, 255 * b as nat, cb);
}

/// A dot's radius is at most 7.5 pixels (120 sixteenths), and its gray
/// value fits a sample.
pub proof fn lemma_dot_bounds(v: u8)
    ensures
        radius_of(v) <= 120,
        color_of(v) <= 255,
{
    dot_color_proof(v);
}

/// The rounded square root of `255 * v` exists and is at most 255.
proof fn dot_color_proof(v: u8) -> (m: nat)
    ensures
        is_rounded_sqrt(255 * v as nat, m),
        color_of(v) == m,
        m <= 255,
{
    let n = 255 * v as nat;
    let s = floor_sqrt_proof(n, 0);
    let m = if n > s * s + s { s + 1 } else { s };
    rounding_step(n, s);
    assert(s <= 255 && (n > s * s + s ==> s < 255)) by (nonlinear_arith)
        requires
            s * s <= n,
            n <= 255 * 255,
    ;
    lemma_color_of(v, m);
    m
}

/// The whole square root of `n`, found by counting up from `s`.
proof fn floor_sqrt_proof(n: nat, s: nat) -> (r: nat)
    requires
        s * s <= n,
    ensures
        r * r <= n < (r + 1) * (r + 1),
    decreases n - s,
{
    if (s + 1) * (s + 1) <= n {
        assert(s < n) by (nonlinear_arith)
            requires
                (s + 1) * (s + 1) <= n,
        ;
        floor_sqrt_proof(n, s + 1)
    } else {
        s
    }
}

/// Rounding the whole square root `s` of `n` up or down gives the rounded
/// square root.
proof fn rounding_step(n: nat, s: nat)
    requires
        s * s <= n < (s + 1) * (s + 1),
    ensures
        n > s * s + s ==> is_rounded_sqrt(n, s + 1),
        n <= s * s + s ==> is_rounded_sqrt(n, s),
{
    assert(n > s * s + s ==> is_rounded_sqrt(n, s + 1)) by (nonlinear_arith)
        requires
            s * s <= n < (s + 1) * (s + 1),
    ;
    assert(n <= s * s + s ==> is_rounded_sqrt(n, s)) by (nonlinear_arith)
        requires
            s * s <= n < (s + 1) * (s + 1),
    ;
}

/// Computes the radius, in sixteenths of a pixel, of the dot drawn for
/// sample `v`.
pub fn dot_radius(v: u8) -> (r: u32)
    ensures
        r == radius_of(v),
        r <= 120,
{
    (16 * v as u32 + 17) / 34
}

/// Computes the gray value of the dot drawn for sample `v`; faint samples
/// are brightened so that they still give a visible dot.
pub fn dot_color(v: u8) -> (r: u8)
    ensures
        r == color_of(v),
        is_rounded_sqrt(255 * v as nat, r as nat),
{
    let n: u32 = 255 * v as u32;
    let mut s: u32 = 0;
    let mut next: u32 = 1;
    while next <= n
        invariant
            n == 255 * v as nat,
            s * s <= n,
            s <= 255,
            next == (s + 1) * (s + 1),
        decreases n - s,
    {
        proof {
            assert(s + 1 <= 255 && s < n) by (nonlinear_arith)
                requires
                    (s + 1) * (s + 1) <= n,
                    n <= 255 * 255,
            ;
            assert((s + 2) * (s + 2) == (s + 1) * (s + 1) + 2 * s + 3) by (nonlinear_arith);
        }
        s = s + 1;
        next = next + 2 * s + 1;
    }
    proof {
        rounding_step(n as nat, s as nat);
        dot_color_proof(v);
    }
    let m: u32 = if n - s * s > s { s + 1 } else { s };
    proof {
        lemma_color_of(v, m as nat);
    }
    m as u8
}

} // verus!
