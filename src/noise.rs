use vstd::prelude::*;
use vstd::arithmetic::div_mod::{
    lemma_add_mod_noop,
    lemma_fundamental_div_mod_converse_mod,
    lemma_mod_bound,
};

verus! {

/// The number of distinct `i32` values.
pub open spec fn i32_span() -> int {
    0x1_0000_0000
}

/// An integer reduced to `i32` by two's-complement wrap-around.
pub open spec fn wrap_i32(v: int) -> int {
    let m = v % i32_span();
    if m > i32::MAX {
        m - i32_span()
    } else {
        m
    }
}

/// Wrapping keeps the value modulo 2^32 and lands in the range of `i32`.
proof fn lemma_wrap_mod(v: int)
    ensures
        wrap_i32(v) % i32_span() == v % i32_span(),
        i32::MIN <= wrap_i32(v) <= i32::MAX,
{
    let m = v % i32_span();
    lemma_mod_bound(v, i32_span());
    lemma_fundamental_div_mod_converse_mod(m, i32_span(), 0, m);
    lemma_fundamental_div_mod_converse_mod(m - i32_span(), i32_span(), -1, m);
}

/// Two integers equal modulo 2^32 wrap to the same `i32`.
proof fn lemma_wrap_congruent(a: int, b: int)
    requires
        a % i32_span() == b % i32_span(),
    ensures
        wrap_i32(a) == wrap_i32(b),
{
}

/// Adding a wrapped summand wraps to the same value as adding it whole.
proof fn lemma_wrap_add_inner(a: int, b: int)
    ensures
        wrap_i32(a + wrap_i32(b)) == wrap_i32(a + b),
{
    lemma_wrap_mod(b);
    lemma_add_mod_noop(a, wrap_i32(b), i32_span());
    lemma_add_mod_noop(a, b, i32_span());
    lemma_wrap_congruent(a + wrap_i32(b), a + b);
}

/// `i32::wrapping_add` is the wrapped sum.
proof fn lemma_wrapping_add(a: i32, b: i32)
    ensures
        a.wrapping_add(b) as int == wrap_i32(a + b),
{
    let s = a + b;
    if s > i32::MAX {
        lemma_fundamental_div_mod_converse_mod(s, i32_span(), 0, s);
    } else if s < i32::MIN {
        lemma_fundamental_div_mod_converse_mod(s, i32_span(), -1, s + i32_span());
    } else if s >= 0 {
        lemma_fundamental_div_mod_converse_mod(s, i32_span(), 0, s);
    } else {
        lemma_fundamental_div_mod_converse_mod(s, i32_span(), -1, s + i32_span());
    }
}

/// `i32::wrapping_mul` is the wrapped product.
proof fn lemma_wrapping_mul(a: i32, b: i32)
    ensures
        a.wrapping_mul(b) as int == wrap_i32(a * b),
{
    lemma_wrap_mod(a * b);
}

/// The seed of a lattice cell of the value noise: `x + 57 y + 113 z` on the
/// truncated coordinates, computed with `i32` wrap-around.
pub fn lattice_hash(x: i32, y: i32, z: i32) -> (r: i32)
    ensures
        r as int == wrap_i32(x + 57 * y + 113 * z),
{
    let a = y.wrapping_mul(57);
    let b = x.wrapping_add(a);
    let c = z.wrapping_mul(113);
    let r = b.wrapping_add(c);
    proof {
        lemma_wrapping_mul(y, 57);
        lemma_wrapping_add(x, a);
        lemma_wrap_add_inner(x as int, 57 * y);
        lemma_wrapping_mul(z, 113);
        lemma_wrapping_add(b, c);
        lemma_wrap_add_inner(b as int, 113 * z);
        lemma_wrap_add_inner(113 * z, x + 57 * y);
        assert(b as int + 113 * z == 113 * z + b as int);
        assert(x + 57 * y + 113 * z == 113 * z + (x + 57 * y));
    }
    r
}

} // verus!
