//! The pixel size of an exported frame.
//!
//! A frame larger than the limit is scaled down by a double-precision factor: the
//! quotient and the product are each rounded to 53 significant bits, ties to even,
//! and the pixels are then rounded half up. The computation here is in integers.
use vstd::prelude::*;

verus! {

/// The largest side of an exported frame.
pub const MAX_SIDE: u32 = 4096;

/// `n / d` rounded to the nearest whole number, ties to even.
pub open spec fn nearest(n: int, d: int) -> int {
    let q = n / d;
    let r = n % d;
    if 2 * r < d || (2 * r == d && q % 2 == 0) {
        q
    } else {
        q + 1
    }
}

/// `n`, doubled until `n / d` has 53 bits, with the power of two that it was
/// multiplied by.
pub open spec fn widened(n: int, unit: int, d: int) -> (int, int)
    decreases
            if n < 0x10_0000_0000_0000 * d {
                0x10_0000_0000_0000 * d - n
            } else {
                0
            },
{
    if n <= 0 || n >= 0x10_0000_0000_0000 * d {
        (n, unit)
    } else {
        widened(2 * n, 2 * unit, d)
    }
}

/// The 53 bits of the double nearest to `MAX_SIDE / side`, and the power of two
/// that they are to be divided by.
pub open spec fn scale(side: int) -> (int, int) {
    let w = widened(MAX_SIDE as int, 1, side);
    (nearest(w.0, side), w.1)
}

/// The double nearest to the whole number `p`; `step` is a power of two that is
/// not above its last place.
pub open spec fn rounded(p: int, step: int) -> int
    decreases p - step,
{
    if step <= 0 || p < 0x20_0000_0000_0000 * step {
        nearest(p, step) * step
    } else {
        rounded(p, 2 * step)
    }
}

/// `side` pixels scaled by the factor that brings `largest` to the limit.
pub open spec fn scaled_side(side: int, largest: int) -> int {
    let factor = scale(largest);
    let product = rounded(side * factor.0, 1);
    (2 * product + factor.1) / (2 * factor.1)
}

/// The pixels of a side of an exported frame.
pub open spec fn export_side(side: int, largest: int) -> int {
    if largest <= MAX_SIDE {
        side
    } else {
        scaled_side(side, largest)
    }
}

pub open spec fn at_least_one(n: u32) -> u32 {
    if n == 0 {
        1
    } else {
        n
    }
}

pub open spec fn larger(a: u32, b: u32) -> u32 {
    if a < b {
        b
    } else {
        a
    }
}

fn nearest_to(n: u128, d: u128) -> (r: u128)
    requires
        0 < d < 0x1_0000_0000_0000_0000,
        n < 0x100_0000_0000_0000_0000_0000_0000,
    ensures
        r == nearest(n as int, d as int),
        2 * r * d <= 2 * n + d,
        2 * n <= 2 * r * d + d,
        r <= n + 1,
{
    let q: u128 = n / d;
    let rest: u128 = n % d;
    let up = !(2 * rest < d || (2 * rest == d && q % 2 == 0));
    assert(q <= n) by (nonlinear_arith)
        requires
            q == n / d,
            d > 0,
    ;
    assert(q * d + rest == n && 0 <= rest < d) by (nonlinear_arith)
        requires
            q == n / d,
            rest == n % d,
            d > 0,
    ;
    let r: u128 = if up {
        q + 1
    } else {
        q
    };
    assert((q + 1) * d == q * d + d) by (nonlinear_arith);
    assert(2 * r * d == 2 * (r * d)) by (nonlinear_arith);
    r
}

/// The scale factor, with what bounds it.
fn scale_for(side: u32) -> (r: (u128, u128))
    requires
        side > MAX_SIDE,
    ensures
        (r.0 as int, r.1 as int) == scale(side as int),
        0x10_0000_0000_0000 <= r.0 <= 0x20_0000_0000_0000,
        0x100_0000_0000 * side <= r.1 <= 0x200_0000_0000 * side,
        2 * r.0 * side <= 2 * (MAX_SIDE * r.1) + side,
        2 * (MAX_SIDE * r.1) <= 2 * r.0 * side + side,
{
    let d: u128 = side as u128;
    let mut n: u128 = MAX_SIDE as u128;
    let mut unit: u128 = 1;
    while n < 0x10_0000_0000_0000 * d
        invariant
            d == side,
            MAX_SIDE < side,
            n == MAX_SIDE * unit,
            0 < unit,
            n < 0x20_0000_0000_0000 * d,
            widened(MAX_SIDE as int, 1, d as int) == widened(n as int, unit as int, d as int),
        decreases
                if n < 0x10_0000_0000_0000 * d {
                    0x10_0000_0000_0000 * d - n
                } else {
                    0
                },
    {
        n = 2 * n;
        unit = 2 * unit;
    }
    let bits = nearest_to(n, d);
    proof {
        let b = bits as int;
        let s = d as int;
        assert(0x10_0000_0000_0000 <= b <= 0x20_0000_0000_0000) by (nonlinear_arith)
            requires
                0x10_0000_0000_0000 * s <= n,
                n < 0x20_0000_0000_0000 * s,
                2 * b * s <= 2 * n + s,
                2 * n <= 2 * b * s + s,
                s > 4096,
        ;
    }
    (bits, unit)
}

/// The double nearest to a whole number.
fn rounded_to(p: u128) -> (r: u128)
    requires
        0x10_0000_0000_0000 <= p < 0x100_0000_0000_0000_0000_0000,
    ensures
        r == rounded(p as int, 1),
        0x10_0000_0000_0000 * r <= 0x10_0000_0000_0000 * p + p,
        0x10_0000_0000_0000 * p <= 0x10_0000_0000_0000 * r + p,
{
    let mut step: u128 = 1;
    while p >= 0x20_0000_0000_0000 * step
        invariant
            0x10_0000_0000_0000 <= p < 0x100_0000_0000_0000_0000_0000,
            0 < step,
            0x10_0000_0000_0000 * step <= p,
            rounded(p as int, 1) == rounded(p as int, step as int),
        decreases p - step,
    {
        step = 2 * step;
    }
    let bits = nearest_to(p, step);
    proof {
        let b = bits as int;
        let s = step as int;
        assert(b * s <= p + s && 2 * b * s == 2 * (b * s)) by (nonlinear_arith)
            requires
                2 * b * s <= 2 * p + s,
                s > 0,
        ;
    }
    bits * step
}

/// `x` at least as large stays so when both are multiplied.
proof fn lemma_times(x: int, y: int, f: int)
    by (nonlinear_arith)
    requires
        x <= y,
        f >= 0,
    ensures
        x * f <= y * f,
{
}

/// The pixels `q` of a side are at most half a pixel off the exact quotient
/// `MAX_SIDE * side / largest`. `bits` and `unit` are the scale factor, `exact` is
/// `side * bits` and `product` the double next to it.
proof fn lemma_half_a_pixel(
    q: int,
    side: int,
    largest: int,
    bits: int,
    unit: int,
    exact: int,
    product: int,
)
    requires
        1 <= side <= largest <= 0xffff_ffff,
        exact == side * bits,
        bits <= 0x20_0000_0000_0000,
        0x100_0000_0000 * largest <= unit,
        2 * (bits * largest) <= 8192 * unit + largest,
        8192 * unit <= 2 * (bits * largest) + largest,
        0x10_0000_0000_0000 * product <= 0x10_0000_0000_0000 * exact + exact,
        0x10_0000_0000_0000 * exact <= 0x10_0000_0000_0000 * product + exact,
        2 * (q * unit) <= 2 * product + unit,
        2 * product <= 2 * (q * unit) + unit,
    ensures
        2 * (q * largest) <= 8192 * side + largest,
        8192 * side <= 2 * (q * largest) + largest,
{
    let area = side * largest;
    assert(exact <= 0x20_0000_0000_0000 * side) by (nonlinear_arith)
        requires
            exact == side * bits,
            bits <= 0x20_0000_0000_0000,
            side >= 1,
    ;
    assert(product <= exact + 2 * side && exact <= product + 2 * side);
    lemma_times(product, exact + 2 * side, largest);
    lemma_times(exact, product + 2 * side, largest);
    assert((exact + 2 * side) * largest == exact * largest + 2 * area) by (nonlinear_arith)
        requires
            area == side * largest,
    ;
    assert((product + 2 * side) * largest == product * largest + 2 * area) by (nonlinear_arith)
        requires
            area == side * largest,
    ;
    let wide = bits * largest;
    assert(exact * largest == wide * side) by (nonlinear_arith)
        requires
            exact == side * bits,
            wide == bits * largest,
    ;
    lemma_times(2 * wide, 8192 * unit + largest, side);
    lemma_times(8192 * unit, 2 * wide + largest, side);
    let share = unit * side;
    assert((8192 * unit + largest) * side == 8192 * share + area && (8192 * unit) * side == 8192
        * share && (2 * wide) * side == 2 * (wide * side) && (2 * wide + largest) * side == 2 * (wide
        * side) + area) by (nonlinear_arith)
        requires
            share == unit * side,
            area == side * largest,
    ;
    let whole = q * unit;
    lemma_times(2 * whole, 2 * product + unit, largest);
    lemma_times(2 * product, 2 * whole + unit, largest);
    let scaled = q * largest;
    assert((2 * whole) * largest == 2 * (scaled * unit) && (2 * product + unit) * largest == 2 * (
    product * largest) + unit * largest && (2 * product) * largest == 2 * (product * largest) && (2
        * whole + unit) * largest == 2 * (scaled * unit) + unit * largest) by (nonlinear_arith)
        requires
            whole == q * unit,
            scaled == q * largest,
    ;
    assert(5 * area < unit) by (nonlinear_arith)
        requires
            area == side * largest,
            1 <= side <= largest <= 0xffff_ffff,
            0x100_0000_0000 * largest <= unit,
    ;
    assert(2 * scaled <= 8192 * side + largest) by (nonlinear_arith)
        requires
            2 * (scaled * unit) <= 8192 * share + 5 * area + unit * largest,
            share == unit * side,
            5 * area < unit,
            unit > 0,
    ;
    assert(8192 * side <= 2 * scaled + largest) by (nonlinear_arith)
        requires
            8192 * share <= 2 * (scaled * unit) + 5 * area + unit * largest,
            share == unit * side,
            5 * area < unit,
            unit > 0,
    ;
}

/// One side of a frame that is too large.
fn scale_side(side: u32, bits: u128, unit: u128, largest: u32) -> (r: u32)
    requires
        1 <= side <= largest,
        largest > MAX_SIDE,
        (bits as int, unit as int) == scale(largest as int),
        0x10_0000_0000_0000 <= bits <= 0x20_0000_0000_0000,
        0x100_0000_0000 * largest <= unit <= 0x200_0000_0000 * largest,
        2 * bits * largest <= 2 * (MAX_SIDE * unit) + largest,
        2 * (MAX_SIDE * unit) <= 2 * bits * largest + largest,
    ensures
        r == scaled_side(side as int, largest as int),
        r <= MAX_SIDE,
        r <= side,
        side == largest ==> r == MAX_SIDE,
        2 * (r * largest) <= 8192 * side + largest,
        8192 * side <= 2 * (r * largest) + largest,
{
    let wide: u128 = side as u128;
    proof {
        let s = side as int;
        let b = bits as int;
        let m = largest as int;
        assert(0x10_0000_0000_0000 <= s * b <= m * b && s * b <= 0xffff_ffff * (
        0x20_0000_0000_0000)) by (nonlinear_arith)
            requires
                1 <= s <= m <= 0xffff_ffff,
                0x10_0000_0000_0000 <= b <= 0x20_0000_0000_0000,
        ;
        assert(2 * b * m == 2 * (m * b)) by (nonlinear_arith);
    }
    let p: u128 = wide * bits;
    let product = rounded_to(p);
    let r: u128 = (2 * product + unit) / (2 * unit);
    proof {
        let top = 2 * product + unit;
        let whole = 2 * unit;
        let q = r as int;
        assert(q * whole <= top < q * whole + whole) by (nonlinear_arith)
            requires
                q == top / whole,
                whole > 0,
        ;
        assert(top < 4097 * whole);
        assert(q < 4097) by (nonlinear_arith)
            requires
                q * whole <= top < 4097 * whole,
                whole > 0,
        ;
        if side == largest {
            assert(top >= 4096 * whole);
            assert(q >= 4096) by (nonlinear_arith)
                requires
                    4096 * whole <= top < q * whole + whole,
                    whole > 0,
            ;
        }
        let s = side as int;
        let m = largest as int;
        assert(q * whole == 2 * (q * unit)) by (nonlinear_arith)
            requires
                whole == 2 * unit,
        ;
        assert(2 * bits * largest == 2 * (bits * largest)) by (nonlinear_arith);
        lemma_half_a_pixel(q, s, m, bits as int, unit as int, p as int, product as int);
        assert(q <= s) by (nonlinear_arith)
            requires
                2 * (q * m) <= 8192 * s + m,
                m > 4096,
                s >= 1,
        ;
    }
    r as u32
}

/// Twice how far the sides of `size` are from the proportion of `w` to `h`,
/// multiplied out.
pub open spec fn aspect_error(size: (u32, u32), w: int, h: int) -> int {
    let off = size.0 * h - size.1 * w;
    2 * (if off < 0 {
        -off
    } else {
        off
    })
}

/// Whether the pixels `q` of a side are at most half a pixel off its exact share of the
/// limit.
pub open spec fn within_half(q: int, side: int, largest: int) -> bool {
    2 * (q * largest) <= 8192 * side + largest && 8192 * side <= 2 * (q * largest) + largest
}

/// The pixel size of an exported frame: the artboard's, scaled down where a side is
/// beyond the limit. No side grows, and the proportion of the sides is kept to half
/// a pixel.
pub fn clamp_export_size(artboard: (u32, u32)) -> (r: (u32, u32))
    ensures
        (r.0 as int, r.1 as int) == export_size(artboard),
        ({
            let w = at_least_one(artboard.0);
            let h = at_least_one(artboard.1);
            let largest = larger(w, h);
            &&& r.0 <= MAX_SIDE && r.1 <= MAX_SIDE
            &&& largest > MAX_SIDE ==> larger(r.0, r.1) == MAX_SIDE
            &&& r.0 <= w && r.1 <= h
            &&& aspect_error(r, w as int, h as int) <= w + h
            &&& largest > MAX_SIDE ==> within_half(r.0 as int, w as int, largest as int)
                && within_half(r.1 as int, h as int, largest as int)
        }),
{
    let w = if artboard.0 == 0 {
        1
    } else {
        artboard.0
    };
    let h = if artboard.1 == 0 {
        1
    } else {
        artboard.1
    };
    let largest = if w < h {
        h
    } else {
        w
    };
    if largest <= MAX_SIDE {
        assert(w * h == h * w) by (nonlinear_arith);
        return (w, h);
    }
    let (bits, unit) = scale_for(largest);
    let size = (scale_side(w, bits, unit, largest), scale_side(h, bits, unit, largest));
    proof {
        let a = size.0 as int;
        let b = size.1 as int;
        if w == largest {
            assert(a * h == 4096 * h) by (nonlinear_arith)
                requires
                    a == 4096,
            ;
        } else {
            assert(b * w == 4096 * w) by (nonlinear_arith)
                requires
                    b == 4096,
            ;
        }
    }
    size
}

/// The size of an exported frame for an artboard.
pub open spec fn export_size(artboard: (u32, u32)) -> (int, int) {
    let w = at_least_one(artboard.0);
    let h = at_least_one(artboard.1);
    let largest = larger(w, h) as int;
    (export_side(w as int, largest), export_side(h as int, largest))
}

/// Turning an artboard round turns its exported frame round.
pub proof fn law_export_turns_with_the_artboard(artboard: (u32, u32))
    ensures
        export_size((artboard.1, artboard.0)) == (
            export_size(artboard).1,
            export_size(artboard).0,
        ),
{
}

} // verus!
