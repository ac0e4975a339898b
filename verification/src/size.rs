//! Size policy: aspect-ratio-preserving bounded downscaling.
//!
//! `calculate_target_size` maps original pixel dimensions and a maximum-side
//! bound to target dimensions. Dimensions already within the bound are kept;
//! otherwise the longer side is set to the bound and the shorter side is
//! scaled by the same ratio, rounded to the nearest integer and floored at 1.

use vstd::prelude::*;

verus! {

/// `num / den` rounded to the nearest integer (halves round up).
pub open spec fn round_nearest_div(num: int, den: int) -> int
    recommends
        den >= 1,
{
    (2 * num + den) / (2 * den)
}

/// The scaled value of the shorter side when the longer side is mapped to
/// `max_side`, rounded to nearest and floored at 1.
pub open spec fn scaled_short_side(short: int, long: int, max_side: int) -> int {
    vstd::math::max(1, round_nearest_div(short * max_side, long))
}

/// The target dimensions the size policy computes.
pub open spec fn target_size_spec(orig_w: int, orig_h: int, max_side: int) -> (int, int)
    recommends
        max_side >= 1,
{
    if orig_w <= max_side && orig_h <= max_side {
        (orig_w, orig_h)
    } else if orig_w >= orig_h {
        (max_side, scaled_short_side(orig_h, orig_w, max_side))
    } else {
        (scaled_short_side(orig_w, orig_h, max_side), max_side)
    }
}

proof fn lemma_round_bounds(short: int, long: int, max_side: int)
    requires
        0 <= short <= long,
        1 <= max_side,
        max_side < long,
    ensures
        0 <= round_nearest_div(short * max_side, long) <= max_side,
{
    let num = short * max_side;
    let q = round_nearest_div(num, long);
    vstd::arithmetic::mul::lemma_mul_inequality(short, long, max_side);
    assert(num <= long * max_side);
    vstd::arithmetic::div_mod::lemma_fundamental_div_mod(2 * num + long, 2 * long);
    vstd::arithmetic::div_mod::lemma_mod_bound(2 * num + long, 2 * long);
    vstd::arithmetic::div_mod::lemma_div_pos_is_pos(2 * num + long, 2 * long);
    let r = (2 * num + long) % (2 * long);
    assert(2 * num + long == (2 * long) * q + r);
    if q > max_side {
        vstd::arithmetic::mul::lemma_mul_inequality(max_side + 1, q, 2 * long);
        vstd::arithmetic::mul::lemma_mul_is_distributive_add_other_way(2 * long, max_side, 1);
        vstd::arithmetic::mul::lemma_mul_is_associative(2, long, max_side);
        vstd::arithmetic::mul::lemma_mul_is_commutative(2 * long, max_side);
        vstd::arithmetic::mul::lemma_mul_is_commutative(q, 2 * long);
        assert(false);
    }
}

fn scale_short(short: u32, long: u32, max_side: u32) -> (r: u32)
    requires
        short <= long,
        1 <= max_side,
        max_side < long,
    ensures
        r as int == scaled_short_side(short as int, long as int, max_side as int),
        1 <= r <= max_side,
{
    proof {
        assert((short as int) * (max_side as int) < 0x10000000000000000int) by (nonlinear_arith)
            requires
                (short as int) < 0x100000000,
                (max_side as int) < 0x100000000,
        ;
    }
    let num: u128 = (short as u128) * (max_side as u128);
    let den: u128 = long as u128;
    let q: u128 = (2 * num + den) / (2 * den);
    proof {
        lemma_round_bounds(short as int, long as int, max_side as int);
    }
    if q < 1 {
        1
    } else {
        q as u32
    }
}

/// Compute the target dimensions for `(orig_w, orig_h)` under the maximum-side
/// bound `max_side`: unchanged when already within the bound, otherwise scaled
/// down uniformly so the longer side equals `max_side`, the shorter side
/// rounded to the nearest integer and never below 1.
pub fn calculate_target_size(orig_w: u32, orig_h: u32, max_side: u32) -> (r: (u32, u32))
    requires
        1 <= max_side,
    ensures
        (r.0 as int, r.1 as int) == target_size_spec(orig_w as int, orig_h as int, max_side as int),
        orig_w <= max_side && orig_h <= max_side ==> r == (orig_w, orig_h),
        !(orig_w <= max_side && orig_h <= max_side) ==> {
            &&& 1 <= r.0
            &&& 1 <= r.1
            &&& if orig_w >= orig_h {
                r.0 == max_side && r.1 <= max_side
            } else {
                r.1 == max_side && r.0 <= max_side
            }
        },
{
    if orig_w <= max_side && orig_h <= max_side {
        (orig_w, orig_h)
    } else if orig_w >= orig_h {
        let s = scale_short(orig_h, orig_w, max_side);
        (max_side, s)
    } else {
        let s = scale_short(orig_w, orig_h, max_side);
        (s, max_side)
    }
}

/// Minimum dimension floor: for positive inputs the size policy never returns
/// 0 on either axis, however extreme the aspect ratio.
pub proof fn lemma_min_dimension_floor(orig_w: int, orig_h: int, max_side: int)
    requires
        1 <= orig_w,
        1 <= orig_h,
        1 <= max_side,
    ensures
        target_size_spec(orig_w, orig_h, max_side).0 >= 1,
        target_size_spec(orig_w, orig_h, max_side).1 >= 1,
{
}

proof fn lemma_round_le_short(short: int, long: int, max_side: int)
    requires
        1 <= short <= long,
        1 <= max_side,
        max_side < long,
    ensures
        scaled_short_side(short, long, max_side) <= short,
{
    let num = short * max_side;
    let q = round_nearest_div(num, long);
    vstd::arithmetic::div_mod::lemma_fundamental_div_mod(2 * num + long, 2 * long);
    vstd::arithmetic::div_mod::lemma_mod_bound(2 * num + long, 2 * long);
    let r = (2 * num + long) % (2 * long);
    assert(2 * num + long == (2 * long) * q + r);
    if q > short {
        vstd::arithmetic::mul::lemma_mul_inequality(short + 1, q, 2 * long);
        vstd::arithmetic::mul::lemma_mul_is_distributive_add_other_way(2 * long, short, 1);
        vstd::arithmetic::mul::lemma_mul_is_commutative(q, 2 * long);
        vstd::arithmetic::mul::lemma_mul_is_commutative(short, 2 * long);
        vstd::arithmetic::mul::lemma_mul_is_associative(2, long, short);
        vstd::arithmetic::mul::lemma_mul_inequality(max_side, long, short);
        vstd::arithmetic::mul::lemma_mul_is_commutative(max_side, short);
        vstd::arithmetic::mul::lemma_mul_is_commutative(long, short);
        assert(false);
    }
}

/// The size policy never exceeds the bound on either axis and never enlarges
/// either axis.
pub proof fn lemma_fits_within_bound(orig_w: int, orig_h: int, max_side: int)
    requires
        1 <= orig_w,
        1 <= orig_h,
        1 <= max_side,
    ensures
        target_size_spec(orig_w, orig_h, max_side).0 <= max_side,
        target_size_spec(orig_w, orig_h, max_side).1 <= max_side,
        target_size_spec(orig_w, orig_h, max_side).0 <= orig_w,
        target_size_spec(orig_w, orig_h, max_side).1 <= orig_h,
{
    if !(orig_w <= max_side && orig_h <= max_side) {
        if orig_w >= orig_h {
            lemma_round_bounds(orig_h, orig_w, max_side);
            lemma_round_le_short(orig_h, orig_w, max_side);
        } else {
            lemma_round_bounds(orig_w, orig_h, max_side);
            lemma_round_le_short(orig_w, orig_h, max_side);
        }
    }
}

/// Aspect-ratio preservation: whenever the size policy scales, the longer
/// original side maps exactly to `max_side`, the output never exceeds
/// `max_side` on either axis, and (unless the floor at 1 applies) the shorter
/// output side differs from the exact rational `short * max_side / long` by at
/// most half a unit: `|2 * out_short * long - 2 * short * max_side| <= long`.
pub proof fn lemma_aspect_ratio_preserved(orig_w: int, orig_h: int, max_side: int)
    requires
        1 <= orig_w,
        1 <= orig_h,
        1 <= max_side,
        !(orig_w <= max_side && orig_h <= max_side),
    ensures
        ({
            let (tw, th) = target_size_spec(orig_w, orig_h, max_side);
            &&& tw <= max_side
            &&& th <= max_side
            &&& orig_w >= orig_h ==> tw == max_side && (th == 1 || {
                &&& 2 * th * orig_w <= 2 * orig_h * max_side + orig_w
                &&& 2 * orig_h * max_side <= 2 * th * orig_w + orig_w
            })
            &&& orig_w < orig_h ==> th == max_side && (tw == 1 || {
                &&& 2 * tw * orig_h <= 2 * orig_w * max_side + orig_h
                &&& 2 * orig_w * max_side <= 2 * tw * orig_h + orig_h
            })
        }),
{
    if orig_w >= orig_h {
        lemma_round_error(orig_h, orig_w, max_side);
    } else {
        lemma_round_error(orig_w, orig_h, max_side);
    }
}

proof fn lemma_round_error(short: int, long: int, max_side: int)
    requires
        1 <= short <= long,
        1 <= max_side,
        max_side < long,
    ensures
        scaled_short_side(short, long, max_side) <= max_side,
        scaled_short_side(short, long, max_side) == 1 || {
            let s = scaled_short_side(short, long, max_side);
            &&& 2 * s * long <= 2 * short * max_side + long
            &&& 2 * short * max_side <= 2 * s * long + long
        },
{
    lemma_round_bounds(short, long, max_side);
    let num = short * max_side;
    let q = round_nearest_div(num, long);
    vstd::arithmetic::div_mod::lemma_fundamental_div_mod(2 * num + long, 2 * long);
    vstd::arithmetic::div_mod::lemma_mod_bound(2 * num + long, 2 * long);
    let r = (2 * num + long) % (2 * long);
    assert(2 * num + long == (2 * long) * q + r);
    let s = scaled_short_side(short, long, max_side);
    if q >= 1 {
        assert(s == q);
        assert((2 * long) * q == 2 * s * long) by {
            vstd::arithmetic::mul::lemma_mul_is_associative(2, long, q);
            vstd::arithmetic::mul::lemma_mul_is_commutative(long, q);
            vstd::arithmetic::mul::lemma_mul_is_associative(2, q, long);
        }
        assert(2 * short * max_side == 2 * num) by {
            vstd::arithmetic::mul::lemma_mul_is_associative(2, short, max_side);
        }
        assert(2 * s * long == 2 * num + long - r);
        assert(0 <= r < 2 * long);
    }
}

} // verus!
