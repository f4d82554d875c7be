//! The geometric laws of the engine, proved over the spec-level model that
//! the executable functions are specified against.

use vstd::prelude::*;

use crate::dims::Dimensions;
use crate::geometry::{
    spec_constrain_axis, spec_crop_h, spec_crop_w, spec_display_h, spec_display_w, spec_factor,
    spec_limit_h, spec_limit_w, spec_offset_x, spec_offset_y, spec_scale, spec_scale_base,
};
use crate::rat::{
    lemma_pos_mul_bound, lemma_rat_div_antitone, lemma_rat_double_half, lemma_rat_eq_le,
    lemma_rat_le_trans, lemma_rat_mul_div_cancel, lemma_rat_mul_div_cancel_right,
    lemma_rat_mul_ge_one, lemma_rat_mul_le_mono, lemma_rat_mul_lt_mono, rat_abs, rat_clamp,
    rat_div, rat_eq, rat_half, rat_int, rat_le, rat_lt, rat_max, rat_mul, rat_mul_int, rat_neg,
    rat_sub, Rat,
};

verus! {

/// Centering: for any zoom, the display offset splits the canvas margin
/// evenly, `2 * offset == canvas - displaySize`, on both axes.
pub proof fn lemma_centering(d: Dimensions, z: Rat)
    requires
        d.wf(),
        z.d > 0,
    ensures
        rat_eq(
            rat_mul_int(spec_offset_x(d, z), 2),
            rat_sub(rat_int(d.canvas_w as int), spec_display_w(d, z)),
        ),
        rat_eq(
            rat_mul_int(spec_offset_y(d, z), 2),
            rat_sub(rat_int(d.canvas_h as int), spec_display_h(d, z)),
        ),
{
    lemma_rat_double_half(rat_sub(rat_int(d.canvas_w as int), spec_display_w(d, z)));
    lemma_rat_double_half(rat_sub(rat_int(d.canvas_h as int), spec_display_h(d, z)));
}

/// Cover invariant: for any zoom at least 1 (so in particular at zoom 1),
/// the displayed image is at least as large as the aperture on both axes.
pub proof fn lemma_cover(d: Dimensions, z: Rat)
    requires
        d.wf(),
        z.d > 0,
        rat_le(rat_int(1), z),
    ensures
        rat_le(spec_limit_w(d), spec_display_w(d, z)),
        rat_le(spec_limit_h(d), spec_display_h(d, z)),
{
    lemma_cover_axis(d, z, true);
    lemma_cover_axis(d, z, false);
}

/// One axis of the cover invariant.
proof fn lemma_cover_axis(d: Dimensions, z: Rat, horizontal: bool)
    requires
        d.wf(),
        z.d > 0,
        rat_le(rat_int(1), z),
    ensures
        horizontal ==> rat_le(spec_limit_w(d), spec_display_w(d, z)),
        !horizontal ==> rat_le(spec_limit_h(d), spec_display_h(d, z)),
{
    let lim = if horizontal {
        spec_limit_w(d)
    } else {
        spec_limit_h(d)
    };
    let side = if horizontal {
        d.image_w as int
    } else {
        d.image_h as int
    };
    let q = rat_div(lim, rat_int(side));
    let sb = spec_scale_base(d);
    let scale = spec_scale(d, z);

    assert(lim.d > 0 && lim.n > 0);
    assert(q.d == lim.d * side && q.n == lim.n);
    lemma_pos_mul_bound(lim.d, side, lim.d, side);
    assert(rat_le(q, sb));
    assert(0 <= sb.n && sb.d > 0) by {
        lemma_pos_mul_bound(
            spec_limit_w(d).d,
            d.image_w as int,
            spec_limit_w(d).d,
            d.image_w as int,
        );
        lemma_pos_mul_bound(
            spec_limit_h(d).d,
            d.image_h as int,
            spec_limit_h(d).d,
            d.image_h as int,
        );
    }
    lemma_pos_mul_bound(sb.d, z.d, sb.d, z.d);
    lemma_rat_mul_ge_one(sb, z);
    lemma_rat_le_trans(q, sb, scale);
    lemma_rat_mul_le_mono(q, scale, rat_int(side));
    lemma_rat_mul_div_cancel(lim, side);
    lemma_rat_eq_le(
        rat_mul(rat_int(side), q),
        lim,
        rat_mul(rat_int(side), scale),
    );
}

/// Clamp idempotence: constraining an already constrained pan changes
/// nothing, for every pan and window.
pub proof fn lemma_constrain_idempotent(b: Rat, p: Rat, off: Rat)
    requires
        b.d > 0,
        p.d > 0,
        off.d > 0,
    ensures
        spec_constrain_axis(b, spec_constrain_axis(b, p, off), off) == spec_constrain_axis(
            b,
            p,
            off,
        ),
{
    let w = rat_sub(b, off);
    lemma_pos_mul_bound(b.d, off.d, b.d, off.d);
    if w.n != 0 {
        let hi = rat_abs(w);
        let lo = rat_neg(hi);
        assert(rat_le(lo, hi)) by (nonlinear_arith)
            requires
                hi.d > 0,
                0 <= hi.n,
                lo == rat_neg(hi),
        ;
        assert(rat_clamp(rat_clamp(p, lo, hi), lo, hi) == rat_clamp(p, lo, hi));
    }
}

/// Zero-window collapse: when the border equals the offset on an axis, the
/// constrained pan on that axis is 0 whatever was asked for.
pub proof fn lemma_zero_window(b: Rat, p: Rat, off: Rat)
    requires
        b.d > 0,
        off.d > 0,
        rat_eq(b, off),
    ensures
        spec_constrain_axis(b, p, off) == rat_int(0),
{
}

/// The crop height is positive for every well-formed layout and positive
/// zoom.
pub proof fn lemma_crop_positive(d: Dimensions, z: Rat)
    requires
        d.wf(),
        z.d > 0,
        0 < z.n,
    ensures
        0 < spec_factor(d).n,
        spec_factor(d).d > 0,
        0 < spec_crop_h(d, z).n,
        spec_crop_h(d, z).d > 0,
        0 < spec_crop_w(d, z).n,
        spec_crop_w(d, z).d > 0,
{
    lemma_pos_mul_bound(d.image_w as int, d.ratio@.d, d.image_w as int, d.ratio@.d);
    let f = spec_factor(d);
    assert(0 < f.n && 0 < f.d);
    lemma_pos_mul_bound(f.n, z.d, f.n, z.d);
    lemma_pos_mul_bound(f.d, z.n, f.d, z.n);
    lemma_pos_mul_bound(d.ratio@.n, spec_crop_h(d, z).n, d.ratio@.n, spec_crop_h(d, z).n);
    lemma_pos_mul_bound(d.ratio@.d, spec_crop_h(d, z).d, d.ratio@.d, spec_crop_h(d, z).d);
}

/// Crop aspect: the crop rectangle's width over its height equals the
/// output ratio, for every positive zoom.
pub proof fn lemma_crop_aspect(d: Dimensions, z: Rat)
    requires
        d.wf(),
        z.d > 0,
        0 < z.n,
    ensures
        rat_eq(rat_div(spec_crop_w(d, z), spec_crop_h(d, z)), d.ratio@),
{
    lemma_crop_positive(d, z);
    lemma_rat_mul_div_cancel_right(d.ratio@, spec_crop_h(d, z));
}

/// Zoom monotonicity: raising the zoom strictly shrinks the crop rectangle
/// on both axes.
pub proof fn lemma_zoom_monotone(d: Dimensions, z1: Rat, z2: Rat)
    requires
        d.wf(),
        z1.d > 0,
        z2.d > 0,
        0 < z1.n,
        0 < z2.n,
        rat_lt(z1, z2),
    ensures
        rat_lt(spec_crop_h(d, z2), spec_crop_h(d, z1)),
        rat_lt(spec_crop_w(d, z2), spec_crop_w(d, z1)),
{
    lemma_crop_positive(d, z1);
    lemma_crop_positive(d, z2);
    let f = spec_factor(d);
    lemma_rat_div_antitone(f, z1, z2);
    lemma_rat_mul_lt_mono(spec_crop_h(d, z2), spec_crop_h(d, z1), d.ratio@);
}

} // verus!
