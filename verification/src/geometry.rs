//! The crop geometry engine: cover scaling and centering, pan clamping, and
//! the crop rectangle in image-pixel space.
//!
//! Each executable function returns values whose views equal a spec-level
//! model (`spec_scale`, `spec_constrain_axis`, `spec_crop_w`, ...), so the
//! laws in `laws` speak about the same functions the code computes.

use vstd::prelude::*;

use crate::dims::Dimensions;
use crate::rat::{
    lemma_mag_mul, lemma_neg_abs_le, lemma_pos_mul_bound, lemma_val_from_between, lemma_val_half,
    lemma_val_mul, lemma_val_sub, rat_abs, rat_add, rat_clamp, rat_div, rat_eq, rat_half, rat_int,
    rat_le, rat_lt, rat_max, rat_min, rat_mul, rat_mul_int, rat_neg, rat_sub, rat_val_bounded,
    Frac, Rat,
};

verus! {

/// Scale and placement of the image on the canvas for a given zoom.
#[derive(Clone, Copy, Debug)]
pub struct CenterImage {
    /// Uniform image-to-canvas scale factor ("cover" scale times zoom).
    pub scale: Frac,
    /// Displayed image size on the canvas (width, height).
    pub dims: (Frac, Frac),
    /// Canvas position of the displayed image's top-left corner.
    pub offset: (Frac, Frac),
}

/// Crop rectangle in image-pixel space.
#[derive(Clone, Copy, Debug)]
pub struct CropRegion {
    pub origin: (Frac, Frac),
    pub size: (Frac, Frac),
}

// ------------------------------------------------------------------
// The mathematical model.
// ------------------------------------------------------------------
/// Aperture width: canvas width minus a border on each side.
pub open spec fn spec_limit_w(d: Dimensions) -> Rat {
    rat_sub(rat_int(d.canvas_w as int), rat_mul_int(d.border_x@, 2))
}

pub open spec fn spec_limit_h(d: Dimensions) -> Rat {
    rat_sub(rat_int(d.canvas_h as int), rat_mul_int(d.border_y@, 2))
}

/// Cover scale: the smallest uniform factor at which the image covers the
/// aperture on both axes.
pub open spec fn spec_scale_base(d: Dimensions) -> Rat {
    rat_max(
        rat_div(spec_limit_w(d), rat_int(d.image_w as int)),
        rat_div(spec_limit_h(d), rat_int(d.image_h as int)),
    )
}

pub open spec fn spec_scale(d: Dimensions, zoom: Rat) -> Rat {
    rat_mul(spec_scale_base(d), zoom)
}

pub open spec fn spec_display_w(d: Dimensions, zoom: Rat) -> Rat {
    rat_mul(rat_int(d.image_w as int), spec_scale(d, zoom))
}

pub open spec fn spec_display_h(d: Dimensions, zoom: Rat) -> Rat {
    rat_mul(rat_int(d.image_h as int), spec_scale(d, zoom))
}

/// The displayed image is centered: equal margins left and right.
pub open spec fn spec_offset_x(d: Dimensions, zoom: Rat) -> Rat {
    rat_half(rat_sub(rat_int(d.canvas_w as int), spec_display_w(d, zoom)))
}

pub open spec fn spec_offset_y(d: Dimensions, zoom: Rat) -> Rat {
    rat_half(rat_sub(rat_int(d.canvas_h as int), spec_display_h(d, zoom)))
}

/// One axis of pan clamping: the pan is confined to a symmetric window of
/// half-width `|border - offset|`; a zero-width window collapses the pan to 0.
pub open spec fn spec_constrain_axis(border: Rat, p: Rat, off: Rat) -> Rat {
    let w = rat_sub(border, off);
    if w.n == 0 {
        rat_int(0)
    } else {
        rat_clamp(p, rat_neg(rat_abs(w)), rat_abs(w))
    }
}

/// Image-space height of the crop at zoom 1: the largest height whose
/// `ratio`-wide box still fits inside the image.
pub open spec fn spec_factor(d: Dimensions) -> Rat {
    rat_min(rat_int(d.image_h as int), rat_div(rat_int(d.image_w as int), d.ratio@))
}

pub open spec fn spec_crop_h(d: Dimensions, zoom: Rat) -> Rat {
    rat_div(spec_factor(d), zoom)
}

pub open spec fn spec_crop_w(d: Dimensions, zoom: Rat) -> Rat {
    rat_mul(d.ratio@, spec_crop_h(d, zoom))
}

/// Image point currently aligned with the canvas center.
pub open spec fn spec_crop_center_x(d: Dimensions, pan_x: Rat, scale: Rat) -> Rat {
    rat_add(rat_div(pan_x, scale), rat_half(rat_int(d.image_w as int)))
}

pub open spec fn spec_crop_center_y(d: Dimensions, pan_y: Rat, scale: Rat) -> Rat {
    rat_add(rat_div(pan_y, scale), rat_half(rat_int(d.image_h as int)))
}

pub open spec fn spec_crop_x(d: Dimensions, pan_x: Rat, scale: Rat, zoom: Rat) -> Rat {
    rat_sub(spec_crop_center_x(d, pan_x, scale), rat_half(spec_crop_w(d, zoom)))
}

pub open spec fn spec_crop_y(d: Dimensions, pan_y: Rat, scale: Rat, zoom: Rat) -> Rat {
    rat_sub(spec_crop_center_y(d, pan_y, scale), rat_half(spec_crop_h(d, zoom)))
}

// ------------------------------------------------------------------
// Representation bounds, so that every step fits in `i128`.
// ------------------------------------------------------------------
/// A zoom factor: at least 1, at most 16, in small terms.
pub open spec fn wf_zoom(z: Frac) -> bool {
    &&& z.wf()
    &&& z.den <= 128
    &&& z.num <= 2048
    &&& rat_le(rat_int(1), z@)
    &&& rat_le(z@, rat_int(16))
}

/// A scale produced by `center_image`: positive, value at most 65536.
pub open spec fn wf_scale(f: Frac) -> bool {
    &&& f.wf()
    &&& 0 < f.num <= 0x10000000
    &&& f.den <= 0x1000000
    &&& f.num <= 0x10000 * f.den
}

/// An offset produced by `center_image`.
pub open spec fn wf_offset(f: Frac) -> bool {
    &&& f.wf()
    &&& f.den <= 0x2000000
    &&& rat_val_bounded(f@, 0x10000000)
}

/// A clamped pan component.
pub open spec fn wf_pan(f: Frac) -> bool {
    &&& f.wf()
    &&& f.den <= 0x40000000
    &&& rat_val_bounded(f@, 0x20000000)
}

/// A pan component before clamping: a clamped pan moved by a pointer delta.
pub open spec fn wf_pan_cand(f: Frac) -> bool {
    &&& f.wf()
    &&& f.den <= 0x40000000
    &&& rat_val_bounded(f@, 0x40000000)
}

pub proof fn lemma_pan_is_cand(f: Frac)
    requires
        wf_pan(f),
    ensures
        wf_pan_cand(f),
{
}

// ------------------------------------------------------------------
// Executable geometry.
// ------------------------------------------------------------------
/// Aperture length along one axis, with its representation bounds.
pub(crate) fn axis_limit(canvas: u32, border: &Frac) -> (r: Frac)
    requires
        0 < canvas <= 4096,
        border.wf(),
        border.den <= 32,
        0 <= border.num,
        2 * border.num < canvas * border.den,
    ensures
        r@ == rat_sub(rat_int(canvas as int), rat_mul_int(border@, 2)),
        r.wf(),
        0 < r.num <= 0x20000,
        r.den <= 32,
        r.num <= 4096 * r.den,
{
    proof {
        lemma_pos_mul_bound(canvas as int, border.den as int, 4096, 32);
        assert(canvas * border.den <= 4096 * border.den) by (nonlinear_arith)
            requires
                canvas <= 4096,
                border.den > 0,
        ;
    }
    let doubled = border.times_int(2);
    let c = Frac::from_int(canvas as i64);
    c.minus(&doubled)
}

/// Scale the image so it covers the aperture, enlarge by the zoom, and
/// center it on the canvas.
pub fn center_image(dims: &Dimensions, zoom: &Frac) -> (r: CenterImage)
    requires
        dims.wf(),
        wf_zoom(*zoom),
    ensures
        r.scale@ == spec_scale(*dims, zoom@),
        r.dims.0@ == spec_display_w(*dims, zoom@),
        r.dims.1@ == spec_display_h(*dims, zoom@),
        r.offset.0@ == spec_offset_x(*dims, zoom@),
        r.offset.1@ == spec_offset_y(*dims, zoom@),
        wf_scale(r.scale),
        wf_offset(r.offset.0),
        wf_offset(r.offset.1),
{
    let iw = Frac::from_int(dims.image_w as i64);
    let ih = Frac::from_int(dims.image_h as i64);
    let cw = Frac::from_int(dims.canvas_w as i64);
    let ch = Frac::from_int(dims.canvas_h as i64);

    let limit_w = axis_limit(dims.canvas_w, &dims.border_x);
    let limit_h = axis_limit(dims.canvas_h, &dims.border_y);

    // Per-axis candidate scales; each has value at most 4096.
    proof {
        lemma_pos_mul_bound(limit_w.den as int, dims.image_w as int, 32, 4096);
        lemma_pos_mul_bound(limit_h.den as int, dims.image_h as int, 32, 4096);
    }
    let sb_w = limit_w.divided_by(&iw);
    let sb_h = limit_h.divided_by(&ih);
    proof {
        assert(sb_w.num <= 4096 * sb_w.den && sb_h.num <= 4096 * sb_h.den)
            by (nonlinear_arith)
            requires
                sb_w.num <= 4096 * limit_w.den,
                sb_w.den == limit_w.den * dims.image_w,
                limit_w.den > 0,
                dims.image_w >= 1,
                sb_h.num <= 4096 * limit_h.den,
                sb_h.den == limit_h.den * dims.image_h,
                limit_h.den > 0,
                dims.image_h >= 1,
        ;
        lemma_mag_mul(sb_w.num as int, sb_h.den as int, 0x20000, 0x20000);
        lemma_mag_mul(sb_h.num as int, sb_w.den as int, 0x20000, 0x20000);
    }
    let sb = sb_w.max_of(&sb_h);

    proof {
        lemma_mag_mul(sb.num as int, zoom.num as int, 0x20000, 2048);
        lemma_mag_mul(sb.den as int, zoom.den as int, 0x20000, 128);
        lemma_pos_mul_bound(sb.den as int, zoom.den as int, 0x20000, 128);
        // Value bound for the scale: 4096 * 16.
        assert(rat_val_bounded(sb@, 4096));
        assert(rat_val_bounded(zoom@, 16));
        lemma_val_mul(sb@, zoom@, 4096, 16);
    }
    let scale = sb.times(zoom);
    proof {
        assert(scale.num > 0) by (nonlinear_arith)
            requires
                scale.num == sb.num * zoom.num,
                sb.num > 0,
                zoom.num > 0,
        ;
    }

    proof {
        lemma_mag_mul(dims.image_w as int, scale.num as int, 4096, 0x10000000);
        lemma_mag_mul(dims.image_h as int, scale.num as int, 4096, 0x10000000);
        assert(rat_val_bounded(iw@, 4096));
        assert(rat_val_bounded(ih@, 4096));
        lemma_val_mul(iw@, scale@, 4096, 0x10000);
        lemma_val_mul(ih@, scale@, 4096, 0x10000);
    }
    let disp_w = iw.times(&scale);
    let disp_h = ih.times(&scale);

    proof {
        lemma_mag_mul(dims.canvas_w as int, disp_w.den as int, 4096, 0x1000000);
        lemma_mag_mul(dims.canvas_h as int, disp_h.den as int, 4096, 0x1000000);
        assert(rat_val_bounded(cw@, 4096));
        assert(rat_val_bounded(ch@, 4096));
        lemma_val_sub(cw@, disp_w@, 4096, 0x10000000);
        lemma_val_sub(ch@, disp_h@, 4096, 0x10000000);
    }
    let off_w_raw = cw.minus(&disp_w);
    let off_h_raw = ch.minus(&disp_h);
    proof {
        assert(rat_val_bounded(off_w_raw@, 0x10001000));
        assert(rat_val_bounded(off_h_raw@, 0x10001000));
        assert(rat_val_bounded(off_w_raw@, 0x20000000));
        assert(rat_val_bounded(off_h_raw@, 0x20000000));
        lemma_val_half(off_w_raw@, 0x10000000);
        lemma_val_half(off_h_raw@, 0x10000000);
    }
    let offset_x = off_w_raw.half();
    let offset_y = off_h_raw.half();

    CenterImage { scale, dims: (disp_w, disp_h), offset: (offset_x, offset_y) }
}

/// One axis of `constrain_position`.
fn constrain_axis(border: &Frac, p: &Frac, off: &Frac) -> (r: Frac)
    requires
        border.wf(),
        border.den <= 32,
        0 <= border.num <= 2048 * border.den,
        wf_pan_cand(*p),
        wf_offset(*off),
    ensures
        r@ == spec_constrain_axis(border@, p@, off@),
        wf_pan(r),
{
    proof {
        lemma_mag_mul(border.num as int, off.den as int, 0x10000, 0x2000000);
        lemma_mag_mul(off.num as int, border.den as int, 0x20_0000_0000_0000, 32);
        lemma_pos_mul_bound(border.den as int, off.den as int, 32, 0x2000000);
    }
    let win = border.minus(off);
    proof {
        assert(rat_val_bounded(border@, 2048));
        lemma_val_sub(border@, off@, 2048, 0x10000000);
        assert(rat_val_bounded(win@, 0x10000800));
    }
    if win.num == 0 {
        Frac::from_int(0)
    } else {
        proof {
            lemma_neg_abs_le(win@, 0x10000800);
        }
        let wa = win.abs_frac();
        let lo = wa.negated();
        proof {
            lemma_mag_mul(p.num as int, wa.den as int, 0x1000_0000_0000_0000, 0x4000_0000);
            lemma_mag_mul(wa.num as int, p.den as int, 0x400_0200_0000_0000, 0x4000_0000);
            lemma_mag_mul(lo.num as int, p.den as int, 0x400_0200_0000_0000, 0x4000_0000);
        }
        let res = p.clamp_to(&lo, &wa);
        proof {
            lemma_val_from_between(res@, wa@, 0x20000000);
        }
        res
    }
}

/// Clamps each pan axis independently to the window `[-|border - offset|,
/// +|border - offset|]`; a zero-width window forces that axis to 0, so the
/// aperture always stays inside the displayed image.
pub fn constrain_position(dims: &Dimensions, pos: (Frac, Frac), off: (Frac, Frac)) -> (r: (
    Frac,
    Frac,
))
    requires
        dims.wf(),
        wf_pan_cand(pos.0),
        wf_pan_cand(pos.1),
        wf_offset(off.0),
        wf_offset(off.1),
    ensures
        r.0@ == spec_constrain_axis(dims.border_x@, pos.0@, off.0@),
        r.1@ == spec_constrain_axis(dims.border_y@, pos.1@, off.1@),
        wf_pan(r.0),
        wf_pan(r.1),
        rat_eq(dims.border_x@, off.0@) ==> r.0@ == rat_int(0),
        rat_eq(dims.border_y@, off.1@) ==> r.1@ == rat_int(0),
{
    proof {
        assert(dims.border_x.num <= 2048 * dims.border_x.den && dims.border_y.num <= 2048
            * dims.border_y.den) by (nonlinear_arith)
            requires
                2 * dims.border_x.num < dims.canvas_w * dims.border_x.den,
                2 * dims.border_y.num < dims.canvas_h * dims.border_y.den,
                dims.canvas_w <= 4096,
                dims.canvas_h <= 4096,
                dims.border_x.den > 0,
                dims.border_y.den > 0,
        ;
    }
    let x = constrain_axis(&dims.border_x, &pos.0, &off.0);
    let y = constrain_axis(&dims.border_y, &pos.1, &off.1);
    (x, y)
}

/// One axis of the crop corner: `p / scale + side / 2 - half_size`.
fn crop_corner_axis(p: &Frac, scale: &Frac, side: u32, half_size: &Frac) -> (r: Frac)
    requires
        wf_pan(*p),
        wf_scale(*scale),
        0 < side <= 4096,
        half_size.wf(),
        -0x80000000000 <= half_size.num <= 0x80000000000,
        half_size.den <= 0x1000000000,
    ensures
        r.wf(),
        r@ == rat_sub(rat_add(rat_div(p@, scale@), rat_half(rat_int(side as int))), half_size@),
{
    proof {
        lemma_mag_mul(p.num as int, scale.den as int, 0x800_0000_0000_0000, 0x100_0000);
        lemma_pos_mul_bound(p.den as int, scale.num as int, 0x4000_0000, 0x1000_0000);
    }
    let q = p.divided_by(scale);
    let half_side = Frac::new(side as i128, 2);
    proof {
        lemma_mag_mul(side as int, q.den as int, 4096, 0x400_0000_0000_0000);
    }
    let c = q.plus(&half_side);
    proof {
        assert(-0x20_0000_0000_0000_0000_0000 <= c.num <= 0x20_0000_0000_0000_0000_0000);
        lemma_mag_mul(
            c.num as int,
            half_size.den as int,
            0x20_0000_0000_0000_0000_0000,
            0x10_0000_0000,
        );
        lemma_mag_mul(half_size.num as int, c.den as int, 0x800_0000_0000, 0x800_0000_0000_0000);
        lemma_pos_mul_bound(c.den as int, half_size.den as int, 0x800_0000_0000_0000, 0x10_0000_0000);
    }
    c.minus(half_size)
}

/// The crop rectangle in image-pixel space: a `ratio`-shaped box centred on
/// the image point aligned with the canvas centre, shrinking as zoom grows.
pub fn bounding_box(dims: &Dimensions, pos: (Frac, Frac), scale: &Frac, zoom: &Frac) -> (r:
    CropRegion)
    requires
        dims.wf(),
        wf_pan(pos.0),
        wf_pan(pos.1),
        wf_scale(*scale),
        wf_zoom(*zoom),
    ensures
        r.origin.0@ == spec_crop_x(*dims, pos.0@, scale@, zoom@),
        r.origin.1@ == spec_crop_y(*dims, pos.1@, scale@, zoom@),
        r.size.0@ == spec_crop_w(*dims, zoom@),
        r.size.1@ == spec_crop_h(*dims, zoom@),
        r.size.0@ == rat_mul(dims.ratio@, r.size.1@),
        rat_lt(rat_int(0), r.size.0@),
        rat_lt(rat_int(0), r.size.1@),
        r.origin.0.wf() && r.origin.1.wf() && r.size.0.wf() && r.size.1.wf(),
{
    let iw = Frac::from_int(dims.image_w as i64);
    let ih = Frac::from_int(dims.image_h as i64);

    proof {
        lemma_mag_mul(dims.image_w as int, dims.ratio.den as int, 4096, 4096);
    }
    let q = iw.divided_by(&dims.ratio);
    proof {
        lemma_pos_mul_bound(dims.image_w as int, dims.ratio.den as int, 4096, 4096);
        lemma_mag_mul(dims.image_h as int, q.den as int, 4096, 4096);
    }
    let factor = ih.min_of(&q);
    proof {
        lemma_mag_mul(factor.num as int, zoom.den as int, 0x1000000, 128);
        lemma_pos_mul_bound(factor.den as int, zoom.num as int, 0x1000, 2048);
    }
    let size_h = factor.divided_by(zoom);
    proof {
        lemma_pos_mul_bound(factor.num as int, zoom.den as int, 0x1000000, 128);
        lemma_mag_mul(dims.ratio.num as int, size_h.num as int, 0x1000, 0x80000000);
        lemma_pos_mul_bound(dims.ratio.den as int, size_h.den as int, 0x1000, 0x800000);
        lemma_pos_mul_bound(dims.ratio.num as int, size_h.num as int, 0x1000, 0x80000000);
    }
    let size_w = dims.ratio.times(&size_h);

    let half_w = size_w.half();
    let half_h = size_h.half();
    let corner_x = crop_corner_axis(&pos.0, scale, dims.image_w, &half_w);
    let corner_y = crop_corner_axis(&pos.1, scale, dims.image_h, &half_h);

    CropRegion { origin: (corner_x, corner_y), size: (size_w, size_h) }
}

} // verus!
