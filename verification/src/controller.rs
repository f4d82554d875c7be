//! The interaction state machine: zoom, pan, drag anchor, image readiness.
//!
//! Pointer and zoom events update the state through the geometry engine; the
//! pan is re-clamped on every move and on every zoom change, so the aperture
//! never leaves the displayed image. Drawing and committing are pure
//! computations over the current state; the host performs the actual
//! rendering from the returned plan.

use vstd::prelude::*;

use crate::dims::Dimensions;
use crate::geometry::{
    axis_limit, bounding_box, center_image, constrain_position, lemma_pan_is_cand,
    spec_constrain_axis, spec_crop_h, spec_crop_w, spec_crop_x, spec_crop_y, spec_display_h,
    spec_display_w, spec_limit_h, spec_limit_w, spec_offset_x, spec_offset_y, spec_scale, wf_pan,
    wf_pan_cand, wf_zoom, CropRegion,
};
use crate::laws::lemma_constrain_idempotent;
use crate::rat::{
    lemma_mag_mul, lemma_pos_mul_bound, lemma_val_add_int, rat_add_int, rat_div, rat_int, rat_lt,
    rat_mul, rat_val_bounded, Frac,
};

verus! {

/// A pointer coordinate the widget accepts, in canvas-local pixels.
pub open spec fn wf_pointer(v: int) -> bool {
    -4096 <= v <= 4096
}

/// Everything the renderer needs for one frame: the source rectangle origin
/// of the image blit, its destination rectangle, and the aperture overlay.
#[derive(Clone, Copy, Debug)]
pub struct DrawPlan {
    /// Source origin in image space: `pan / scale` per axis.
    pub src_x: Frac,
    pub src_y: Frac,
    /// Source size: the full image.
    pub src_w: u32,
    pub src_h: u32,
    /// Destination rectangle on the canvas: centered offset and display size.
    pub dest_x: Frac,
    pub dest_y: Frac,
    pub dest_w: Frac,
    pub dest_h: Frac,
    /// Aperture rectangle on the canvas: border inset and aperture size.
    pub aperture_x: Frac,
    pub aperture_y: Frac,
    pub aperture_w: Frac,
    pub aperture_h: Frac,
    /// Corner radius of the aperture mask, passed through to the renderer.
    pub radius: u32,
}

/// Interaction state, owned by the widget for its whole lifetime.
#[derive(Clone, Copy, Debug)]
pub struct ViewState {
    /// Current zoom factor, at least 1.
    pub zoom: Frac,
    /// Pan offset in canvas pixels, clamped by `constrain_position`.
    pub pan: (Frac, Frac),
    /// Last pointer position while a drag is active.
    pub drag_anchor: Option<(i32, i32)>,
    /// Whether the image metadata has arrived; drawing waits for it.
    pub image_ready: bool,
}

impl ViewState {
    pub open spec fn wf(self) -> bool {
        &&& wf_zoom(self.zoom)
        &&& wf_pan(self.pan.0)
        &&& wf_pan(self.pan.1)
        &&& (self.drag_anchor matches Some(a) ==> wf_pointer(a.0 as int) && wf_pointer(
            a.1 as int,
        ))
    }

    /// Initial state: idle at zoom 1 with no pan, image not yet loaded.
    pub fn new() -> (r: ViewState)
        ensures
            r.wf(),
            r.zoom@ == rat_int(1),
            r.pan.0@ == rat_int(0),
            r.pan.1@ == rat_int(0),
            r.drag_anchor is None,
            !r.image_ready,
    {
        ViewState {
            zoom: Frac::new(1, 1),
            pan: (Frac::new(0, 1), Frac::new(0, 1)),
            drag_anchor: None,
            image_ready: false,
        }
    }

    /// The image has finished loading; drawing may start.
    pub fn set_image_ready(&mut self)
        requires
            old(self).wf(),
        ensures
            final(self).wf(),
            *final(self) == (ViewState { image_ready: true, ..*old(self) }),
    {
        self.image_ready = true;
    }

    /// A drag begins: remember the pointer position as the anchor.
    pub fn pointer_down(&mut self, x: i32, y: i32)
        requires
            old(self).wf(),
            wf_pointer(x as int),
            wf_pointer(y as int),
        ensures
            final(self).wf(),
            *final(self) == (ViewState { drag_anchor: Some((x, y)), ..*old(self) }),
    {
        self.drag_anchor = Some((x, y));
    }

    /// The drag ends; the pan keeps its last clamped value.
    pub fn pointer_up(&mut self)
        requires
            old(self).wf(),
        ensures
            final(self).wf(),
            *final(self) == (ViewState { drag_anchor: None, ..*old(self) }),
    {
        self.drag_anchor = None;
    }

    /// The pointer left the canvas: same as releasing it.
    pub fn pointer_leave(&mut self)
        requires
            old(self).wf(),
        ensures
            final(self).wf(),
            *final(self) == (ViewState { drag_anchor: None, ..*old(self) }),
    {
        self.drag_anchor = None;
    }

    /// While dragging, translate the pan by the inverted pointer delta, clamp
    /// it against the current aperture window, and move the anchor. Outside a
    /// drag the event changes nothing.
    pub fn pointer_move(&mut self, dims: &Dimensions, x: i32, y: i32)
        requires
            old(self).wf(),
            dims.wf(),
            wf_pointer(x as int),
            wf_pointer(y as int),
        ensures
            final(self).wf(),
            final(self).zoom == old(self).zoom,
            final(self).image_ready == old(self).image_ready,
            old(self).drag_anchor is None ==> *final(self) == *old(self),
            old(self).drag_anchor matches Some((ax, ay)) ==> {
                &&& final(self).drag_anchor == Some((x, y))
                &&& final(self).pan.0@ == spec_constrain_axis(
                    dims.border_x@,
                    rat_add_int(old(self).pan.0@, ax - x),
                    spec_offset_x(*dims, old(self).zoom@),
                )
                &&& final(self).pan.1@ == spec_constrain_axis(
                    dims.border_y@,
                    rat_add_int(old(self).pan.1@, ay - y),
                    spec_offset_y(*dims, old(self).zoom@),
                )
                &&& spec_constrain_axis(
                    dims.border_x@,
                    final(self).pan.0@,
                    spec_offset_x(*dims, final(self).zoom@),
                ) == final(self).pan.0@
                &&& spec_constrain_axis(
                    dims.border_y@,
                    final(self).pan.1@,
                    spec_offset_y(*dims, final(self).zoom@),
                ) == final(self).pan.1@
            },
    {
        let anchor = self.drag_anchor;
        match anchor {
            None => {},
            Some((ax, ay)) => {
                let c = center_image(dims, &self.zoom);
                let dx: i64 = ax as i64 - x as i64;
                let dy: i64 = ay as i64 - y as i64;
                proof {
                    lemma_mag_mul(dx as int, self.pan.0.den as int, 8192, 0x4000_0000);
                    lemma_mag_mul(dy as int, self.pan.1.den as int, 8192, 0x4000_0000);
                    lemma_val_add_int(self.pan.0@, dx as int, 0x2000_0000, 8192);
                    lemma_val_add_int(self.pan.1@, dy as int, 0x2000_0000, 8192);
                }
                let cand_x = self.pan.0.plus_int(dx);
                let cand_y = self.pan.1.plus_int(dy);
                proof {
                    assert(rat_val_bounded(cand_x@, 0x2000_2000));
                    assert(rat_val_bounded(cand_y@, 0x2000_2000));
                    assert(wf_pan_cand(cand_x));
                    assert(wf_pan_cand(cand_y));
                }
                let p = constrain_position(dims, (cand_x, cand_y), c.offset);
                proof {
                    lemma_constrain_idempotent(
                        dims.border_x@,
                        cand_x@,
                        spec_offset_x(*dims, self.zoom@),
                    );
                    lemma_constrain_idempotent(
                        dims.border_y@,
                        cand_y@,
                        spec_offset_y(*dims, self.zoom@),
                    );
                }
                self.pan = p;
                self.drag_anchor = Some((x, y));
            },
        }
    }

    /// A new zoom arrives: re-clamp the pan against the window of the new
    /// zoom's offset, then adopt the zoom. Clamping against the new bounds
    /// keeps the aperture inside the image when zooming out.
    pub fn zoom_changed(&mut self, dims: &Dimensions, new_zoom: &Frac)
        requires
            old(self).wf(),
            dims.wf(),
            wf_zoom(*new_zoom),
        ensures
            final(self).wf(),
            final(self).zoom == *new_zoom,
            final(self).drag_anchor == old(self).drag_anchor,
            final(self).image_ready == old(self).image_ready,
            final(self).pan.0@ == spec_constrain_axis(
                dims.border_x@,
                old(self).pan.0@,
                spec_offset_x(*dims, new_zoom@),
            ),
            final(self).pan.1@ == spec_constrain_axis(
                dims.border_y@,
                old(self).pan.1@,
                spec_offset_y(*dims, new_zoom@),
            ),
            spec_constrain_axis(
                dims.border_x@,
                final(self).pan.0@,
                spec_offset_x(*dims, new_zoom@),
            ) == final(self).pan.0@,
            spec_constrain_axis(
                dims.border_y@,
                final(self).pan.1@,
                spec_offset_y(*dims, new_zoom@),
            ) == final(self).pan.1@,
    {
        let c = center_image(dims, new_zoom);
        proof {
            lemma_pan_is_cand(self.pan.0);
            lemma_pan_is_cand(self.pan.1);
        }
        let p = constrain_position(dims, self.pan, c.offset);
        proof {
            lemma_constrain_idempotent(
                dims.border_x@,
                self.pan.0@,
                spec_offset_x(*dims, new_zoom@),
            );
            lemma_constrain_idempotent(
                dims.border_y@,
                self.pan.1@,
                spec_offset_y(*dims, new_zoom@),
            );
        }
        self.pan = p;
        self.zoom = *new_zoom;
    }

    /// Commit: the crop rectangle for the current state, in image-pixel
    /// space. Valid once the image is ready; it always succeeds.
    pub fn commit(&self, dims: &Dimensions) -> (r: CropRegion)
        requires
            self.wf(),
            dims.wf(),
            self.image_ready,
        ensures
            r.origin.0@ == spec_crop_x(
                *dims,
                self.pan.0@,
                spec_scale(*dims, self.zoom@),
                self.zoom@,
            ),
            r.origin.1@ == spec_crop_y(
                *dims,
                self.pan.1@,
                spec_scale(*dims, self.zoom@),
                self.zoom@,
            ),
            r.size.0@ == spec_crop_w(*dims, self.zoom@),
            r.size.1@ == spec_crop_h(*dims, self.zoom@),
            r.size.0@ == rat_mul(dims.ratio@, r.size.1@),
            rat_lt(rat_int(0), r.size.0@),
            rat_lt(rat_int(0), r.size.1@),
    {
        let c = center_image(dims, &self.zoom);
        bounding_box(dims, self.pan, &c.scale, &self.zoom)
    }

    /// The numbers for one frame, or `None` while the image has not loaded:
    /// state transitions keep running, drawing is deferred.
    pub fn draw_plan(&self, dims: &Dimensions, radius: u32) -> (r: Option<DrawPlan>)
        requires
            self.wf(),
            dims.wf(),
        ensures
            r is Some <==> self.image_ready,
            r matches Some(p) ==> {
                &&& p.src_x@ == rat_div(self.pan.0@, spec_scale(*dims, self.zoom@))
                &&& p.src_y@ == rat_div(self.pan.1@, spec_scale(*dims, self.zoom@))
                &&& p.src_w == dims.image_w
                &&& p.src_h == dims.image_h
                &&& p.dest_x@ == spec_offset_x(*dims, self.zoom@)
                &&& p.dest_y@ == spec_offset_y(*dims, self.zoom@)
                &&& p.dest_w@ == spec_display_w(*dims, self.zoom@)
                &&& p.dest_h@ == spec_display_h(*dims, self.zoom@)
                &&& p.aperture_x@ == dims.border_x@
                &&& p.aperture_y@ == dims.border_y@
                &&& p.aperture_w@ == spec_limit_w(*dims)
                &&& p.aperture_h@ == spec_limit_h(*dims)
                &&& p.radius == radius
            },
    {
        if !self.image_ready {
            None
        } else {
            let c = center_image(dims, &self.zoom);
            proof {
                lemma_mag_mul(
                    self.pan.0.num as int,
                    c.scale.den as int,
                    0x800_0000_0000_0000,
                    0x100_0000,
                );
                lemma_mag_mul(
                    self.pan.1.num as int,
                    c.scale.den as int,
                    0x800_0000_0000_0000,
                    0x100_0000,
                );
                lemma_pos_mul_bound(self.pan.0.den as int, c.scale.num as int, 0x4000_0000, 0x1000_0000);
                lemma_pos_mul_bound(self.pan.1.den as int, c.scale.num as int, 0x4000_0000, 0x1000_0000);
            }
            let src_x = self.pan.0.divided_by(&c.scale);
            let src_y = self.pan.1.divided_by(&c.scale);
            let aperture_w = axis_limit(dims.canvas_w, &dims.border_x);
            let aperture_h = axis_limit(dims.canvas_h, &dims.border_y);
            Some(
                DrawPlan {
                    src_x,
                    src_y,
                    src_w: dims.image_w,
                    src_h: dims.image_h,
                    dest_x: c.offset.0,
                    dest_y: c.offset.1,
                    dest_w: c.dims.0,
                    dest_h: c.dims.1,
                    aperture_x: dims.border_x,
                    aperture_y: dims.border_y,
                    aperture_w,
                    aperture_h,
                    radius,
                },
            )
        }
    }
}

} // verus!
