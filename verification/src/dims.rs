//! Layout constants derived from the current image and canvas sizes.
//!
//! The aperture border is a twentieth of the canvas on each axis, and the
//! output ratio is the canvas aspect ratio. Callers with other apertures can
//! build the struct directly, as long as `wf` holds: the side bounds are
//! machine limits that keep the whole geometry pipeline inside `i128`.

use vstd::prelude::*;

use crate::rat::Frac;

verus! {

/// Largest accepted image or canvas side, in pixels.
pub open spec fn max_side() -> int {
    4096
}

/// Pure layout inputs for the geometry engine.
#[derive(Clone, Copy, Debug)]
pub struct Dimensions {
    /// Natural pixel size of the source image.
    pub image_w: u32,
    pub image_h: u32,
    /// Pixel size of the drawing surface.
    pub canvas_w: u32,
    pub canvas_h: u32,
    /// Inset of the visible aperture from the canvas edge, per axis.
    pub border_x: Frac,
    pub border_y: Frac,
    /// Aspect ratio (width over height) of the committed crop.
    pub ratio: Frac,
}

impl Dimensions {
    /// Non-degenerate sizes, an aperture of positive area, and representation
    /// bounds small enough that no downstream computation overflows `i128`.
    pub open spec fn wf(self) -> bool {
        &&& 0 < self.image_w <= max_side()
        &&& 0 < self.image_h <= max_side()
        &&& 0 < self.canvas_w <= max_side()
        &&& 0 < self.canvas_h <= max_side()
        &&& self.border_x.wf()
        &&& self.border_y.wf()
        &&& self.border_x.den <= 32
        &&& self.border_y.den <= 32
        &&& 0 <= self.border_x.num
        &&& 0 <= self.border_y.num
        &&& 2 * self.border_x.num < self.canvas_w * self.border_x.den
        &&& 2 * self.border_y.num < self.canvas_h * self.border_y.den
        &&& self.ratio.wf()
        &&& 0 < self.ratio.num <= max_side()
        &&& self.ratio.den <= max_side()
    }

    /// The `Dimensions` that `new` and `resolve` derive from raw pixel sizes.
    pub open spec fn spec_resolve(image_w: u32, image_h: u32, canvas_w: u32, canvas_h: u32) -> Dimensions {
        Dimensions {
            image_w,
            image_h,
            canvas_w,
            canvas_h,
            border_x: Frac { num: canvas_w as i128, den: 20 },
            border_y: Frac { num: canvas_h as i128, den: 20 },
            ratio: Frac { num: canvas_w as i128, den: canvas_h as i128 },
        }
    }

    /// Derives the border (a twentieth of the canvas per axis) and the output
    /// ratio (the canvas aspect ratio) from non-degenerate pixel sizes.
    pub fn new(image_w: u32, image_h: u32, canvas_w: u32, canvas_h: u32) -> (r: Dimensions)
        requires
            0 < image_w <= max_side(),
            0 < image_h <= max_side(),
            0 < canvas_w <= max_side(),
            0 < canvas_h <= max_side(),
        ensures
            r == Dimensions::spec_resolve(image_w, image_h, canvas_w, canvas_h),
            r.wf(),
    {
        Dimensions {
            image_w,
            image_h,
            canvas_w,
            canvas_h,
            border_x: Frac::new(canvas_w as i128, 20),
            border_y: Frac::new(canvas_h as i128, 20),
            ratio: Frac::new(canvas_w as i128, canvas_h as i128),
        }
    }

    /// Guarded form of `new`: rejects degenerate or oversized inputs instead
    /// of requiring them away, so event handlers can short-circuit a frame.
    pub fn resolve(image_w: u32, image_h: u32, canvas_w: u32, canvas_h: u32) -> (r: Option<
        Dimensions,
    >)
        ensures
            r is Some <==> {
                &&& 0 < image_w <= max_side()
                &&& 0 < image_h <= max_side()
                &&& 0 < canvas_w <= max_side()
                &&& 0 < canvas_h <= max_side()
            },
            r matches Some(d) ==> d == Dimensions::spec_resolve(image_w, image_h, canvas_w, canvas_h)
                && d.wf(),
    {
        if image_w == 0 || image_w > 4096 || image_h == 0 || image_h > 4096 || canvas_w == 0
            || canvas_w > 4096 || canvas_h == 0 || canvas_h > 4096 {
            None
        } else {
            Some(Dimensions::new(image_w, image_h, canvas_w, canvas_h))
        }
    }
}

} // verus!
