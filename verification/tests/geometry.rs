use cropper::dims::Dimensions;
use cropper::geometry::{bounding_box, center_image, constrain_position};
use cropper::rat::Frac;

/// The fraction `f` equals `n / d` as a rational value.
fn val_eq(f: &Frac, n: i128, d: i128) -> bool {
    f.num * d == n * f.den
}

/// The widget layout of the worked examples: an 800x600 image in a 400x300
/// canvas with a 40x30 border and a 4:3 output ratio.
fn example_dims() -> Dimensions {
    Dimensions {
        image_w: 800,
        image_h: 600,
        canvas_w: 400,
        canvas_h: 300,
        border_x: Frac::new(40, 1),
        border_y: Frac::new(30, 1),
        ratio: Frac::new(4, 3),
    }
}

#[test]
fn scenario_zoom_one() {
    let d = example_dims();
    let zoom = Frac::new(1, 1);
    let c = center_image(&d, &zoom);
    // limitW=320, limitH=240, scale = max(320/800, 240/600) = 0.4
    assert!(val_eq(&c.scale, 2, 5));
    // displaySize = (320, 240), displayOffset = (40, 30)
    assert!(val_eq(&c.dims.0, 320, 1));
    assert!(val_eq(&c.dims.1, 240, 1));
    assert!(val_eq(&c.offset.0, 40, 1));
    assert!(val_eq(&c.offset.1, 30, 1));

    // A drag of (10, 10) pixels against a zero-width window is forced to 0.
    let pan = (Frac::new(-10, 1), Frac::new(-10, 1));
    let clamped = constrain_position(&d, pan, c.offset);
    assert!(val_eq(&clamped.0, 0, 1));
    assert!(val_eq(&clamped.1, 0, 1));
}

#[test]
fn scenario_zoom_two() {
    let d = example_dims();
    let zoom = Frac::new(2, 1);
    let c = center_image(&d, &zoom);
    // scale = 0.8, displaySize = (640, 480), displayOffset = (-120, -90)
    assert!(val_eq(&c.scale, 4, 5));
    assert!(val_eq(&c.dims.0, 640, 1));
    assert!(val_eq(&c.dims.1, 480, 1));
    assert!(val_eq(&c.offset.0, -120, 1));
    assert!(val_eq(&c.offset.1, -90, 1));

    // window x = |40 - (-120)| = 160; a pan request of (200, 0) clamps to 160.
    let pan = (Frac::new(200, 1), Frac::new(0, 1));
    let clamped = constrain_position(&d, pan, c.offset);
    assert!(val_eq(&clamped.0, 160, 1));
    assert!(val_eq(&clamped.1, 0, 1));
}

#[test]
fn crop_region_zoom_one_is_full_image() {
    let d = example_dims();
    let zoom = Frac::new(1, 1);
    let c = center_image(&d, &zoom);
    let pan = (Frac::new(0, 1), Frac::new(0, 1));
    let r = bounding_box(&d, pan, &c.scale, &zoom);
    // factor = min(600, 800 / (4/3)) = 600; size = (800, 600); origin (0, 0).
    assert!(val_eq(&r.size.0, 800, 1));
    assert!(val_eq(&r.size.1, 600, 1));
    assert!(val_eq(&r.origin.0, 0, 1));
    assert!(val_eq(&r.origin.1, 0, 1));
}

#[test]
fn crop_region_zoom_two_panned() {
    let d = example_dims();
    let zoom = Frac::new(2, 1);
    let c = center_image(&d, &zoom);
    // The clamped pan of the second scenario.
    let pan = (Frac::new(160, 1), Frac::new(0, 1));
    let r = bounding_box(&d, pan, &c.scale, &zoom);
    // size = (400, 300); center = (160/0.8 + 400, 300) = (600, 300);
    // origin = (600 - 200, 300 - 150) = (400, 150).
    assert!(val_eq(&r.size.0, 400, 1));
    assert!(val_eq(&r.size.1, 300, 1));
    assert!(val_eq(&r.origin.0, 400, 1));
    assert!(val_eq(&r.origin.1, 150, 1));
}

#[test]
fn centering_splits_margin_evenly() {
    let d = example_dims();
    // zoom = 1, 1.5, 2, 2.5
    for zn in 2..6i128 {
        let zoom = Frac::new(zn, 2);
        let c = center_image(&d, &zoom);
        // 2 * offset == canvas - displaySize, exactly, on both axes.
        let twice_x = c.offset.0.times_int(2);
        let margin_x = Frac::new(400, 1).minus(&c.dims.0);
        assert_eq!(twice_x.num * margin_x.den, margin_x.num * twice_x.den);
        let twice_y = c.offset.1.times_int(2);
        let margin_y = Frac::new(300, 1).minus(&c.dims.1);
        assert_eq!(twice_y.num * margin_y.den, margin_y.num * twice_y.den);
    }
}

#[test]
fn cover_invariant_at_zoom_one() {
    // An image whose aspect differs from the aperture: the display still
    // covers the aperture on both axes at zoom 1.
    let d = Dimensions {
        image_w: 1000,
        image_h: 200,
        canvas_w: 400,
        canvas_h: 300,
        border_x: Frac::new(40, 1),
        border_y: Frac::new(30, 1),
        ratio: Frac::new(4, 3),
    };
    let zoom = Frac::new(1, 1);
    let c = center_image(&d, &zoom);
    // limit = (320, 240); scale = max(320/1000, 240/200) = 1.2
    assert!(val_eq(&c.scale, 6, 5));
    // display = (1200, 240) >= (320, 240)
    assert!(val_eq(&c.dims.0, 1200, 1));
    assert!(val_eq(&c.dims.1, 240, 1));
}

#[test]
fn constrain_is_idempotent() {
    let d = example_dims();
    let zoom = Frac::new(3, 2);
    let c = center_image(&d, &zoom);
    let pans = [(500i128, -700i128), (0, 0), (-3, 17), (90, 90)];
    for (px, py) in pans {
        let once = constrain_position(&d, (Frac::new(px, 1), Frac::new(py, 1)), c.offset);
        let twice = constrain_position(&d, once, c.offset);
        assert_eq!(once.0, twice.0);
        assert_eq!(once.1, twice.1);
    }
}

#[test]
fn zero_window_collapses_pan() {
    let d = example_dims();
    let zoom = Frac::new(1, 1);
    let c = center_image(&d, &zoom);
    // At zoom 1 the display exactly covers the aperture: border == offset,
    // so any pan collapses to 0 on both axes.
    assert!(val_eq(&c.offset.0, 40, 1));
    let pan = (Frac::new(12345, 1), Frac::new(-4000, 1));
    let clamped = constrain_position(&d, pan, c.offset);
    assert!(val_eq(&clamped.0, 0, 1));
    assert!(val_eq(&clamped.1, 0, 1));
}

#[test]
fn crop_aspect_matches_ratio() {
    let d = example_dims();
    let pan = (Frac::new(0, 1), Frac::new(0, 1));
    for (zn, zd) in [(1i128, 1i128), (3, 2), (2, 1), (5, 2), (3, 1)] {
        let zoom = Frac::new(zn, zd);
        let c = center_image(&d, &zoom);
        let r = bounding_box(&d, pan, &c.scale, &zoom);
        // size.w / size.h == 4 / 3 exactly: w * 3 == h * 4.
        let lhs = r.size.0.num * 3 * r.size.1.den;
        let rhs = r.size.1.num * 4 * r.size.0.den;
        assert_eq!(lhs, rhs);
    }
}

#[test]
fn zoom_strictly_shrinks_crop() {
    let d = example_dims();
    let pan = (Frac::new(0, 1), Frac::new(0, 1));
    let zooms = [(1i128, 1i128), (5, 4), (3, 2), (2, 1), (3, 1)];
    let mut last_w: Option<Frac> = None;
    let mut last_h: Option<Frac> = None;
    for (zn, zd) in zooms {
        let zoom = Frac::new(zn, zd);
        let c = center_image(&d, &zoom);
        let r = bounding_box(&d, pan, &c.scale, &zoom);
        if let Some(w) = last_w {
            // previous w (at the smaller zoom) is strictly larger
            assert!(r.size.0.num * w.den < w.num * r.size.0.den);
        }
        if let Some(h) = last_h {
            assert!(r.size.1.num * h.den < h.num * r.size.1.den);
        }
        last_w = Some(r.size.0);
        last_h = Some(r.size.1);
    }
}

#[test]
fn portrait_image_crop_limited_by_width() {
    // A tall image: the crop height is limited by width / ratio.
    let d = Dimensions {
        image_w: 300,
        image_h: 900,
        canvas_w: 400,
        canvas_h: 300,
        border_x: Frac::new(40, 1),
        border_y: Frac::new(30, 1),
        ratio: Frac::new(4, 3),
    };
    let zoom = Frac::new(1, 1);
    let c = center_image(&d, &zoom);
    let pan = (Frac::new(0, 1), Frac::new(0, 1));
    let r = bounding_box(&d, pan, &c.scale, &zoom);
    // factor = min(900, 300 / (4/3)) = 225; size = (300, 225).
    assert!(val_eq(&r.size.0, 300, 1));
    assert!(val_eq(&r.size.1, 225, 1));
}
