use cropper::controller::ViewState;
use cropper::dims::Dimensions;
use cropper::rat::Frac;

fn val_eq(f: &Frac, n: i128, d: i128) -> bool {
    f.num * d == n * f.den
}

#[test]
fn initial_state() {
    let s = ViewState::new();
    assert!(val_eq(&s.zoom, 1, 1));
    assert!(val_eq(&s.pan.0, 0, 1));
    assert!(val_eq(&s.pan.1, 0, 1));
    assert!(s.drag_anchor.is_none());
    assert!(!s.image_ready);
}

#[test]
fn resolve_rejects_degenerate_sizes() {
    assert!(Dimensions::resolve(0, 600, 400, 300).is_none());
    assert!(Dimensions::resolve(800, 0, 400, 300).is_none());
    assert!(Dimensions::resolve(800, 600, 0, 300).is_none());
    assert!(Dimensions::resolve(800, 600, 400, 0).is_none());
    assert!(Dimensions::resolve(5000, 600, 400, 300).is_none());
    assert!(Dimensions::resolve(800, 600, 400, 300).is_some());
}

#[test]
fn resolve_derives_border_and_ratio() {
    let d = Dimensions::resolve(800, 600, 400, 300).unwrap();
    // border = canvas / 20, ratio = canvas aspect ratio.
    assert!(val_eq(&d.border_x, 20, 1));
    assert!(val_eq(&d.border_y, 15, 1));
    assert!(val_eq(&d.ratio, 4, 3));
}

#[test]
fn move_without_drag_changes_nothing() {
    let d = Dimensions::resolve(800, 600, 400, 300).unwrap();
    let mut s = ViewState::new();
    s.pointer_move(&d, 50, 50);
    assert!(s.drag_anchor.is_none());
    assert!(val_eq(&s.pan.0, 0, 1));
    assert!(val_eq(&s.pan.1, 0, 1));
}

#[test]
fn drag_at_zoom_one_is_pinned() {
    // With border = canvas/20 the display exactly covers the aperture at
    // zoom 1, so the pan window is zero and dragging cannot move the image.
    let d = Dimensions::resolve(800, 600, 400, 300).unwrap();
    let mut s = ViewState::new();
    s.pointer_down(100, 100);
    assert_eq!(s.drag_anchor, Some((100, 100)));
    s.pointer_move(&d, 110, 90);
    assert_eq!(s.drag_anchor, Some((110, 90)));
    assert!(val_eq(&s.pan.0, 0, 1));
    assert!(val_eq(&s.pan.1, 0, 1));
    s.pointer_up();
    assert!(s.drag_anchor.is_none());
}

#[test]
fn drag_at_zoom_two_moves_and_clamps() {
    let d = Dimensions::resolve(800, 600, 400, 300).unwrap();
    let mut s = ViewState::new();
    s.zoom_changed(&d, &Frac::new(2, 1));
    assert!(val_eq(&s.zoom, 2, 1));

    // scale = max(360/800, 270/600) * 2 = 0.9; display = (720, 540);
    // offset = (-160, -120); window = (20+160, 15+120) = (180, 135).
    s.pointer_down(0, 0);
    s.pointer_move(&d, -300, 0);
    assert!(val_eq(&s.pan.0, 180, 1)); // 300 clamped to 180
    assert!(val_eq(&s.pan.1, 0, 1));
    s.pointer_move(&d, -300, 200);
    assert!(val_eq(&s.pan.0, 180, 1));
    assert!(val_eq(&s.pan.1, -135, 1)); // -200 clamped to -135
    s.pointer_leave();
    assert!(s.drag_anchor.is_none());
}

#[test]
fn zoom_out_reclamps_pan() {
    let d = Dimensions::resolve(800, 600, 400, 300).unwrap();
    let mut s = ViewState::new();
    s.zoom_changed(&d, &Frac::new(2, 1));
    s.pointer_down(0, 0);
    s.pointer_move(&d, -300, 0);
    s.pointer_up();
    assert!(val_eq(&s.pan.0, 180, 1));
    // Zooming back to 1 shrinks the window to zero: the pan must collapse,
    // otherwise the aperture would show empty canvas.
    s.zoom_changed(&d, &Frac::new(1, 1));
    assert!(val_eq(&s.pan.0, 0, 1));
    assert!(val_eq(&s.pan.1, 0, 1));
}

#[test]
fn draw_deferred_until_image_ready() {
    let d = Dimensions::resolve(800, 600, 400, 300).unwrap();
    let mut s = ViewState::new();
    assert!(s.draw_plan(&d, 30).is_none());
    s.set_image_ready();
    let p = s.draw_plan(&d, 30).unwrap();
    assert_eq!(p.src_w, 800);
    assert_eq!(p.src_h, 600);
    assert_eq!(p.radius, 30);
    // At zoom 1: source origin (0,0); dest = offset (20,15), size (360,270).
    assert!(val_eq(&p.src_x, 0, 1));
    assert!(val_eq(&p.src_y, 0, 1));
    assert!(val_eq(&p.dest_x, 20, 1));
    assert!(val_eq(&p.dest_y, 15, 1));
    assert!(val_eq(&p.dest_w, 360, 1));
    assert!(val_eq(&p.dest_h, 270, 1));
    assert!(val_eq(&p.aperture_x, 20, 1));
    assert!(val_eq(&p.aperture_y, 15, 1));
    assert!(val_eq(&p.aperture_w, 360, 1));
    assert!(val_eq(&p.aperture_h, 270, 1));
}

#[test]
fn commit_after_pan_and_zoom() {
    let d = Dimensions::resolve(800, 600, 400, 300).unwrap();
    let mut s = ViewState::new();
    s.set_image_ready();
    s.zoom_changed(&d, &Frac::new(2, 1));
    s.pointer_down(0, 0);
    s.pointer_move(&d, -300, 0);
    s.pointer_up();

    // scale = 0.9, pan = (180, 0): center = (180/0.9 + 400, 300) = (600, 300);
    // factor = min(600, 800/(4/3)) = 600; size = (400, 300);
    // origin = (600 - 200, 300 - 150) = (400, 150).
    let r = s.commit(&d);
    assert!(val_eq(&r.size.0, 400, 1));
    assert!(val_eq(&r.size.1, 300, 1));
    assert!(val_eq(&r.origin.0, 400, 1));
    assert!(val_eq(&r.origin.1, 150, 1));
}

#[test]
fn events_accepted_before_image_ready() {
    // Before the image loads, state transitions still run; only drawing is
    // suppressed. One draw after loading catches up the latest state.
    let d = Dimensions::resolve(800, 600, 400, 300).unwrap();
    let mut s = ViewState::new();
    s.zoom_changed(&d, &Frac::new(2, 1));
    s.pointer_down(0, 0);
    s.pointer_move(&d, -50, -50);
    s.pointer_up();
    assert!(s.draw_plan(&d, 30).is_none());
    assert!(val_eq(&s.pan.0, 50, 1));
    assert!(val_eq(&s.pan.1, 50, 1));
    s.set_image_ready();
    let p = s.draw_plan(&d, 30).unwrap();
    // source origin = pan / scale = 50 / 0.9 = 500/9.
    assert!(val_eq(&p.src_x, 500, 9));
    assert!(val_eq(&p.src_y, 500, 9));
}
