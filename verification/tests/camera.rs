use quadview::camera::Camera;
use quadview::camera::CameraController;
use quadview::camera::Key;
use quadview::frac::Frac;

fn controller(speed_num: i64, speed_den: i64) -> CameraController {
    CameraController::new(Frac::new(speed_num, speed_den))
}

#[test]
fn frac_plus_exact() {
    let a = Frac::new(1, 2);
    let b = Frac::new(1, 3);
    let r = a.plus(b);
    assert_eq!(r.num, 5);
    assert_eq!(r.den, 6);
}

#[test]
fn frac_minus_exact() {
    let a = Frac::new(1, 2);
    let b = Frac::new(1, 3);
    let r = a.minus(b);
    assert_eq!(r.num, 1);
    assert_eq!(r.den, 6);
}

#[test]
fn frac_div_exact() {
    let a = Frac::new(1, 10);
    let b = Frac::new(11, 10);
    let r = a.div_by(b);
    assert_eq!(r.num, 10);
    assert_eq!(r.den, 110);
}

#[test]
fn frac_div_negative_divisor_keeps_positive_den() {
    let a = Frac::new(1, 10);
    let b = Frac::new(-2, 1);
    let r = a.div_by(b);
    assert_eq!(r.num, -1);
    assert_eq!(r.den, 20);
}

#[test]
fn frac_try_div_by_zero_is_none() {
    let a = Frac::new(1, 10);
    let zero = Frac::new(0, 1);
    assert!(a.try_div(zero).is_none());
}

#[test]
fn frac_try_plus_overflow_is_none() {
    let a = Frac::new(i64::MAX, 1);
    let b = Frac::new(1, 1);
    assert!(a.try_plus(b).is_none());
}

#[test]
fn frac_try_plus_in_range_is_exact() {
    let a = Frac::new(2, 5);
    let b = Frac::new(3, 7);
    let r = a.try_plus(b).unwrap();
    assert_eq!(r.num, 29);
    assert_eq!(r.den, 35);
}

#[test]
fn zoom_in_one_apply() {
    // scale=1, x=0, y=0, speed=0.1; latch zoom-in only; one apply
    // leaves scale at 1.1 and the offsets untouched.
    let mut cam = Camera::default();
    let mut ctl = controller(1, 10);
    assert!(ctl.handle_key(Key::KeyQ, true));
    assert!(ctl.update_allowed(&cam));
    ctl.update_camera(&mut cam);
    assert_eq!(cam.scale, Frac::new(11, 10));
    assert_eq!(cam.x, Frac::new(0, 1));
    assert_eq!(cam.y, Frac::new(0, 1));
}

#[test]
fn zoom_in_three_applies_accumulate() {
    // scale after n applies equals initial_scale + n*speed: 1 + 3*0.1 = 1.3.
    let mut cam = Camera::default();
    let mut ctl = controller(1, 10);
    ctl.handle_key(Key::KeyQ, true);
    for _ in 0..3 {
        assert!(ctl.update_allowed(&cam));
        ctl.update_camera(&mut cam);
    }
    assert_eq!(cam.scale.num, 1300);
    assert_eq!(cam.scale.den, 1000);
    // 1300/1000 == 13/10 == 1.3 exactly.
    assert_eq!(cam.scale.num * 10, 13 * cam.scale.den);
}

#[test]
fn forward_one_apply() {
    let mut cam = Camera::default();
    let mut ctl = controller(1, 10);
    assert!(ctl.handle_key(Key::KeyW, true));
    ctl.update_camera(&mut cam);
    assert_eq!(cam.y, Frac::new(-1, 10));
    assert_eq!(cam.x, Frac::new(0, 1));
    assert_eq!(cam.scale, Frac::new(1, 1));
}

#[test]
fn forward_three_applies_with_fixed_scale() {
    // y after n applies equals initial_y - n*speed/scale: 0 - 3*(0.1/2) = -0.15.
    let mut cam = Camera::default();
    cam.scale = Frac::new(2, 1);
    let mut ctl = controller(1, 10);
    ctl.handle_key(Key::ArrowUp, true);
    for _ in 0..3 {
        assert!(ctl.update_allowed(&cam));
        ctl.update_camera(&mut cam);
    }
    // -1200/8000 == -3/20 == -0.15 exactly; the scale never moved.
    assert_eq!(cam.y.num, -1200);
    assert_eq!(cam.y.den, 8000);
    assert_eq!(cam.y.num * 20, -3 * cam.y.den);
    assert_eq!(cam.scale, Frac::new(2, 1));
    assert_eq!(cam.x, Frac::new(0, 1));
}

#[test]
fn backward_left_right_effects() {
    let mut cam = Camera::default();
    let mut ctl = controller(1, 10);
    assert!(ctl.handle_key(Key::KeyS, true));
    assert!(ctl.handle_key(Key::KeyA, true));
    ctl.update_camera(&mut cam);
    assert_eq!(cam.y, Frac::new(1, 10));
    assert_eq!(cam.x, Frac::new(1, 10));

    let mut cam2 = Camera::default();
    let mut ctl2 = controller(1, 10);
    assert!(ctl2.handle_key(Key::ArrowRight, true));
    assert!(ctl2.handle_key(Key::ArrowDown, true));
    ctl2.update_camera(&mut cam2);
    assert_eq!(cam2.x, Frac::new(-1, 10));
    assert_eq!(cam2.y, Frac::new(1, 10));
}

#[test]
fn opposite_latches_cancel_by_addition() {
    let mut cam = Camera::default();
    let mut ctl = controller(1, 10);
    ctl.handle_key(Key::KeyW, true);
    ctl.handle_key(Key::KeyS, true);
    ctl.update_camera(&mut cam);
    // Both pan updates ran; the exact value is back at zero.
    assert_eq!(cam.y.num, 0);
    assert_eq!(cam.y.den, 100);
}

#[test]
fn zoom_dependent_pan_speed() {
    // At scale 1/2, a pan of speed 0.1 moves by 0.1/(1/2) = 0.2.
    let mut cam = Camera::default();
    cam.scale = Frac::new(1, 2);
    let mut ctl = controller(1, 10);
    ctl.handle_key(Key::KeyA, true);
    ctl.update_camera(&mut cam);
    assert_eq!(cam.x.num * 5, cam.x.den);
}

#[test]
fn unrecognized_keys_are_not_handled() {
    // An unrecognized key returns false and leaves every latch unchanged.
    let mut ctl = controller(1, 10);
    ctl.handle_key(Key::KeyW, true);
    let before = ctl;
    assert!(!ctl.handle_key(Key::Digit(7), true));
    assert!(!ctl.handle_key(Key::Space, false));
    assert!(!ctl.handle_key(Key::KeyR, false));
    assert!(!ctl.handle_key(Key::Escape, true));
    assert!(!ctl.handle_key(Key::Other, true));
    assert_eq!(ctl, before);
}

#[test]
fn every_bound_key_is_handled() {
    let mut ctl = controller(1, 10);
    for key in [
        Key::KeyW,
        Key::KeyA,
        Key::KeyS,
        Key::KeyD,
        Key::ArrowUp,
        Key::ArrowDown,
        Key::ArrowLeft,
        Key::ArrowRight,
        Key::KeyQ,
        Key::KeyE,
    ] {
        assert!(ctl.handle_key(key, true));
    }
    assert!(ctl.is_forward_pressed);
    assert!(ctl.is_backward_pressed);
    assert!(ctl.is_left_pressed);
    assert!(ctl.is_right_pressed);
    assert!(ctl.is_zoom_in);
    assert!(ctl.is_zoom_out);
}

#[test]
fn last_event_wins_per_action() {
    // The letter key and the arrow key drive the same latch; the most recent
    // event decides, and events for other actions do not interfere.
    let mut ctl = controller(1, 10);
    assert!(ctl.handle_key(Key::KeyW, true));
    assert!(ctl.handle_key(Key::KeyQ, true));
    assert!(ctl.handle_key(Key::ArrowUp, false));
    assert!(!ctl.is_forward_pressed);
    assert!(ctl.is_zoom_in);
}

#[test]
fn release_clears_latch_and_apply_is_noop() {
    let mut cam = Camera::default();
    let mut ctl = controller(1, 10);
    ctl.handle_key(Key::KeyW, true);
    ctl.handle_key(Key::KeyW, false);
    assert!(ctl.update_allowed(&cam));
    ctl.update_camera(&mut cam);
    assert_eq!(cam, Camera::default());
}

#[test]
fn update_not_allowed_on_zero_scale_pan() {
    let mut cam = Camera::default();
    cam.scale = Frac::new(0, 1);
    let mut ctl = controller(1, 10);
    ctl.handle_key(Key::KeyW, true);
    assert!(!ctl.update_allowed(&cam));
}

#[test]
fn update_allowed_on_zero_scale_zoom_only() {
    // Zooming does not divide by the scale, so a zero scale is fine.
    let mut cam = Camera::default();
    cam.scale = Frac::new(0, 1);
    let mut ctl = controller(1, 10);
    ctl.handle_key(Key::KeyQ, true);
    assert!(ctl.update_allowed(&cam));
    ctl.update_camera(&mut cam);
    assert_eq!(cam.scale, Frac::new(1, 10));
}

#[test]
fn update_not_allowed_when_result_overflows() {
    let mut cam = Camera::default();
    cam.scale = Frac::new(i64::MAX, 1);
    let mut ctl = controller(1, 1);
    ctl.handle_key(Key::KeyQ, true);
    assert!(!ctl.update_allowed(&cam));
}

#[test]
fn negative_scale_inverts_pan_direction() {
    // The scale is never clamped; a negative scale flips the pan sign.
    let mut cam = Camera::default();
    cam.scale = Frac::new(-1, 1);
    let mut ctl = controller(1, 10);
    ctl.handle_key(Key::KeyW, true);
    assert!(ctl.update_allowed(&cam));
    ctl.update_camera(&mut cam);
    assert_eq!(cam.y.num, 1);
    assert_eq!(cam.y.den, 10);
}
