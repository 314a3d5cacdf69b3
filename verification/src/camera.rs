//! The 2D camera/viewport controller.
//!
//! A `Camera` is an affine view state (zoom scale plus x/y offset) held as
//! exact rationals. A `CameraController` owns six latched key flags, one per
//! bound action; key events set the latches, and once per frame the latches
//! are turned into an exact state delta on the camera.

use vstd::prelude::*;

use crate::frac::Frac;
use crate::frac::FracModel;
use crate::frac::frac_add;
use crate::frac::frac_add_iter;
use crate::frac::frac_add_scaled;
use crate::frac::frac_div;
use crate::frac::frac_eq;
use crate::frac::frac_in_range;
use crate::frac::frac_neg;
use crate::frac::frac_sub;
use crate::frac::frac_sub_scaled;
use crate::frac::frac_wf;
use crate::frac::lemma_div_wf;
use crate::frac::lemma_frac_add_iter_value;
use crate::frac::lemma_sub_is_add_neg;
use crate::frac::lemma_sub_scaled_is_add_neg_scaled;

verus! {

/// The physical keys the frame loop routes; anything it does not know about
/// arrives as `Digit` or `Other`.
#[derive(Clone, Copy, Debug, PartialEq, Eq, Structural)]
pub enum Key {
    KeyW,
    KeyA,
    KeyS,
    KeyD,
    ArrowUp,
    ArrowDown,
    ArrowLeft,
    ArrowRight,
    KeyQ,
    KeyE,
    Space,
    KeyR,
    Escape,
    Digit(u8),
    Other,
}

/// The six logical camera actions a key can be bound to.
#[derive(Clone, Copy, Debug, PartialEq, Eq, Structural)]
pub enum CameraAction {
    Forward,
    Backward,
    Left,
    Right,
    ZoomIn,
    ZoomOut,
}

/// The action a key is bound to, if any. Each pan action has a letter key and
/// an arrow key; the zoom actions have one key each.
pub open spec fn key_action(code: Key) -> Option<CameraAction> {
    match code {
        Key::KeyW | Key::ArrowUp => Some(CameraAction::Forward),
        Key::KeyA | Key::ArrowLeft => Some(CameraAction::Left),
        Key::KeyS | Key::ArrowDown => Some(CameraAction::Backward),
        Key::KeyD | Key::ArrowRight => Some(CameraAction::Right),
        Key::KeyQ => Some(CameraAction::ZoomIn),
        Key::KeyE => Some(CameraAction::ZoomOut),
        _ => None,
    }
}

/// The 2D view state the shader consumes: zoom factor and translation.
#[derive(Clone, Copy, Debug, PartialEq, Eq, Structural)]
pub struct Camera {
    pub scale: Frac,
    pub x: Frac,
    pub y: Frac,
}

/// The mathematical image of a `Camera`: three unbounded fractions.
pub ghost struct CameraModel {
    pub scale: FracModel,
    pub x: FracModel,
    pub y: FracModel,
}

impl View for Camera {
    type V = CameraModel;

    open spec fn view(&self) -> CameraModel {
        CameraModel { scale: self.scale@, x: self.x@, y: self.y@ }
    }
}

impl Camera {
    /// All three components keep positive denominators.
    pub open spec fn wf(self) -> bool {
        &&& self.scale.wf()
        &&& self.x.wf()
        &&& self.y.wf()
    }
}

impl Default for Camera {
    /// The startup view: scale 1, centered at the origin.
    fn default() -> (c: Camera)
        ensures
            c.scale.num == 1 && c.scale.den == 1,
            c.x.num == 0 && c.x.den == 1,
            c.y.num == 0 && c.y.den == 1,
            c.wf(),
    {
        Camera { scale: Frac::from_int(1), x: Frac::from_int(0), y: Frac::from_int(0) }
    }
}

/// Latched key state plus the configured pan/zoom speed.
///
/// A latch is true iff the most recent event for its bound action was a
/// press-down; holding a key keeps applying the effect every frame.
#[derive(Clone, Copy, Debug, PartialEq, Eq, Structural)]
pub struct CameraController {
    pub speed: Frac,
    pub is_forward_pressed: bool,
    pub is_backward_pressed: bool,
    pub is_left_pressed: bool,
    pub is_right_pressed: bool,
    pub is_zoom_in: bool,
    pub is_zoom_out: bool,
}

/// The latch a controller holds for one action.
pub open spec fn latch_of(c: CameraController, action: CameraAction) -> bool {
    match action {
        CameraAction::Forward => c.is_forward_pressed,
        CameraAction::Backward => c.is_backward_pressed,
        CameraAction::Left => c.is_left_pressed,
        CameraAction::Right => c.is_right_pressed,
        CameraAction::ZoomIn => c.is_zoom_in,
        CameraAction::ZoomOut => c.is_zoom_out,
    }
}

/// The controller after one key event: the latch of the bound action takes the
/// press state; an unbound key changes nothing.
pub open spec fn controller_after_key(c: CameraController, code: Key, is_pressed: bool)
    -> CameraController {
    match key_action(code) {
        Some(CameraAction::Forward) => CameraController { is_forward_pressed: is_pressed, ..c },
        Some(CameraAction::Backward) => CameraController { is_backward_pressed: is_pressed, ..c },
        Some(CameraAction::Left) => CameraController { is_left_pressed: is_pressed, ..c },
        Some(CameraAction::Right) => CameraController { is_right_pressed: is_pressed, ..c },
        Some(CameraAction::ZoomIn) => CameraController { is_zoom_in: is_pressed, ..c },
        Some(CameraAction::ZoomOut) => CameraController { is_zoom_out: is_pressed, ..c },
        None => c,
    }
}

/// The exact camera one frame step produces: each latched pan moves the offset
/// by `speed / scale` (at the scale the frame started with), then each latched
/// zoom moves the scale by `speed`. Opposite latches cancel by addition.
pub open spec fn camera_step(cam: CameraModel, ctl: CameraController) -> CameraModel {
    let d = frac_div(ctl.speed@, cam.scale);
    let y1 = if ctl.is_forward_pressed { frac_sub(cam.y, d) } else { cam.y };
    let y2 = if ctl.is_backward_pressed { frac_add(y1, d) } else { y1 };
    let x1 = if ctl.is_left_pressed { frac_add(cam.x, d) } else { cam.x };
    let x2 = if ctl.is_right_pressed { frac_sub(x1, d) } else { x1 };
    let s1 = if ctl.is_zoom_in { frac_add(cam.scale, ctl.speed@) } else { cam.scale };
    let s2 = if ctl.is_zoom_out { frac_sub(s1, ctl.speed@) } else { s1 };
    CameraModel { scale: s2, x: x2, y: y2 }
}

/// Machine-size side conditions for one frame step: a latched pan needs a
/// nonzero scale to divide by, and every update that actually runs must yield
/// numerators and denominators that fit back into a `Frac`.
pub open spec fn camera_step_ok(cam: CameraModel, ctl: CameraController) -> bool {
    let pan = ctl.is_forward_pressed || ctl.is_backward_pressed || ctl.is_left_pressed
        || ctl.is_right_pressed;
    let d = frac_div(ctl.speed@, cam.scale);
    let y1 = if ctl.is_forward_pressed { frac_sub(cam.y, d) } else { cam.y };
    let y2 = if ctl.is_backward_pressed { frac_add(y1, d) } else { y1 };
    let x1 = if ctl.is_left_pressed { frac_add(cam.x, d) } else { cam.x };
    let x2 = if ctl.is_right_pressed { frac_sub(x1, d) } else { x1 };
    let s1 = if ctl.is_zoom_in { frac_add(cam.scale, ctl.speed@) } else { cam.scale };
    let s2 = if ctl.is_zoom_out { frac_sub(s1, ctl.speed@) } else { s1 };
    &&& pan ==> cam.scale.num != 0 && frac_in_range(d)
    &&& ctl.is_forward_pressed ==> frac_in_range(y1)
    &&& ctl.is_backward_pressed ==> frac_in_range(y2)
    &&& ctl.is_left_pressed ==> frac_in_range(x1)
    &&& ctl.is_right_pressed ==> frac_in_range(x2)
    &&& ctl.is_zoom_in ==> frac_in_range(s1)
    &&& ctl.is_zoom_out ==> frac_in_range(s2)
}

impl CameraController {
    /// The configured speed keeps a positive denominator.
    pub open spec fn wf(self) -> bool {
        self.speed.wf()
    }

    /// A fresh controller: all six latches start unset.
    pub fn new(speed: Frac) -> (r: CameraController)
        ensures
            r == (CameraController {
                speed,
                is_forward_pressed: false,
                is_backward_pressed: false,
                is_left_pressed: false,
                is_right_pressed: false,
                is_zoom_in: false,
                is_zoom_out: false,
            }),
    {
        CameraController {
            speed,
            is_forward_pressed: false,
            is_backward_pressed: false,
            is_left_pressed: false,
            is_right_pressed: false,
            is_zoom_in: false,
            is_zoom_out: false,
        }
    }

    /// Routes one key event. A recognized key sets its latch to the press
    /// state and is reported handled; an unrecognized key is reported
    /// unhandled and changes nothing, so the caller may pass it on.
    pub fn handle_key(&mut self, code: Key, is_pressed: bool) -> (handled: bool)
        ensures
            *final(self) == controller_after_key(*old(self), code, is_pressed),
            handled == key_action(code) is Some,
            key_action(code) is None ==> !handled && *final(self) == *old(self),
    {
        match code {
            Key::KeyW | Key::ArrowUp => {
                self.is_forward_pressed = is_pressed;
                true
            },
            Key::KeyA | Key::ArrowLeft => {
                self.is_left_pressed = is_pressed;
                true
            },
            Key::KeyS | Key::ArrowDown => {
                self.is_backward_pressed = is_pressed;
                true
            },
            Key::KeyD | Key::ArrowRight => {
                self.is_right_pressed = is_pressed;
                true
            },
            Key::KeyQ => {
                self.is_zoom_in = is_pressed;
                true
            },
            Key::KeyE => {
                self.is_zoom_out = is_pressed;
                true
            },
            _ => false,
        }
    }

    /// Applies the latched actions to the camera, exactly as `camera_step`
    /// states. Called once per frame; with no latch set it is a no-op.
    pub fn update_camera(&self, camera: &mut Camera)
        requires
            self.wf(),
            old(camera).wf(),
            camera_step_ok(old(camera)@, *self),
        ensures
            final(camera)@ == camera_step(old(camera)@, *self),
            final(camera).wf(),
    {
        if self.is_forward_pressed {
            let d = self.speed.div_by(camera.scale);
            camera.y = camera.y.minus(d);
        }
        if self.is_backward_pressed {
            let d = self.speed.div_by(camera.scale);
            camera.y = camera.y.plus(d);
        }
        if self.is_left_pressed {
            let d = self.speed.div_by(camera.scale);
            camera.x = camera.x.plus(d);
        }
        if self.is_right_pressed {
            let d = self.speed.div_by(camera.scale);
            camera.x = camera.x.minus(d);
        }
        if self.is_zoom_in {
            camera.scale = camera.scale.plus(self.speed);
        }
        if self.is_zoom_out {
            camera.scale = camera.scale.minus(self.speed);
        }
    }

    /// Whether one frame step can run within machine bounds on this camera;
    /// exactly the side condition `update_camera` requires.
    pub fn update_allowed(&self, camera: &Camera) -> (r: bool)
        requires
            self.wf(),
            camera.wf(),
        ensures
            r == camera_step_ok(camera@, *self),
    {
        let pan = self.is_forward_pressed || self.is_backward_pressed || self.is_left_pressed
            || self.is_right_pressed;
        let mut y = camera.y;
        let mut x = camera.x;
        let mut s = camera.scale;
        if pan {
            let d = match self.speed.try_div(camera.scale) {
                Some(d) => d,
                None => {
                    return false;
                },
            };
            if self.is_forward_pressed {
                match y.try_minus(d) {
                    Some(v) => {
                        y = v;
                    },
                    None => {
                        return false;
                    },
                }
            }
            if self.is_backward_pressed {
                match y.try_plus(d) {
                    Some(v) => {
                        y = v;
                    },
                    None => {
                        return false;
                    },
                }
            }
            if self.is_left_pressed {
                match x.try_plus(d) {
                    Some(v) => {
                        x = v;
                    },
                    None => {
                        return false;
                    },
                }
            }
            if self.is_right_pressed {
                match x.try_minus(d) {
                    Some(v) => {
                        x = v;
                    },
                    None => {
                        return false;
                    },
                }
            }
        }
        if self.is_zoom_in {
            match s.try_plus(self.speed) {
                Some(v) => {
                    s = v;
                },
                None => {
                    return false;
                },
            }
        }
        if self.is_zoom_out {
            match s.try_minus(self.speed) {
                Some(v) => {
                    s = v;
                },
                None => {
                    return false;
                },
            }
        }
        true
    }
}

/// The controller after a whole sequence of key events, applied in order.
pub open spec fn controller_after_events(c: CameraController, events: Seq<(Key, bool)>)
    -> CameraController
    decreases events.len(),
{
    if events.len() == 0 {
        c
    } else {
        controller_after_key(
            controller_after_events(c, events.drop_last()),
            events.last().0,
            events.last().1,
        )
    }
}

/// The press state of the most recent event bound to `action`, if any.
pub open spec fn last_event_for(events: Seq<(Key, bool)>, action: CameraAction) -> Option<bool>
    decreases events.len(),
{
    if events.len() == 0 {
        None
    } else if key_action(events.last().0) == Some(action) {
        Some(events.last().1)
    } else {
        last_event_for(events.drop_last(), action)
    }
}

/// Law: latches are last-event-wins, independently per action. After any
/// sequence of key events over the bound actions, each latch equals the press
/// state of the most recent event bound to that action, and keeps its prior
/// value if no event was; events bound to distinct actions do not interfere,
/// and the configured speed never changes.
pub proof fn lemma_latch_is_last_event(
    c: CameraController,
    events: Seq<(Key, bool)>,
    action: CameraAction,
)
    ensures
        latch_of(controller_after_events(c, events), action) == match last_event_for(
            events,
            action,
        ) {
            Some(pressed) => pressed,
            None => latch_of(c, action),
        },
        controller_after_events(c, events).speed == c.speed,
    decreases events.len(),
{
    if events.len() > 0 {
        lemma_latch_is_last_event(c, events.drop_last(), action);
    }
}

/// Law: two key events bound to distinct actions (or to none) commute; only
/// the relative order of events bound to the same action matters.
pub proof fn lemma_distinct_actions_commute(
    c: CameraController,
    first: (Key, bool),
    second: (Key, bool),
)
    requires
        key_action(first.0) != key_action(second.0) || key_action(first.0) is None,
    ensures
        controller_after_key(controller_after_key(c, first.0, first.1), second.0, second.1)
            == controller_after_key(
            controller_after_key(c, second.0, second.1),
            first.0,
            first.1,
        ),
{
}

/// The camera after `n` frame steps under a fixed controller.
pub open spec fn camera_steps(cam: CameraModel, ctl: CameraController, n: nat) -> CameraModel
    decreases n,
{
    if n == 0 {
        cam
    } else {
        camera_step(camera_steps(cam, ctl, (n - 1) as nat), ctl)
    }
}

/// With only zoom-in latched, each step is exactly one addition of the speed
/// to the scale, and the offsets never move.
proof fn lemma_zoom_only_steps_shape(cam: CameraModel, ctl: CameraController, n: nat)
    requires
        ctl.is_zoom_in,
        !ctl.is_zoom_out,
        !ctl.is_forward_pressed,
        !ctl.is_backward_pressed,
        !ctl.is_left_pressed,
        !ctl.is_right_pressed,
    ensures
        camera_steps(cam, ctl, n).x == cam.x,
        camera_steps(cam, ctl, n).y == cam.y,
        camera_steps(cam, ctl, n).scale == frac_add_iter(cam.scale, ctl.speed@, n),
    decreases n,
{
    if n > 0 {
        lemma_zoom_only_steps_shape(cam, ctl, (n - 1) as nat);
    }
}

/// Law: with only zoom-in latched and speed `s`, the scale after `n`
/// consecutive frame steps denotes exactly `initial_scale + n*s`, and the
/// offsets are untouched.
pub proof fn lemma_zoom_in_accumulates(cam: CameraModel, ctl: CameraController, n: nat)
    requires
        frac_wf(cam.scale),
        frac_wf(ctl.speed@),
        ctl.is_zoom_in,
        !ctl.is_zoom_out,
        !ctl.is_forward_pressed,
        !ctl.is_backward_pressed,
        !ctl.is_left_pressed,
        !ctl.is_right_pressed,
    ensures
        camera_steps(cam, ctl, n).x == cam.x,
        camera_steps(cam, ctl, n).y == cam.y,
        frac_wf(camera_steps(cam, ctl, n).scale),
        frac_eq(camera_steps(cam, ctl, n).scale, frac_add_scaled(cam.scale, ctl.speed@, n)),
{
    lemma_zoom_only_steps_shape(cam, ctl, n);
    lemma_frac_add_iter_value(cam.scale, ctl.speed@, n);
}

/// With only forward latched, the scale never moves, so each step subtracts
/// the same delta `speed / scale` from `y`; subtraction is addition of the
/// negated delta.
proof fn lemma_forward_only_steps_shape(cam: CameraModel, ctl: CameraController, n: nat)
    requires
        ctl.is_forward_pressed,
        !ctl.is_backward_pressed,
        !ctl.is_left_pressed,
        !ctl.is_right_pressed,
        !ctl.is_zoom_in,
        !ctl.is_zoom_out,
    ensures
        camera_steps(cam, ctl, n).scale == cam.scale,
        camera_steps(cam, ctl, n).x == cam.x,
        camera_steps(cam, ctl, n).y == frac_add_iter(
            cam.y,
            frac_neg(frac_div(ctl.speed@, cam.scale)),
            n,
        ),
    decreases n,
{
    if n > 0 {
        lemma_forward_only_steps_shape(cam, ctl, (n - 1) as nat);
        lemma_sub_is_add_neg(
            camera_steps(cam, ctl, (n - 1) as nat).y,
            frac_div(ctl.speed@, cam.scale),
        );
    }
}

/// Law: with only forward latched, speed `s` and a nonzero starting scale,
/// `y` after `n` consecutive frame steps denotes exactly
/// `initial_y - n*(s/scale)`, and the scale and `x` are untouched.
pub proof fn lemma_forward_accumulates(cam: CameraModel, ctl: CameraController, n: nat)
    requires
        frac_wf(cam.scale),
        frac_wf(cam.y),
        frac_wf(ctl.speed@),
        cam.scale.num != 0,
        ctl.is_forward_pressed,
        !ctl.is_backward_pressed,
        !ctl.is_left_pressed,
        !ctl.is_right_pressed,
        !ctl.is_zoom_in,
        !ctl.is_zoom_out,
    ensures
        camera_steps(cam, ctl, n).scale == cam.scale,
        camera_steps(cam, ctl, n).x == cam.x,
        frac_wf(camera_steps(cam, ctl, n).y),
        frac_eq(
            camera_steps(cam, ctl, n).y,
            frac_sub_scaled(cam.y, frac_div(ctl.speed@, cam.scale), n),
        ),
{
    let d = frac_div(ctl.speed@, cam.scale);
    lemma_div_wf(ctl.speed@, cam.scale);
    lemma_forward_only_steps_shape(cam, ctl, n);
    lemma_frac_add_iter_value(cam.y, frac_neg(d), n);
    lemma_sub_scaled_is_add_neg_scaled(cam.y, d, n);
}

} // verus!
