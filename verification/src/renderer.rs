//! The frame state machine.
//!
//! A `RenderState` cycles through the three render modes on an explicit
//! advance trigger. Each frame the mode selects a draw path, described here as
//! plain data (`GpuCommand`), so the choice of pipelines, binds and draws is
//! verified while an unverified shell merely replays the commands against the
//! graphics API. `FrameMachine` ties the mode, the camera and the controller
//! together and routes the per-frame input decisions.

use vstd::prelude::*;

use crate::camera::Camera;
use crate::camera::CameraController;
use crate::camera::Key;
use crate::camera::camera_step;
use crate::camera::camera_step_ok;
use crate::camera::controller_after_key;
use crate::camera::key_action;
use crate::frac::Frac;

verus! {

/// The render mode of a frame; the advance trigger cycles through the three.
#[derive(Clone, Copy, Debug, PartialEq, Eq, Structural)]
pub enum RenderState {
    Default,
    ColourPass,
    ComplexObject,
}

impl RenderState {
    /// The fixed cyclic successor: Default, ColourPass, ComplexObject, Default.
    pub open spec fn next_spec(self) -> RenderState {
        match self {
            RenderState::Default => RenderState::ColourPass,
            RenderState::ColourPass => RenderState::ComplexObject,
            RenderState::ComplexObject => RenderState::Default,
        }
    }

    /// Advances the mode one step along the cycle.
    pub fn next(&self) -> (r: RenderState)
        ensures
            r == self.next_spec(),
    {
        match self {
            RenderState::Default => RenderState::ColourPass,
            RenderState::ColourPass => RenderState::ComplexObject,
            RenderState::ComplexObject => RenderState::Default,
        }
    }
}

/// Law: advancing three times returns every mode to itself, so the advance map
/// is a total bijection on the three-element cycle.
pub proof fn lemma_next_cycles(m: RenderState)
    ensures
        m.next_spec().next_spec().next_spec() == m,
{
}

/// The pipelines the sandbox owns.
#[derive(Clone, Copy, Debug, PartialEq, Eq, Structural)]
pub enum PipelineKind {
    /// Textured quad consuming the camera uniform.
    Textured,
    /// Procedural triangle with no external resource bindings.
    Procedural,
    /// The cellular-automaton compute pipeline.
    Automaton,
}

/// The bind groups the sandbox owns.
#[derive(Clone, Copy, Debug, PartialEq, Eq, Structural)]
pub enum BindGroupKind {
    /// Texture view, sampler, and the compute storage texture.
    TextureSampler,
    /// The camera uniform buffer.
    CameraUniform,
}

/// One recorded command. A frame's work is a sequence of these; execution
/// order is the sequence order, which is what stands in for explicit
/// synchronization between the compute dispatch, the texture copy and the draw.
#[derive(Clone, Copy, Debug, PartialEq, Eq, Structural)]
pub enum GpuCommand {
    SetBindGroup { slot: u32, group: BindGroupKind },
    SetVertexBuffer,
    SetIndexBuffer,
    SetPipeline { pipeline: PipelineKind },
    DrawIndexed { index_count: u32, instance_count: u32 },
    Draw { vertex_count: u32, instance_count: u32 },
    Dispatch { groups_x: u32, groups_y: u32, groups_z: u32 },
    CopyComputeToPresentation { width: u32, height: u32 },
}

/// The index buffer of the textured quad: two triangles over four corner
/// vertices.
pub open spec fn quad_index_list() -> Seq<u32> {
    seq![0u32, 2u32, 1u32, 3u32, 1u32, 2u32]
}

/// Builds the quad's index buffer; every index addresses one of the four
/// corner vertices.
pub fn quad_indices() -> (r: Vec<u32>)
    ensures
        r@ == quad_index_list(),
        r@.len() == 6,
        forall|i: int| 0 <= i < r@.len() ==> r@[i] < 4,
{
    let mut r: Vec<u32> = Vec::new();
    r.push(0);
    r.push(2);
    r.push(1);
    r.push(3);
    r.push(1);
    r.push(2);
    proof {
        assert(r@ =~= quad_index_list());
    }
    r
}

/// The draw path of a mode.
///
/// Default binds the texture group, the camera group, the shared vertex
/// buffer and the six-entry index buffer, then issues one indexed draw.
/// ColourPass binds only its pipeline and draws three vertices. ComplexObject
/// draws nothing.
pub open spec fn draw_path(mode: RenderState) -> Seq<GpuCommand> {
    match mode {
        RenderState::Default => seq![
            GpuCommand::SetBindGroup { slot: 0u32, group: BindGroupKind::TextureSampler },
            GpuCommand::SetBindGroup { slot: 1u32, group: BindGroupKind::CameraUniform },
            GpuCommand::SetVertexBuffer,
            GpuCommand::SetIndexBuffer,
            GpuCommand::SetPipeline { pipeline: PipelineKind::Textured },
            GpuCommand::DrawIndexed { index_count: 6u32, instance_count: 1u32 },
        ],
        RenderState::ColourPass => seq![
            GpuCommand::SetPipeline { pipeline: PipelineKind::Procedural },
            GpuCommand::Draw { vertex_count: 3u32, instance_count: 1u32 },
        ],
        RenderState::ComplexObject => seq![],
    }
}

/// Records the draw path of `mode`, exactly as `draw_path` states.
pub fn select_draw_path(mode: RenderState) -> (cmds: Vec<GpuCommand>)
    ensures
        cmds@ == draw_path(mode),
{
    let mut cmds: Vec<GpuCommand> = Vec::new();
    match mode {
        RenderState::Default => {
            cmds.push(GpuCommand::SetBindGroup { slot: 0, group: BindGroupKind::TextureSampler });
            cmds.push(GpuCommand::SetBindGroup { slot: 1, group: BindGroupKind::CameraUniform });
            cmds.push(GpuCommand::SetVertexBuffer);
            cmds.push(GpuCommand::SetIndexBuffer);
            cmds.push(GpuCommand::SetPipeline { pipeline: PipelineKind::Textured });
            cmds.push(GpuCommand::DrawIndexed { index_count: 6, instance_count: 1 });
        },
        RenderState::ColourPass => {
            cmds.push(GpuCommand::SetPipeline { pipeline: PipelineKind::Procedural });
            cmds.push(GpuCommand::Draw { vertex_count: 3, instance_count: 1 });
        },
        RenderState::ComplexObject => {},
    }
    proof {
        assert(cmds@ =~= draw_path(mode));
    }
    cmds
}

/// The compute pre-pass over a width × height × 1 workgroup grid: one
/// dispatch into the compute texture, then a full-extent copy into the
/// presentation texture. Both stand in one command sequence, so the dispatch
/// completes before the copy and the copy before any later draw that samples
/// the presentation texture.
pub open spec fn compute_pass(width: u32, height: u32) -> Seq<GpuCommand> {
    seq![
        GpuCommand::SetBindGroup { slot: 0u32, group: BindGroupKind::TextureSampler },
        GpuCommand::SetBindGroup { slot: 1u32, group: BindGroupKind::CameraUniform },
        GpuCommand::SetPipeline { pipeline: PipelineKind::Automaton },
        GpuCommand::Dispatch { groups_x: width, groups_y: height, groups_z: 1u32 },
        GpuCommand::CopyComputeToPresentation { width, height },
    ]
}

/// Records the compute pre-pass, exactly as `compute_pass` states; the
/// dispatch stands strictly before the full-texture copy.
pub fn compute_pass_commands(width: u32, height: u32) -> (cmds: Vec<GpuCommand>)
    ensures
        cmds@ == compute_pass(width, height),
        cmds@[3] is Dispatch,
        cmds@[4] is CopyComputeToPresentation,
{
    let mut cmds: Vec<GpuCommand> = Vec::new();
    cmds.push(GpuCommand::SetBindGroup { slot: 0, group: BindGroupKind::TextureSampler });
    cmds.push(GpuCommand::SetBindGroup { slot: 1, group: BindGroupKind::CameraUniform });
    cmds.push(GpuCommand::SetPipeline { pipeline: PipelineKind::Automaton });
    cmds.push(GpuCommand::Dispatch { groups_x: width, groups_y: height, groups_z: 1 });
    cmds.push(GpuCommand::CopyComputeToPresentation { width, height });
    proof {
        assert(cmds@ =~= compute_pass(width, height));
    }
    cmds
}

/// How many indexed draws the first `i` commands hold.
pub open spec fn indexed_draws_upto(s: Seq<GpuCommand>, i: int) -> int
    decreases i,
{
    if i <= 0 {
        0
    } else {
        indexed_draws_upto(s, i - 1) + (if s[i - 1] is DrawIndexed {
            1int
        } else {
            0int
        })
    }
}

/// How many indexed draws a command sequence holds.
pub open spec fn indexed_draws(s: Seq<GpuCommand>) -> int {
    indexed_draws_upto(s, s.len() as int)
}

/// How many non-indexed draws the first `i` commands hold.
pub open spec fn plain_draws_upto(s: Seq<GpuCommand>, i: int) -> int
    decreases i,
{
    if i <= 0 {
        0
    } else {
        plain_draws_upto(s, i - 1) + (if s[i - 1] is Draw {
            1int
        } else {
            0int
        })
    }
}

/// How many non-indexed draws a command sequence holds.
pub open spec fn plain_draws(s: Seq<GpuCommand>) -> int {
    plain_draws_upto(s, s.len() as int)
}

/// How many bind-group binds the first `i` commands hold.
pub open spec fn bind_group_binds_upto(s: Seq<GpuCommand>, i: int) -> int
    decreases i,
{
    if i <= 0 {
        0
    } else {
        bind_group_binds_upto(s, i - 1) + (if s[i - 1] is SetBindGroup {
            1int
        } else {
            0int
        })
    }
}

/// How many bind-group binds a command sequence holds.
pub open spec fn bind_group_binds(s: Seq<GpuCommand>) -> int {
    bind_group_binds_upto(s, s.len() as int)
}

/// Law: the Default path issues exactly one draw call, indexed over the six
/// quad indices, with two bind-group binds; the ColourPass path issues exactly
/// one non-indexed draw of three vertices with no bind-group binds; the
/// ComplexObject path issues no draw call at all.
pub proof fn lemma_draw_path_counts()
    ensures
        indexed_draws(draw_path(RenderState::Default)) == 1,
        plain_draws(draw_path(RenderState::Default)) == 0,
        bind_group_binds(draw_path(RenderState::Default)) == 2,
        draw_path(RenderState::Default)[5] == (GpuCommand::DrawIndexed {
            index_count: 6u32,
            instance_count: 1u32,
        }),
        indexed_draws(draw_path(RenderState::ColourPass)) == 0,
        plain_draws(draw_path(RenderState::ColourPass)) == 1,
        bind_group_binds(draw_path(RenderState::ColourPass)) == 0,
        draw_path(RenderState::ColourPass)[1] == (GpuCommand::Draw {
            vertex_count: 3u32,
            instance_count: 1u32,
        }),
        indexed_draws(draw_path(RenderState::ComplexObject)) == 0,
        plain_draws(draw_path(RenderState::ComplexObject)) == 0,
        bind_group_binds(draw_path(RenderState::ComplexObject)) == 0,
        draw_path(RenderState::ComplexObject).len() == 0,
{
    reveal_with_fuel(indexed_draws_upto, 8);
    reveal_with_fuel(plain_draws_upto, 8);
    reveal_with_fuel(bind_group_binds_upto, 8);
}

/// Why acquiring the presentation texture failed.
#[derive(Clone, Copy, Debug, PartialEq, Eq, Structural)]
pub enum AcquireFailure {
    Lost,
    Outdated,
    OutOfMemory,
    Timeout,
    Other,
}

/// What a frame does about a failed acquire.
#[derive(Clone, Copy, Debug, PartialEq, Eq, Structural)]
pub enum FrameFallback {
    /// Reconfigure the surface at the current size and skip this frame.
    ReconfigureAndSkip,
    /// Abandon this frame; no retry, no termination.
    AbandonFrame,
}

/// A lost or outdated surface is recoverable by reconfiguring; every other
/// acquire failure just abandons the frame.
pub open spec fn acquire_policy(failure: AcquireFailure) -> FrameFallback {
    match failure {
        AcquireFailure::Lost | AcquireFailure::Outdated => FrameFallback::ReconfigureAndSkip,
        _ => FrameFallback::AbandonFrame,
    }
}

/// Decides the fallback for a failed acquire, exactly as `acquire_policy`
/// states.
pub fn acquire_failure_action(failure: AcquireFailure) -> (r: FrameFallback)
    ensures
        r == acquire_policy(failure),
{
    match failure {
        AcquireFailure::Lost | AcquireFailure::Outdated => FrameFallback::ReconfigureAndSkip,
        _ => FrameFallback::AbandonFrame,
    }
}

/// The verified per-frame state: render mode, camera, controller, and the
/// bookkeeping flags of the surface. The unverified shell owns the GPU handles
/// and feeds events in as plain values.
#[derive(Clone, Copy, Debug, PartialEq, Eq, Structural)]
pub struct FrameMachine {
    pub render_state: RenderState,
    pub camera: Camera,
    pub camera_controller: CameraController,
    pub is_surface_configured: bool,
    pub is_mouse_pressed: bool,
    pub width: u32,
    pub height: u32,
}

/// What one key event asks of the frame loop.
#[derive(Clone, Copy, Debug, PartialEq, Eq, Structural)]
pub struct KeyResponse {
    /// Whether the event was consumed; an unconsumed event may go to other
    /// handlers, such as an escape-to-quit binding.
    pub handled: bool,
    /// Whether a redraw should be requested.
    pub request_redraw: bool,
    /// Whether the compute pre-pass should run before the next draw.
    pub run_compute: bool,
}

/// The camera at startup: scale 1, centered at the origin.
pub open spec fn start_camera() -> Camera {
    Camera { scale: Frac { num: 1, den: 1 }, x: Frac { num: 0, den: 1 }, y: Frac { num: 0, den: 1 } }
}

/// The machine after one key event: a pressed advance key moves the mode one
/// step along the cycle, a pressed compute key changes no state, and every
/// other key goes to the camera controller's latches.
pub open spec fn machine_after_key(m: FrameMachine, code: Key, is_pressed: bool) -> FrameMachine {
    if code == Key::Space && is_pressed {
        FrameMachine { render_state: m.render_state.next_spec(), ..m }
    } else if code == Key::KeyR && is_pressed {
        m
    } else {
        FrameMachine {
            camera_controller: controller_after_key(m.camera_controller, code, is_pressed),
            ..m
        }
    }
}

/// The response to one key event: the advance and compute keys are consumed
/// and request a redraw; anything else is consumed exactly when the controller
/// recognizes it.
pub open spec fn key_response(code: Key, is_pressed: bool) -> KeyResponse {
    if code == Key::Space && is_pressed {
        KeyResponse { handled: true, request_redraw: true, run_compute: false }
    } else if code == Key::KeyR && is_pressed {
        KeyResponse { handled: true, request_redraw: true, run_compute: true }
    } else {
        KeyResponse {
            handled: key_action(code) is Some,
            request_redraw: false,
            run_compute: false,
        }
    }
}

/// The machine after a resize: a size with both extents positive is adopted,
/// a degenerate one is ignored; either way the surface counts as configured
/// from here on.
pub open spec fn machine_resized(m: FrameMachine, new_width: u32, new_height: u32)
    -> FrameMachine {
    if new_width > 0 && new_height > 0 {
        FrameMachine { width: new_width, height: new_height, is_surface_configured: true, ..m }
    } else {
        FrameMachine { is_surface_configured: true, ..m }
    }
}

impl FrameMachine {
    /// Camera and controller keep positive denominators.
    pub open spec fn wf(self) -> bool {
        &&& self.camera.wf()
        &&& self.camera_controller.wf()
    }

    /// A fresh machine: Default mode, the startup camera, all latches unset,
    /// surface not yet configured.
    pub fn new(speed: Frac, width: u32, height: u32) -> (m: FrameMachine)
        ensures
            m == (FrameMachine {
                render_state: RenderState::Default,
                camera: start_camera(),
                camera_controller: CameraController {
                    speed,
                    is_forward_pressed: false,
                    is_backward_pressed: false,
                    is_left_pressed: false,
                    is_right_pressed: false,
                    is_zoom_in: false,
                    is_zoom_out: false,
                },
                is_surface_configured: false,
                is_mouse_pressed: false,
                width,
                height,
            }),
    {
        FrameMachine {
            render_state: RenderState::Default,
            camera: Camera::default(),
            camera_controller: CameraController::new(speed),
            is_surface_configured: false,
            is_mouse_pressed: false,
            width,
            height,
        }
    }

    /// Routes one key event, exactly as `machine_after_key` and `key_response`
    /// state: a pressed advance key cycles the mode, a pressed compute key asks
    /// for the compute pre-pass, and every other event goes to the controller.
    pub fn handle_key_event(&mut self, code: Key, is_pressed: bool) -> (r: KeyResponse)
        ensures
            *final(self) == machine_after_key(*old(self), code, is_pressed),
            r == key_response(code, is_pressed),
    {
        match (code, is_pressed) {
            (Key::Space, true) => {
                let advanced = self.render_state.next();
                self.render_state = advanced;
                KeyResponse { handled: true, request_redraw: true, run_compute: false }
            },
            (Key::KeyR, true) => KeyResponse {
                handled: true,
                request_redraw: true,
                run_compute: true,
            },
            _ => {
                let mut controller = self.camera_controller;
                let handled = controller.handle_key(code, is_pressed);
                self.camera_controller = controller;
                KeyResponse { handled, request_redraw: false, run_compute: false }
            },
        }
    }

    /// Tracks the left mouse button; the event is always consumed.
    pub fn handle_mouse_button(&mut self, left_button: bool, is_pressed: bool) -> (handled: bool)
        ensures
            *final(self) == (if left_button {
                FrameMachine { is_mouse_pressed: is_pressed, ..*old(self) }
            } else {
                *old(self)
            }),
            handled,
    {
        if left_button {
            self.is_mouse_pressed = is_pressed;
        }
        true
    }

    /// Adopts a new surface size, exactly as `machine_resized` states.
    pub fn resize(&mut self, new_width: u32, new_height: u32)
        ensures
            *final(self) == machine_resized(*old(self), new_width, new_height),
    {
        if new_width > 0 && new_height > 0 {
            self.width = new_width;
            self.height = new_height;
        }
        self.is_surface_configured = true;
    }

    /// The once-per-frame camera update: applies the latched actions when the
    /// exact step fits machine bounds, and otherwise leaves the camera as it
    /// is and reports so. Nothing but the camera changes.
    pub fn update(&mut self) -> (applied: bool)
        requires
            old(self).wf(),
        ensures
            applied == camera_step_ok(old(self).camera@, old(self).camera_controller),
            applied ==> final(self).camera@ == camera_step(
                old(self).camera@,
                old(self).camera_controller,
            ),
            !applied ==> final(self).camera == old(self).camera,
            *final(self) == (FrameMachine { camera: final(self).camera, ..*old(self) }),
            final(self).wf(),
    {
        let controller = self.camera_controller;
        if controller.update_allowed(&self.camera) {
            let mut cam = self.camera;
            controller.update_camera(&mut cam);
            self.camera = cam;
            true
        } else {
            false
        }
    }

    /// The draw path of this frame: nothing before the surface is configured,
    /// afterwards exactly the commands of the current mode.
    pub fn render_plan(&self) -> (r: Option<Vec<GpuCommand>>)
        ensures
            r is Some <==> self.is_surface_configured,
            r is Some ==> r.unwrap()@ == draw_path(self.render_state),
    {
        if self.is_surface_configured {
            Some(select_draw_path(self.render_state))
        } else {
            None
        }
    }
}

} // verus!
