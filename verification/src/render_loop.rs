//! The render loop: sequences window-system callbacks into device and
//! surface operations, in the order that keeps them safe.
//!
//! The unverified shell receives the platform's callbacks and feeds them
//! in as [`WindowSignal`] values; the loop answers with the
//! [`LoopAction`]s the shell must perform, in order. The whole transition
//! relation is the spec function [`step`], and every handled event is
//! proved to follow it exactly.

use vstd::prelude::*;

verus! {

use crate::color::default_clear_spec;
use crate::config::{ConfigInfo, best_index};
use crate::device::{InitError, InitReport, Renderer, triangle_vertices};
use crate::surface::{CreateError, PresentationSurface};

/// Where the loop stands for one window.
#[derive(Clone, Copy, Debug, PartialEq, Eq, Structural)]
pub enum Phase {
    /// No device or surface exists yet.
    Uninitialized,
    /// Device and surface are created and current; events are acted on.
    Ready,
    /// Close has been handled; no further event is acted on.
    Terminated,
}

/// A window-system callback, reduced to the values the loop reads.
#[derive(Clone, Copy, Debug, PartialEq, Eq, Structural)]
pub enum WindowSignal {
    /// The window's drawable area changed to the given pixel size.
    Resized(u32, u32),
    /// The window wants a frame.
    RedrawRequested,
    /// The close button was pressed.
    CloseRequested,
}

/// One platform call the shell must perform, in the order returned.
#[derive(Clone, Copy, Debug, PartialEq, Eq, Structural)]
pub enum LoopAction {
    /// Reconfigure the platform surface's backing buffers to this size.
    ReconfigureSurface(u32, u32),
    /// Set the driver's viewport to this size.
    SetViewport(u32, u32),
    /// Submit exactly these commands to the driver.
    SubmitFrame(crate::device::FrameCommands),
    /// Ask the window system for the next redraw.
    RequestRedraw,
    /// Swap the surface's buffers.
    Present,
    /// Leave the event loop.
    Exit,
    /// Delete the device's program, buffer and vertex-array objects.
    ReleaseResources,
    /// Destroy the context.
    DestroyContext,
}

/// Why activation failed: either the surface could not be set up, or the
/// device could not.
#[derive(Debug, PartialEq, Eq)]
pub enum SetupError {
    Surface(CreateError),
    Device(InitError),
}

/// The loop's whole state for one window.
#[derive(Debug)]
pub struct RenderLoop {
    pub phase: Phase,
    pub device: Renderer,
    pub surface: PresentationSurface,
}

impl RenderLoop {
    /// The invariant every handled event preserves. In `Ready`, device and
    /// surface are live, the context is current on the render thread, the
    /// surface has a positive size, and the device's viewport equals the
    /// surface's size — so no draw can observe a stale viewport. In
    /// `Terminated`, device and context are torn down together or not at
    /// all.
    pub open spec fn well_formed(self) -> bool {
        &&& self.device.well_formed()
        &&& self.surface.well_formed()
        &&& match self.phase {
            Phase::Uninitialized => !self.device.alive && !self.surface.context_alive,
            Phase::Ready => {
                &&& self.device.alive
                &&& self.surface.context_alive
                &&& self.surface.current
                &&& self.surface.width > 0
                &&& self.surface.height > 0
                &&& self.device.viewport_width == self.surface.width
                &&& self.device.viewport_height == self.surface.height
            },
            Phase::Terminated => self.device.alive == self.surface.context_alive,
        }
    }

    /// A loop that has seen no event: nothing exists yet.
    pub fn new() -> (r: RenderLoop)
        ensures
            r.phase is Uninitialized,
            r.device == (Renderer {
                program: 0,
                vao: 0,
                vbo: 0,
                alive: false,
                viewport_width: 0,
                viewport_height: 0,
                geometry: r.device.geometry,
            }),
            r.device.geometry@ == Seq::<i16>::empty(),
            r.surface == (PresentationSurface {
                width: 0,
                height: 0,
                swap_interval: 0,
                context_alive: false,
                current: false,
                frames_presented: 0,
            }),
            r.well_formed(),
    {
        RenderLoop {
            phase: Phase::Uninitialized,
            device: Renderer::inactive(),
            surface: PresentationSurface {
                width: 0,
                height: 0,
                swap_interval: 0,
                context_alive: false,
                current: false,
                frames_presented: 0,
            },
        }
    }

    /// First activation: selects a configuration, creates the surface at
    /// the window's current size, makes the context current, builds the
    /// device from the shell's report, and requests a presentation
    /// interval of one refresh
    /// (standard vsync). Succeeds exactly when the size is positive, a
    /// configuration exists, both shaders compiled and the program linked;
    /// on success the selected configuration's index is returned and the
    /// loop is `Ready`. On failure the loop is exactly as it was: no
    /// partial device or surface is reachable.
    pub fn activate(
        &mut self,
        width: u32,
        height: u32,
        configs: &Vec<ConfigInfo>,
        report: InitReport,
    ) -> (r: Result<usize, SetupError>)
        requires
            old(self).phase is Uninitialized,
        ensures
            r is Ok <==> (width > 0 && height > 0 && configs@.len() > 0 && report.vertex_compiled
                && report.fragment_compiled && report.linked),
            width == 0 || height == 0 ==> (r matches Err(e) && e == SetupError::Surface(
                CreateError::ZeroSize,
            )),
            width > 0 && height > 0 && configs@.len() == 0 ==> (r matches Err(e) && e
                == SetupError::Surface(CreateError::NoCompatibleConfig)),
            width > 0 && height > 0 && configs@.len() > 0 && !report.vertex_compiled ==> (r matches
                Err(e) && e == SetupError::Device(InitError::VertexShaderFailed(report.vertex_log))),
            width > 0 && height > 0 && configs@.len() > 0 && report.vertex_compiled
                && !report.fragment_compiled ==> (r matches Err(e) && e == SetupError::Device(
                InitError::FragmentShaderFailed(report.fragment_log),
            )),
            width > 0 && height > 0 && configs@.len() > 0 && report.vertex_compiled
                && report.fragment_compiled && !report.linked ==> (r matches Err(e) && e
                == SetupError::Device(InitError::LinkFailed(report.link_log))),
            r matches Ok(i) ==> i == best_index(configs@),
            r is Ok ==> final (self).phase is Ready,
            r is Ok ==> final (self).surface == (PresentationSurface {
                width,
                height,
                swap_interval: 1,
                context_alive: true,
                current: true,
                frames_presented: 0,
            }),
            r is Ok ==> final (self).device == (Renderer {
                program: report.program,
                vao: report.vao,
                vbo: report.vbo,
                alive: true,
                viewport_width: width,
                viewport_height: height,
                geometry: final (self).device.geometry,
            }) && final (self).device.geometry@ == triangle_vertices(),
            r is Ok ==> final (self).well_formed(),
            r is Err ==> *final (self) == *old(self),
    {
        match PresentationSurface::create(width, height, configs) {
            Err(e) => Err(SetupError::Surface(e)),
            Ok((mut surf, idx)) => match Renderer::new(report, width, height) {
                Err(e) => Err(SetupError::Device(e)),
                Ok(dev) => {
                    surf.make_current();
                    surf.set_presentation_interval(1);
                    self.surface = surf;
                    self.device = dev;
                    self.phase = Phase::Ready;
                    Ok(idx)
                },
            },
        }
    }
}

/// The loop's transition relation, whole: the state after a signal and the
/// platform calls it demands. Events are acted on only in `Ready`; a
/// resize with a zero dimension is filtered; a redraw submits the frame,
/// requests the next redraw, and presents; close terminates the loop.
pub open spec fn step(pre: RenderLoop, signal: WindowSignal) -> (RenderLoop, Seq<LoopAction>) {
    if !(pre.phase is Ready) {
        (pre, Seq::<LoopAction>::empty())
    } else {
        match signal {
            WindowSignal::Resized(w, h) => if w == 0 || h == 0 {
                (pre, Seq::<LoopAction>::empty())
            } else {
                (
                    RenderLoop {
                        phase: pre.phase,
                        device: Renderer {
                            viewport_width: w,
                            viewport_height: h,
                            program: pre.device.program,
                            vao: pre.device.vao,
                            vbo: pre.device.vbo,
                            alive: pre.device.alive,
                            geometry: pre.device.geometry,
                        },
                        surface: PresentationSurface {
                            width: w,
                            height: h,
                            swap_interval: pre.surface.swap_interval,
                            context_alive: pre.surface.context_alive,
                            current: pre.surface.current,
                            frames_presented: pre.surface.frames_presented,
                        },
                    },
                    seq![LoopAction::ReconfigureSurface(w, h), LoopAction::SetViewport(w, h)],
                )
            },
            WindowSignal::RedrawRequested => (
                RenderLoop {
                    phase: pre.phase,
                    device: pre.device,
                    surface: PresentationSurface {
                        frames_presented: (pre.surface.frames_presented + 1) as u64,
                        width: pre.surface.width,
                        height: pre.surface.height,
                        swap_interval: pre.surface.swap_interval,
                        context_alive: pre.surface.context_alive,
                        current: pre.surface.current,
                    },
                },
                seq![
                    LoopAction::SubmitFrame(pre.device.frame_spec(default_clear_spec())),
                    LoopAction::RequestRedraw,
                    LoopAction::Present,
                ],
            ),
            WindowSignal::CloseRequested => (
                RenderLoop { phase: Phase::Terminated, device: pre.device, surface: pre.surface },
                seq![LoopAction::Exit],
            ),
        }
    }
}

impl RenderLoop {
    /// Handles one window-system callback, exactly as [`step`] says.
    pub fn handle_event(&mut self, signal: WindowSignal) -> (actions: Vec<LoopAction>)
        requires
            old(self).well_formed(),
            old(self).phase is Ready && signal is RedrawRequested ==> old(
                self,
            ).surface.frames_presented < u64::MAX,
        ensures
            *final (self) == step(*old(self), signal).0,
            actions@ == step(*old(self), signal).1,
            final (self).well_formed(),
    {
        let mut actions: Vec<LoopAction> = Vec::new();
        match self.phase {
            Phase::Ready => match signal {
                WindowSignal::Resized(w, h) => {
                    if w != 0 && h != 0 {
                        self.surface.resize(w, h);
                        self.device.resize(w, h);
                        actions.push(LoopAction::ReconfigureSurface(w, h));
                        actions.push(LoopAction::SetViewport(w, h));
                    }
                },
                WindowSignal::RedrawRequested => {
                    let frame = self.device.draw();
                    actions.push(LoopAction::SubmitFrame(frame));
                    actions.push(LoopAction::RequestRedraw);
                    self.surface.present();
                    actions.push(LoopAction::Present);
                },
                WindowSignal::CloseRequested => {
                    self.phase = Phase::Terminated;
                    actions.push(LoopAction::Exit);
                },
            },
            _ => {},
        }
        actions
    }

    /// Tears the window's graphics down in the one order the API permits:
    /// the device releases its resources first, the context is destroyed
    /// second. Afterwards the device's handles are invalid and, since
    /// draws demand a live device, no further draw can be issued.
    pub fn teardown(&mut self) -> (actions: Vec<LoopAction>)
        requires
            old(self).well_formed(),
            old(self).phase is Terminated,
            old(self).device.alive,
        ensures
            final (self).phase is Terminated,
            final (self).device == (Renderer {
                program: 0,
                vao: 0,
                vbo: 0,
                alive: false,
                viewport_width: old(self).device.viewport_width,
                viewport_height: old(self).device.viewport_height,
                geometry: old(self).device.geometry,
            }),
            final (self).surface == (PresentationSurface {
                context_alive: false,
                current: false,
                width: old(self).surface.width,
                height: old(self).surface.height,
                swap_interval: old(self).surface.swap_interval,
                frames_presented: old(self).surface.frames_presented,
            }),
            actions@ == seq![LoopAction::ReleaseResources, LoopAction::DestroyContext],
            final (self).well_formed(),
    {
        self.device.shutdown();
        self.surface.destroy(&self.device);
        let mut actions: Vec<LoopAction> = Vec::new();
        actions.push(LoopAction::ReleaseResources);
        actions.push(LoopAction::DestroyContext);
        actions
    }
}

/// The state after a whole history of callbacks, first to last.
pub open spec fn run(pre: RenderLoop, signals: Seq<WindowSignal>) -> RenderLoop
    decreases signals.len(),
{
    if signals.len() == 0 {
        pre
    } else {
        run(step(pre, signals[0]).0, signals.drop_first())
    }
}

/// Every signal preserves the loop's invariant.
pub proof fn lemma_step_preserves_well_formed(pre: RenderLoop, signal: WindowSignal)
    requires
        pre.well_formed(),
    ensures
        step(pre, signal).0.well_formed(),
{
}

/// Every history of signals preserves the loop's invariant.
pub proof fn lemma_run_preserves_well_formed(pre: RenderLoop, signals: Seq<WindowSignal>)
    requires
        pre.well_formed(),
    ensures
        run(pre, signals).well_formed(),
    decreases signals.len(),
{
    if signals.len() > 0 {
        lemma_step_preserves_well_formed(pre, signals[0]);
        lemma_run_preserves_well_formed(step(pre, signals[0]).0, signals.drop_first());
    }
}

/// Resize-then-draw consistency: in a well-formed ready loop, a redraw
/// submits a frame whose viewport is exactly the surface's current size —
/// no draw observes a stale viewport.
pub proof fn lemma_draw_observes_current_size(pre: RenderLoop)
    requires
        pre.well_formed(),
        pre.phase is Ready,
    ensures
        ({
            let acts = step(pre, WindowSignal::RedrawRequested).1;
            &&& acts.len() == 3
            &&& acts[0] matches LoopAction::SubmitFrame(f) && f.viewport_width == pre.surface.width
                && f.viewport_height == pre.surface.height
        }),
{
}

/// Resize-then-draw consistency over whole histories: after any history of
/// callbacks that leaves the loop ready, a resize to a positive (w, h)
/// followed by a redraw submits a frame whose viewport is exactly (w, h).
pub proof fn lemma_resize_then_draw(pre: RenderLoop, signals: Seq<WindowSignal>, w: u32, h: u32)
    requires
        pre.well_formed(),
        run(pre, signals).phase is Ready,
        w > 0,
        h > 0,
    ensures
        ({
            let resized = step(run(pre, signals), WindowSignal::Resized(w, h)).0;
            let acts = step(resized, WindowSignal::RedrawRequested).1;
            &&& acts.len() == 3
            &&& acts[0] matches LoopAction::SubmitFrame(f) && f.viewport_width == w
                && f.viewport_height == h
        }),
{
    lemma_run_preserves_well_formed(pre, signals);
    let ready = run(pre, signals);
    lemma_step_preserves_well_formed(ready, WindowSignal::Resized(w, h));
    lemma_draw_observes_current_size(step(ready, WindowSignal::Resized(w, h)).0);
}

/// Zero-size filtering: a resize with a zero dimension changes nothing and
/// demands no platform call — the surface keeps its previous dimensions.
pub proof fn lemma_zero_resize_filtered(pre: RenderLoop, w: u32, h: u32)
    requires
        w == 0 || h == 0,
    ensures
        step(pre, WindowSignal::Resized(w, h)).0 == pre,
        step(pre, WindowSignal::Resized(w, h)).1 == Seq::<LoopAction>::empty(),
{
}

/// Idempotent identical resize: handling resize(w, h) twice leaves the
/// loop in the same state as handling it once.
pub proof fn lemma_resize_idempotent(pre: RenderLoop, w: u32, h: u32)
    ensures
        step(step(pre, WindowSignal::Resized(w, h)).0, WindowSignal::Resized(w, h)).0 == step(
            pre,
            WindowSignal::Resized(w, h),
        ).0,
{
}

/// Draw is a no-op on geometry: consecutive redraws with the same clear
/// colour submit identical frames, and leave the device — program,
/// objects, geometry, viewport — and the surface's dimensions unchanged.
pub proof fn lemma_redraw_deterministic(pre: RenderLoop)
    requires
        pre.phase is Ready,
    ensures
        ({
            let once = step(pre, WindowSignal::RedrawRequested);
            let twice = step(once.0, WindowSignal::RedrawRequested);
            &&& once.0.device == pre.device
            &&& once.0.surface.width == pre.surface.width
            &&& once.0.surface.height == pre.surface.height
            &&& twice.1 == once.1
        }),
{
}

/// Shutdown ordering, loop side: once close has been handled the loop is
/// no longer ready, and no later signal changes it or demands any platform
/// call — in particular the self-scheduling redraw is never re-issued
/// after termination begins. The device-side half of the ordering is the
/// contract of [`RenderLoop::teardown`]: resources are released while the
/// context is still alive, and the context is destroyed only afterwards.
pub proof fn lemma_no_action_after_close(pre: RenderLoop, signal: WindowSignal)
    ensures
        !(step(pre, WindowSignal::CloseRequested).0.phase is Ready),
        step(step(pre, WindowSignal::CloseRequested).0, signal).0 == step(
            pre,
            WindowSignal::CloseRequested,
        ).0,
        step(step(pre, WindowSignal::CloseRequested).0, signal).1 == Seq::<LoopAction>::empty(),
{
}

} // verus!
