//! The graphics-device model: the shader program, the fixed triangle
//! geometry, the active viewport, and the resources' lifetime.
//!
//! The graphics driver itself lives outside this library. The unverified
//! shell compiles the shaders, queries the driver's compile and link status
//! and diagnostic logs, and generates the object names; it hands all of
//! that over as an [`InitReport`]. The library decides whether construction
//! succeeds, which error it fails with, and what every frame submission
//! must contain.

use vstd::prelude::*;

verus! {

use crate::color::{Rgba, default_clear, default_clear_spec};

/// Vertex coordinates are fractions of the clip-space unit in thousandths:
/// `1000` is clip-space coordinate one.
pub const COORD_SCALE: i16 = 1000;

/// The fixed triangle uploaded at device initialization: three vertices,
/// three coordinates each, tightly packed.
pub open spec fn triangle_vertices() -> Seq<i16> {
    seq![-500i16, -500i16, 0i16, 500i16, -500i16, 0i16, 0i16, 500i16, 0i16]
}

/// What the shell observed while building the device: the driver's compile
/// and link verdicts with their diagnostic logs, and the object names the
/// driver handed out.
pub struct InitReport {
    pub vertex_compiled: bool,
    pub vertex_log: String,
    pub fragment_compiled: bool,
    pub fragment_log: String,
    pub linked: bool,
    pub link_log: String,
    /// Name of the linked shader program.
    pub program: u32,
    /// Name of the vertex-array object.
    pub vao: u32,
    /// Name of the vertex-buffer object.
    pub vbo: u32,
}

/// Why device construction failed, with the driver's diagnostic log.
#[derive(Debug, PartialEq, Eq)]
pub enum InitError {
    VertexShaderFailed(String),
    FragmentShaderFailed(String),
    LinkFailed(String),
}

/// One frame's GPU submission, in full: which objects to bind, the clear
/// colour, the viewport in effect, and the draw call's range.
#[derive(Clone, Copy, Debug, PartialEq, Eq, Structural)]
pub struct FrameCommands {
    pub program: u32,
    pub vao: u32,
    pub vbo: u32,
    pub clear: Rgba,
    pub viewport_width: u32,
    pub viewport_height: u32,
    pub first_vertex: u32,
    pub vertex_count: u32,
}

/// The device: owns the program, the vertex objects and the geometry, and
/// tracks the active viewport. `alive` is false once the resources have
/// been released; no draw or viewport call is permitted then.
#[derive(Debug)]
pub struct Renderer {
    pub program: u32,
    pub vao: u32,
    pub vbo: u32,
    pub alive: bool,
    pub viewport_width: u32,
    pub viewport_height: u32,
    /// The uploaded vertex coordinates, in `COORD_SCALE` units.
    pub geometry: Vec<i16>,
}

impl Renderer {
    /// A live device holds the fixed triangle.
    pub open spec fn well_formed(self) -> bool {
        self.alive ==> self.geometry@ == triangle_vertices()
    }

    /// The frame a draw call with clear colour `clear` submits: bind this
    /// device's objects, clear, and draw the whole geometry from the start.
    pub open spec fn frame_spec(self, clear: Rgba) -> FrameCommands {
        FrameCommands {
            program: self.program,
            vao: self.vao,
            vbo: self.vbo,
            clear,
            viewport_width: self.viewport_width,
            viewport_height: self.viewport_height,
            first_vertex: 0,
            vertex_count: (self.geometry@.len() / 3) as u32,
        }
    }

    /// Builds the device from the shell's report, at the surface's current
    /// size. Construction succeeds exactly when both shaders compiled and
    /// the program linked; the first failure in that order decides the
    /// error, which carries the driver's log. No partial device is
    /// reachable on failure.
    pub fn new(report: InitReport, width: u32, height: u32) -> (r: Result<Renderer, InitError>)
        requires
            width > 0,
            height > 0,
        ensures
            r is Ok <==> (report.vertex_compiled && report.fragment_compiled && report.linked),
            !report.vertex_compiled ==> (r matches Err(e) && e == InitError::VertexShaderFailed(
                report.vertex_log,
            )),
            report.vertex_compiled && !report.fragment_compiled ==> (r matches Err(e) && e
                == InitError::FragmentShaderFailed(report.fragment_log)),
            report.vertex_compiled && report.fragment_compiled && !report.linked ==> (r matches Err(
                e,
            ) && e == InitError::LinkFailed(report.link_log)),
            r matches Ok(d) ==> d == (Renderer {
                program: report.program,
                vao: report.vao,
                vbo: report.vbo,
                alive: true,
                viewport_width: width,
                viewport_height: height,
                geometry: d.geometry,
            }) && d.geometry@ == triangle_vertices(),
            r matches Ok(d) ==> d.well_formed(),
    {
        if !report.vertex_compiled {
            return Err(InitError::VertexShaderFailed(report.vertex_log));
        }
        if !report.fragment_compiled {
            return Err(InitError::FragmentShaderFailed(report.fragment_log));
        }
        if !report.linked {
            return Err(InitError::LinkFailed(report.link_log));
        }
        let mut geometry: Vec<i16> = Vec::new();
        geometry.push(-500);
        geometry.push(-500);
        geometry.push(0);
        geometry.push(500);
        geometry.push(-500);
        geometry.push(0);
        geometry.push(0);
        geometry.push(500);
        geometry.push(0);
        Ok(
            Renderer {
                program: report.program,
                vao: report.vao,
                vbo: report.vbo,
                alive: true,
                viewport_width: width,
                viewport_height: height,
                geometry,
            },
        )
    }

    /// A device that was never initialized: no resources, nothing to draw.
    pub fn inactive() -> (r: Renderer)
        ensures
            r == (Renderer {
                program: 0,
                vao: 0,
                vbo: 0,
                alive: false,
                viewport_width: 0,
                viewport_height: 0,
                geometry: r.geometry,
            }),
            r.geometry@ == Seq::<i16>::empty(),
            r.well_formed(),
    {
        Renderer {
            program: 0,
            vao: 0,
            vbo: 0,
            alive: false,
            viewport_width: 0,
            viewport_height: 0,
            geometry: Vec::new(),
        }
    }

    /// The frame to submit with the default clear colour.
    pub fn draw(&self) -> (r: FrameCommands)
        requires
            self.alive,
        ensures
            r == self.frame_spec(default_clear_spec()),
    {
        let clear = default_clear();
        self.draw_with_clear_color(clear.red, clear.green, clear.blue, clear.alpha)
    }

    /// The frame to submit with the given clear colour.
    pub fn draw_with_clear_color(&self, red: u16, green: u16, blue: u16, alpha: u16) -> (r:
        FrameCommands)
        requires
            self.alive,
            red <= crate::COLOR_SCALE,
            green <= crate::COLOR_SCALE,
            blue <= crate::COLOR_SCALE,
            alpha <= crate::COLOR_SCALE,
        ensures
            r == self.frame_spec(Rgba { red, green, blue, alpha }),
    {
        FrameCommands {
            program: self.program,
            vao: self.vao,
            vbo: self.vbo,
            clear: Rgba::new(red, green, blue, alpha),
            viewport_width: self.viewport_width,
            viewport_height: self.viewport_height,
            first_vertex: 0,
            vertex_count: (self.geometry.len() / 3) as u32,
        }
    }

    /// Records the new viewport. Must follow every surface resize before
    /// the next draw; the render loop enforces that ordering.
    pub fn resize(&mut self, width: u32, height: u32)
        requires
            old(self).alive,
            width > 0,
            height > 0,
        ensures
            *final (self) == (Renderer {
                viewport_width: width,
                viewport_height: height,
                program: old(self).program,
                vao: old(self).vao,
                vbo: old(self).vbo,
                alive: old(self).alive,
                geometry: old(self).geometry,
            }),
    {
        self.viewport_width = width;
        self.viewport_height = height;
    }

    /// Releases program, buffer and vertex-array resources: the handles
    /// are invalid afterwards, and the device accepts no further draw or
    /// viewport call. Must run before the owning context is destroyed;
    /// [`crate::surface::PresentationSurface::destroy`] insists on it.
    pub fn shutdown(&mut self)
        requires
            old(self).alive,
        ensures
            *final (self) == (Renderer {
                program: 0,
                vao: 0,
                vbo: 0,
                alive: false,
                viewport_width: old(self).viewport_width,
                viewport_height: old(self).viewport_height,
                geometry: old(self).geometry,
            }),
            !final (self).alive,
    {
        self.program = 0;
        self.vao = 0;
        self.vbo = 0;
        self.alive = false;
    }
}

} // verus!
