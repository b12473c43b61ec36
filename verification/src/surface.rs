//! The presentation-surface model: one drawable bound to one window and
//! one context, kept valid across resizes.
//!
//! The platform surface and context themselves live in the unverified
//! shell; this model decides when they are reconfigured, filters the
//! zero-sized events a minimized window produces, counts presents, and
//! pins the teardown order against the device.

use vstd::prelude::*;

verus! {

use crate::config::{ConfigInfo, best_index, select_config};
use crate::device::Renderer;

/// Why surface creation failed.
#[derive(Clone, Copy, Debug, PartialEq, Eq, Structural)]
pub enum CreateError {
    /// The window's drawable area has a zero dimension.
    ZeroSize,
    /// The platform offered no configuration at all.
    NoCompatibleConfig,
}

/// The surface: its backing-buffer size in pixels (both dimensions
/// positive while the surface is valid), the requested presentation
/// interval, whether the owning context still exists, and how many frames
/// have been presented.
#[derive(Clone, Copy, Debug, PartialEq, Eq, Structural)]
pub struct PresentationSurface {
    pub width: u32,
    pub height: u32,
    /// Number of vertical refresh intervals each present waits for; the
    /// request is best-effort on the platform's side.
    pub swap_interval: u32,
    /// False once the owning context has been destroyed.
    pub context_alive: bool,
    /// Whether the context is current on the render thread. The surface
    /// must never be presented, resized or configured against a context
    /// that is not current; the contracts here insist on it.
    pub current: bool,
    pub frames_presented: u64,
}

impl PresentationSurface {
    /// A valid surface has positive dimensions and a live context, and is
    /// current only while the context exists.
    pub open spec fn well_formed(self) -> bool {
        &&& self.context_alive ==> self.width > 0 && self.height > 0
        &&& self.current ==> self.context_alive
    }

    /// Creates a surface for a window of the given pixel size, selecting a
    /// configuration from the candidates. Succeeds exactly when both
    /// dimensions are positive and some candidate exists; returns the
    /// selected candidate's index beside the surface. A zero dimension is
    /// reported before a missing configuration.
    pub fn create(width: u32, height: u32, configs: &Vec<ConfigInfo>) -> (r: Result<
        (PresentationSurface, usize),
        CreateError,
    >)
        ensures
            r is Ok <==> (width > 0 && height > 0 && configs@.len() > 0),
            width == 0 || height == 0 ==> (r matches Err(e) && e == CreateError::ZeroSize),
            width > 0 && height > 0 && configs@.len() == 0 ==> (r matches Err(e) && e
                == CreateError::NoCompatibleConfig),
            r matches Ok((s, i)) ==> s == (PresentationSurface {
                width,
                height,
                swap_interval: 0,
                context_alive: true,
                current: false,
                frames_presented: 0,
            }) && i == best_index(configs@) && s.well_formed(),
    {
        if width == 0 || height == 0 {
            return Err(CreateError::ZeroSize);
        }
        match select_config(configs) {
            None => Err(CreateError::NoCompatibleConfig),
            Some(i) => Ok(
                (
                    PresentationSurface {
                        width,
                        height,
                        swap_interval: 0,
                        context_alive: true,
                        current: false,
                        frames_presented: 0,
                    },
                    i,
                ),
            ),
        }
    }

    /// Binds the context and surface to the render thread. Must precede
    /// any present, resize or driver call after creation; at most one
    /// thread may hold the context current at a time, which the
    /// single-threaded loop guarantees by construction.
    pub fn make_current(&mut self)
        requires
            old(self).context_alive,
        ensures
            *final (self) == (PresentationSurface {
                current: true,
                width: old(self).width,
                height: old(self).height,
                swap_interval: old(self).swap_interval,
                context_alive: old(self).context_alive,
                frames_presented: old(self).frames_presented,
            }),
    {
        self.current = true;
    }

    /// Reconfigures the backing buffers to the new size. A zero dimension
    /// leaves the surface exactly as it was: minimized windows produce
    /// zero-sized events that must not reach the platform. Repeating the
    /// same size yields the same surface state as applying it once.
    pub fn resize(&mut self, width: u32, height: u32)
        requires
            old(self).context_alive,
            old(self).current,
        ensures
            width == 0 || height == 0 ==> *final (self) == *old(self),
            width > 0 && height > 0 ==> *final (self) == (PresentationSurface {
                width,
                height,
                swap_interval: old(self).swap_interval,
                context_alive: old(self).context_alive,
                current: old(self).current,
                frames_presented: old(self).frames_presented,
            }),
            old(self).well_formed() ==> final (self).well_formed(),
    {
        if width == 0 || height == 0 {
            return ;
        }
        self.width = width;
        self.height = height;
    }

    /// Records the requested presentation interval: each present is to
    /// wait for `interval` vertical refreshes. The platform may not honor
    /// the request; presentation itself is unaffected either way.
    pub fn set_presentation_interval(&mut self, interval: u32)
        requires
            old(self).context_alive,
            old(self).current,
        ensures
            *final (self) == (PresentationSurface {
                swap_interval: interval,
                width: old(self).width,
                height: old(self).height,
                context_alive: old(self).context_alive,
                current: old(self).current,
                frames_presented: old(self).frames_presented,
            }),
    {
        self.swap_interval = interval;
    }

    /// Publishes the completed frame to the window: one more frame has
    /// been presented, and nothing else about the surface changes. The
    /// context must be current on the calling thread: presenting against
    /// one that is not is the invariant violation this contract rules out.
    pub fn present(&mut self)
        requires
            old(self).context_alive,
            old(self).current,
            old(self).width > 0,
            old(self).height > 0,
            old(self).frames_presented < u64::MAX,
        ensures
            *final (self) == (PresentationSurface {
                frames_presented: (old(self).frames_presented + 1) as u64,
                width: old(self).width,
                height: old(self).height,
                swap_interval: old(self).swap_interval,
                context_alive: old(self).context_alive,
                current: old(self).current,
            }),
    {
        self.frames_presented = self.frames_presented + 1;
    }

    /// Destroys the owning context. The device must already have released
    /// its resources: destroying the context first would leave the device
    /// releasing resources against a dead context, which the graphics API
    /// leaves undefined.
    pub fn destroy(&mut self, device: &Renderer)
        requires
            old(self).context_alive,
            !device.alive,
        ensures
            *final (self) == (PresentationSurface {
                context_alive: false,
                current: false,
                width: old(self).width,
                height: old(self).height,
                swap_interval: old(self).swap_interval,
                frames_presented: old(self).frames_presented,
            }),
            final (self).well_formed(),
    {
        self.context_alive = false;
        self.current = false;
    }
}

} // verus!
