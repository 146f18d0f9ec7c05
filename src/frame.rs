//! The frame state machine: it sequences resize, update and render, keeps the size that
//! the surface, the depth buffer and the offscreen HDR target were last allocated at, and
//! decides what happens after a frame from the status of the surface.
//!
//! A frame goes `Idle` (or `Resized`) to `Updated` to `Rendered` and back to `Idle` when
//! it ends. A resize of zero width or height (a minimized window) is ignored. A resize
//! that arrives in the middle of a frame is held back and applied when the frame ends, so
//! that a frame is never drawn with buffers of two different sizes.
use vstd::prelude::*;

verus! {

#[derive(Clone, Copy, Debug, PartialEq, Eq, Structural)]
pub enum FramePhase {
    Idle,
    Resized,
    Updated,
    Rendered,
}

/// What a resize request did.
#[derive(Clone, Copy, Debug, PartialEq, Eq, Structural)]
pub enum ResizeOutcome {
    /// Zero width or height: nothing changed, nothing is reallocated.
    Ignored,
    /// Requested in the middle of a frame: it is applied when the frame ends.
    Deferred,
    /// The size changed now: the projection's aspect, the surface, the depth buffer and
    /// the HDR target are to be rebuilt at the new size.
    Applied,
}

/// A size in physical pixels.
#[derive(Clone, Copy, Debug, PartialEq, Eq, Structural)]
pub struct SurfaceSize {
    pub width: u32,
    pub height: u32,
}

/// The status of acquiring and presenting the surface image of a frame.
#[derive(Clone, Copy, Debug, PartialEq, Eq, Structural)]
pub enum SurfaceStatus {
    Good,
    Lost,
    Outdated,
    OutOfMemory,
    Timeout,
}

/// What follows a frame.
#[derive(Clone, Copy, Debug, PartialEq, Eq, Structural)]
pub enum FrameAction {
    /// The frame was presented.
    Continue,
    /// The surface was lost or outdated: run the resize path with the window's current
    /// size; this frame is skipped.
    Reconfigure,
    /// Out of memory: the application shuts down.
    Exit,
    /// Timed out: report it and skip the frame.
    Skip,
}

/// How a frame ended: what follows, and the held-back resize that the end of the frame
/// applied, if any.
#[derive(Clone, Copy, Debug, PartialEq, Eq, Structural)]
pub struct FrameEnd {
    pub action: FrameAction,
    pub resize: Option<SurfaceSize>,
}

pub open spec fn action_for(status: SurfaceStatus) -> FrameAction {
    match status {
        SurfaceStatus::Good => FrameAction::Continue,
        SurfaceStatus::Lost | SurfaceStatus::Outdated => FrameAction::Reconfigure,
        SurfaceStatus::OutOfMemory => FrameAction::Exit,
        SurfaceStatus::Timeout => FrameAction::Skip,
    }
}

/// Maps the status of a frame's surface to what follows it.
pub fn surface_action(status: SurfaceStatus) -> (r: FrameAction)
    ensures
        r == action_for(status),
{
    match status {
        SurfaceStatus::Good => FrameAction::Continue,
        SurfaceStatus::Lost | SurfaceStatus::Outdated => FrameAction::Reconfigure,
        SurfaceStatus::OutOfMemory => FrameAction::Exit,
        SurfaceStatus::Timeout => FrameAction::Skip,
    }
}

/// The state of the frame loop: the phase of the current frame, the size at which the
/// size-dependent resources were last allocated, and a resize held back until the end of
/// the current frame.
#[derive(Clone, Copy, Debug, PartialEq, Eq, Structural)]
pub struct FrameState {
    pub phase: FramePhase,
    pub width: u32,
    pub height: u32,
    pub pending: Option<SurfaceSize>,
}

impl FrameState {
    /// The allocated size is never zero, and neither is a held-back one.
    pub open spec fn wf(&self) -> bool {
        &&& self.width > 0
        &&& self.height > 0
        &&& match self.pending {
            Some(p) => p.width > 0 && p.height > 0,
            None => true,
        }
    }

    pub open spec fn mid_frame(&self) -> bool {
        self.phase == FramePhase::Updated || self.phase == FramePhase::Rendered
    }

    /// A loop that has not drawn yet, with resources allocated at `width` by `height`.
    pub fn new(width: u32, height: u32) -> (r: Self)
        requires
            width > 0,
            height > 0,
        ensures
            r.wf(),
            r == (FrameState { phase: FramePhase::Idle, width, height, pending: None }),
    {
        FrameState { phase: FramePhase::Idle, width, height, pending: None }
    }

    /// The outcome of a resize request to `width` by `height`, and the state it leaves.
    pub open spec fn after_resize(self, width: u32, height: u32) -> (ResizeOutcome, FrameState) {
        if width == 0 || height == 0 {
            (ResizeOutcome::Ignored, self)
        } else if self.mid_frame() {
            (
                ResizeOutcome::Deferred,
                FrameState { pending: Some(SurfaceSize { width, height }), ..self },
            )
        } else {
            (ResizeOutcome::Applied, FrameState { phase: FramePhase::Resized, width, height, ..self })
        }
    }

    /// How a frame with surface status `status` ends, and the state it leaves.
    pub open spec fn after_end(self, status: SurfaceStatus) -> (FrameEnd, FrameState) {
        match self.pending {
            Some(p) if status != SurfaceStatus::OutOfMemory => (
                FrameEnd { action: action_for(status), resize: Some(p) },
                FrameState {
                    phase: FramePhase::Idle,
                    width: p.width,
                    height: p.height,
                    pending: None,
                },
            ),
            _ => (
                FrameEnd { action: action_for(status), resize: None },
                FrameState { phase: FramePhase::Idle, pending: None, ..self },
            ),
        }
    }

    /// A window resize to `width` by `height`. Zero in either dimension is ignored and
    /// leaves everything as it was, so nothing is reallocated. Between frames the new size
    /// is taken at once; in the middle of a frame it is held back (a later request replaces
    /// an earlier one).
    pub fn on_resize(&mut self, width: u32, height: u32) -> (r: ResizeOutcome)
        requires
            old(self).wf(),
        ensures
            final(self).wf(),
            (r, *final(self)) == old(self).after_resize(width, height),
            width == 0 || height == 0 ==> r == ResizeOutcome::Ignored && *final(self) == *old(
                self,
            ),
    {
        if width == 0 || height == 0 {
            ResizeOutcome::Ignored
        } else if self.phase == FramePhase::Updated || self.phase == FramePhase::Rendered {
            self.pending = Some(SurfaceSize { width, height });
            ResizeOutcome::Deferred
        } else {
            self.phase = FramePhase::Resized;
            self.width = width;
            self.height = height;
            ResizeOutcome::Applied
        }
    }

    /// Starts a frame's update (camera, uniforms, light). Allowed only between frames;
    /// returns whether it was.
    pub fn begin_update(&mut self) -> (r: bool)
        requires
            old(self).wf(),
        ensures
            final(self).wf(),
            r == !old(self).mid_frame(),
            r ==> *final(self) == (FrameState { phase: FramePhase::Updated, ..*old(self) }),
            !r ==> *final(self) == *old(self),
    {
        if self.phase == FramePhase::Idle || self.phase == FramePhase::Resized {
            self.phase = FramePhase::Updated;
            true
        } else {
            false
        }
    }

    /// Starts recording a frame's passes. Allowed only right after the update, so that
    /// the uniforms that the passes read are those of this frame; returns whether it was.
    pub fn begin_render(&mut self) -> (r: bool)
        requires
            old(self).wf(),
        ensures
            final(self).wf(),
            r == (old(self).phase == FramePhase::Updated),
            r ==> *final(self) == (FrameState { phase: FramePhase::Rendered, ..*old(self) }),
            !r ==> *final(self) == *old(self),
    {
        if self.phase == FramePhase::Updated {
            self.phase = FramePhase::Rendered;
            true
        } else {
            false
        }
    }

    /// Ends the current frame with the status of its surface. The loop is then between
    /// frames. A resize held back during the frame is applied now, unless the application
    /// is to shut down.
    pub fn end_frame(&mut self, status: SurfaceStatus) -> (r: FrameEnd)
        requires
            old(self).wf(),
        ensures
            final(self).wf(),
            (r, *final(self)) == old(self).after_end(status),
    {
        let action = surface_action(status);
        let mut resize: Option<SurfaceSize> = None;
        if let Some(p) = self.pending {
            if status != SurfaceStatus::OutOfMemory {
                self.width = p.width;
                self.height = p.height;
                resize = Some(p);
            }
        }
        self.pending = None;
        self.phase = FramePhase::Idle;
        FrameEnd { action, resize }
    }
}

/// A resize that arrives during a frame leaves the size of that frame's resources as it
/// was; when the frame ends, unless the application shuts down, the request is applied.
pub proof fn lemma_resize_waits_for_frame_end(
    s: FrameState,
    width: u32,
    height: u32,
    status: SurfaceStatus,
)
    requires
        s.wf(),
        s.mid_frame(),
        width > 0,
        height > 0,
        status != SurfaceStatus::OutOfMemory,
    ensures
        s.after_resize(width, height).1.width == s.width,
        s.after_resize(width, height).1.height == s.height,
        s.after_resize(width, height).1.after_end(status).0.resize == Some(
            SurfaceSize { width, height },
        ),
        s.after_resize(width, height).1.after_end(status).1.width == width,
        s.after_resize(width, height).1.after_end(status).1.height == height,
{
}

/// The surface format to use among those offered, given whether each is sRGB: the first
/// sRGB one, else the first one; none when nothing is offered.
pub fn choose_surface_format(srgb: &Vec<bool>) -> (r: Option<usize>)
    ensures
        srgb@.len() == 0 <==> r.is_none(),
        (exists|j: int| 0 <= j < srgb@.len() && srgb@[j]) ==> match r {
            Some(i) => i < srgb@.len() && srgb@[i as int] && forall|j: int|
                0 <= j < i ==> !srgb@[j],
            None => false,
        },
        (forall|j: int| 0 <= j < srgb@.len() ==> !srgb@[j]) && srgb@.len() > 0 ==> r == Some(
            0usize,
        ),
{
    let mut i: usize = 0;
    while i < srgb.len()
        invariant
            i <= srgb@.len(),
            forall|j: int| 0 <= j < i ==> !srgb@[j],
        decreases srgb.len() - i,
    {
        if srgb[i] {
            return Some(i);
        }
        i = i + 1;
    }
    if srgb.len() == 0 {
        None
    } else {
        Some(0)
    }
}

} // verus!
