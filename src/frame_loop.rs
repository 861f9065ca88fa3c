use vstd::prelude::*;

use crate::pipeline::{triangle_pass, triangle_pipeline, ClearColor, PipelineDesc, RenderPass};
use crate::surface::{PresentMode, SurfaceConfig, SurfaceSize};

verus! {

/// What the frame loop reacts to: the window's events, and the outcome of a
/// frame acquisition that the loop asked for.
#[derive(Clone, Copy, Debug, PartialEq, Eq, Structural)]
pub enum LoopEvent {
    Resized { width: u32, height: u32 },
    RedrawRequested,
    CloseRequested,
    /// The surface handed out the frame that was asked for.
    FrameAcquired,
    /// The surface could not hand out a frame (it was stale, lost, timed
    /// out or out of memory).
    SurfaceAcquireFailed,
    /// Any other window event (keyboard, mouse, focus, ...).
    Other,
}

/// Where the loop stands between two events.
#[derive(Clone, Copy, Debug, PartialEq, Eq, Structural)]
pub enum Phase {
    /// Waiting for the next event; no frame is held.
    Idle,
    /// One frame has been asked of the surface; its outcome comes next.
    AwaitingFrame,
    /// A close was requested; nothing more happens.
    Terminated,
}

/// What the caller does in answer to an event.
#[derive(Clone, Copy, Debug)]
pub enum Action<F> {
    Nothing,
    /// Apply this configuration to the surface now.
    Configure(SurfaceConfig<F>),
    /// Acquire one frame from the surface and report the outcome.
    AcquireFrame,
    /// Record this pass over the acquired frame, submit it and present the
    /// frame.
    Draw(RenderPass<F>),
    /// Acquisition failed: report it and skip this redraw.
    SkipFrame,
    /// Stop the event loop; where a frame is still held, drop it unpresented.
    Exit { discard_frame: bool },
}

/// The state of the render loop: what it was built with, the size last
/// applied to the surface, whether a redraw may render, and its phase.
#[derive(Clone, Copy, Debug)]
pub struct FrameLoop<F> {
    pub format: F,
    pub present_mode: PresentMode,
    pub pipeline: PipelineDesc<F>,
    pub clear: ClearColor,
    /// The size of the surface's live configuration; `None` until a size
    /// with no zero side has been seen.
    pub applied: Option<SurfaceSize>,
    /// False from a resize with a zero side until the next one without.
    pub ready: bool,
    pub phase: Phase,
}

/// The surface configuration for a given size.
pub open spec fn config_for<F>(format: F, present_mode: PresentMode, size: SurfaceSize) -> SurfaceConfig<F> {
    SurfaceConfig { format, size, present_mode }
}

impl<F: Copy> FrameLoop<F> {
    pub open spec fn wf(self) -> bool {
        &&& self.pipeline.describes(self.format)
        &&& self.clear.wf()
        &&& (self.applied matches Some(s) ==> s.is_drawable())
        &&& (self.ready ==> self.applied.is_some())
    }

    /// The one pass that every redraw records.
    pub open spec fn pass(self) -> RenderPass<F> {
        RenderPass {
            clear: self.clear,
            pipeline: self.pipeline,
            first_vertex: 0,
            vertex_count: 3,
            instance_count: 1,
        }
    }

    /// The state after `e`, and what the caller must do.
    pub open spec fn step(self, e: LoopEvent) -> (FrameLoop<F>, Action<F>) {
        if self.phase == Phase::Terminated {
            (self, Action::Nothing)
        } else {
            match e {
                LoopEvent::CloseRequested => (
                    FrameLoop { phase: Phase::Terminated, ..self },
                    Action::Exit { discard_frame: self.phase == Phase::AwaitingFrame },
                ),
                LoopEvent::Resized { width, height } => {
                    let size = SurfaceSize { width, height };
                    if size.is_drawable() {
                        (
                            FrameLoop { applied: Some(size), ready: true, ..self },
                            Action::Configure(config_for(self.format, self.present_mode, size)),
                        )
                    } else {
                        (FrameLoop { ready: false, ..self }, Action::Nothing)
                    }
                },
                LoopEvent::RedrawRequested => {
                    if self.phase == Phase::Idle && self.ready {
                        (FrameLoop { phase: Phase::AwaitingFrame, ..self }, Action::AcquireFrame)
                    } else {
                        (self, Action::Nothing)
                    }
                },
                LoopEvent::FrameAcquired => {
                    if self.phase == Phase::AwaitingFrame {
                        (FrameLoop { phase: Phase::Idle, ..self }, Action::Draw(self.pass()))
                    } else {
                        (self, Action::Nothing)
                    }
                },
                LoopEvent::SurfaceAcquireFailed => {
                    if self.phase == Phase::AwaitingFrame {
                        (FrameLoop { phase: Phase::Idle, ..self }, Action::SkipFrame)
                    } else {
                        (self, Action::Nothing)
                    }
                },
                LoopEvent::Other => (self, Action::Nothing),
            }
        }
    }

    /// A loop over a surface of format `format` that clears each frame to
    /// `clear`, for a window of size `window`. A window with a zero side is
    /// not configured and renders nothing until a resize gives it area.
    pub fn new(format: F, present_mode: PresentMode, window: SurfaceSize, clear: ClearColor) -> (r: FrameLoop<F>)
        requires
            clear.wf(),
        ensures
            r.wf(),
            r.format == format,
            r.present_mode == present_mode,
            r.pipeline.describes(format),
            r.clear == clear,
            r.applied == (if window.is_drawable() { Some(window) } else { None::<SurfaceSize> }),
            r.ready == window.is_drawable(),
            r.phase == Phase::Idle,
    {
        let drawable = window.is_non_zero();
        let applied = if drawable { Some(window) } else { None };
        FrameLoop {
            format,
            present_mode,
            pipeline: triangle_pipeline(format),
            clear,
            applied,
            ready: drawable,
            phase: Phase::Idle,
        }
    }

    /// The configuration to apply to the surface at startup, if any.
    pub fn configuration(&self) -> (r: Option<SurfaceConfig<F>>)
        ensures
            self.wf() ==> (r matches Some(c) ==> c.wf() && c.format == self.pipeline.color_format),
            r == (match self.applied {
                Some(s) => Some(config_for(self.format, self.present_mode, s)),
                None => None::<SurfaceConfig<F>>,
            }),
    {
        match self.applied {
            Some(s) => Some(SurfaceConfig { format: self.format, size: s, present_mode: self.present_mode }),
            None => None,
        }
    }

    pub fn is_terminated(&self) -> (r: bool)
        ensures
            r == (self.phase == Phase::Terminated),
    {
        self.phase == Phase::Terminated
    }

    /// Takes one event and says what to do about it.
    pub fn handle(&mut self, e: LoopEvent) -> (r: Action<F>)
        requires
            old(self).wf(),
        ensures
            final(self).wf(),
            (*final(self), r) == old(self).step(e),
            r matches Action::Configure(c) ==> c.wf() && c.format == final(self).pipeline.color_format,
    {
        if self.phase == Phase::Terminated {
            return Action::Nothing;
        }
        match e {
            LoopEvent::CloseRequested => {
                let discard_frame = self.phase == Phase::AwaitingFrame;
                self.phase = Phase::Terminated;
                Action::Exit { discard_frame }
            },
            LoopEvent::Resized { width, height } => {
                let size = SurfaceSize::new(width, height);
                if size.is_non_zero() {
                    self.applied = Some(size);
                    self.ready = true;
                    Action::Configure(
                        SurfaceConfig { format: self.format, size, present_mode: self.present_mode },
                    )
                } else {
                    self.ready = false;
                    Action::Nothing
                }
            },
            LoopEvent::RedrawRequested => {
                if self.phase == Phase::Idle && self.ready {
                    self.phase = Phase::AwaitingFrame;
                    Action::AcquireFrame
                } else {
                    Action::Nothing
                }
            },
            LoopEvent::FrameAcquired => {
                if self.phase == Phase::AwaitingFrame {
                    self.phase = Phase::Idle;
                    Action::Draw(triangle_pass(self.pipeline, self.clear))
                } else {
                    Action::Nothing
                }
            },
            LoopEvent::SurfaceAcquireFailed => {
                if self.phase == Phase::AwaitingFrame {
                    self.phase = Phase::Idle;
                    Action::SkipFrame
                } else {
                    Action::Nothing
                }
            },
            LoopEvent::Other => Action::Nothing,
        }
    }
}

} // verus!
