use vstd::prelude::*;
use crate::extent::Extent;
use crate::swapchain::{EngineError, RecreateResponse, SwapchainState};

verus! {

/// Where the render loop stands within a frame.
#[derive(Clone, Copy, PartialEq, Eq, Structural, Debug)]
pub enum Phase {
    /// Between frames, nothing in flight.
    Idle,
    /// A redraw tick arrived: recreation (if pending) and acquisition happen
    /// here, before any frame state is touched.
    FrameBegin,
    /// An image is acquired and the render callback runs.
    Rendering,
    /// The frame's work is submitted to the queue.
    Submitted,
    /// The frame was presented (or degraded); the next tick may begin.
    Presented,
    /// The frame was abandoned because the chain is stale; recreation is
    /// scheduled for the next tick.
    ResizePending,
    /// A close was requested: the loop terminates, no further work starts.
    ShuttingDown,
}

/// An event delivered by the platform event source.
#[derive(Clone, Copy, PartialEq, Eq, Structural, Debug)]
pub enum PlatformEvent {
    CloseRequested,
    Resized { width: u32, height: u32 },
    RedrawTick,
}

/// What the loop driver must do after handing an event to the orchestrator.
#[derive(Clone, Copy, PartialEq, Eq, Structural, Debug)]
pub enum LoopAction {
    /// Terminate the loop; no further frame may start.
    Exit,
    /// Wait for the next event.
    Wait,
    /// Run one frame: recreate if needed, acquire, render, submit, present.
    BeginFrame,
}

/// What image acquisition reported. A stale chain (out-of-date or
/// suboptimal) is reported as `OutOfDate`.
#[derive(Clone, Copy, PartialEq, Eq, Structural, Debug)]
pub enum AcquireOutcome {
    Acquired { image_index: usize },
    OutOfDate,
}

/// What presentation reported.
#[derive(Clone, Copy, PartialEq, Eq, Structural, Debug)]
pub enum PresentOutcome {
    Presented,
    OutOfDate,
    OtherFailure,
}

/// The completion token the orchestrator holds between frames: `id` is fresh
/// for every frame, and `immediately_ready` marks the degraded token that
/// stands in for a frame whose presentation failed (and the initial token,
/// which guards nothing).
#[derive(Clone, Copy, PartialEq, Eq, Structural, Debug)]
pub struct FrameToken {
    pub id: u64,
    pub immediately_ready: bool,
}

/// What the render callback receives for one frame: the index of the
/// acquired image (also the index of its framebuffer) and the previous
/// frame's completion token, which the callback must join with the
/// acquisition signal before submitting.
#[derive(Clone, Copy, PartialEq, Eq, Structural, Debug)]
pub struct FrameContext {
    pub image_index: usize,
    pub prior_token: FrameToken,
}

/// The frame orchestrator: the state machine that drives the render loop.
/// It owns the swapchain state, the render targets derived from it, and the
/// single in-flight completion token.
pub struct Orchestrator {
    pub phase: Phase,
    /// Set by a resize event or a stale chain; acted on at the next
    /// frame begin, never immediately.
    pub resize_pending: bool,
    /// The window's current pixel size, as last reported.
    pub window_extent: Extent,
    pub swapchain: SwapchainState,
    /// One framebuffer per swapchain image; each records the extent it was
    /// built for.
    pub framebuffers: Vec<Extent>,
    /// Render target dimensions, derived from the swapchain image size.
    pub viewport: Extent,
    /// The previous frame's completion token.
    pub frame_token: FrameToken,
    /// Source of fresh token identities.
    pub next_token_id: u64,
}

impl Orchestrator {
    /// Well-formedness: render targets always track the chain — one
    /// framebuffer per swapchain image, every framebuffer and the viewport
    /// sized to the chain's current extent — and the held token's identity
    /// is older than every identity still to be issued.
    pub open spec fn wf(self) -> bool {
        &&& self.swapchain.wf()
        &&& self.framebuffers@.len() == self.swapchain.image_count
        &&& forall|i: int|
            0 <= i < self.framebuffers@.len() ==> self.framebuffers@[i] == self.swapchain.extent
        &&& self.viewport == self.swapchain.extent
        &&& self.frame_token.id < self.next_token_id
    }

    /// True between frames: no acquisition, render or submission is in
    /// flight.
    pub open spec fn between_frames(self) -> bool {
        ||| self.phase is Idle
        ||| self.phase is Presented
        ||| self.phase is ResizePending
        ||| self.phase is ShuttingDown
    }

    /// The fields a frame step must not touch: chain, render targets and
    /// window size.
    pub open spec fn same_targets(a: Orchestrator, b: Orchestrator) -> bool {
        &&& a.swapchain == b.swapchain
        &&& a.framebuffers@ == b.framebuffers@
        &&& a.viewport == b.viewport
        &&& a.window_extent == b.window_extent
    }

    /// The synchronization fields: the held token and the identity source.
    pub open spec fn same_sync(a: Orchestrator, b: Orchestrator) -> bool {
        &&& a.frame_token == b.frame_token
        &&& a.next_token_id == b.next_token_id
    }

    /// Assembles the orchestrator around a freshly created chain: render
    /// targets are built for it, the loop starts idle with no resize
    /// pending, and the initial token is immediately ready (it guards no
    /// prior work).
    pub fn new(swapchain: SwapchainState, window_extent: Extent) -> (r: Orchestrator)
        requires
            swapchain.wf(),
        ensures
            r.wf(),
            r.phase is Idle,
            !r.resize_pending,
            r.window_extent == window_extent,
            r.swapchain == swapchain,
            r.framebuffers@.len() == swapchain.image_count,
            forall|i: int| 0 <= i < r.framebuffers@.len() ==> r.framebuffers@[i] == swapchain.extent,
            r.viewport == swapchain.extent,
            r.frame_token.immediately_ready,
            r.frame_token.id == 0,
            r.next_token_id == 1,
    {
        let framebuffers = size_dependent_framebuffers(swapchain.extent, swapchain.image_count);
        Orchestrator {
            phase: Phase::Idle,
            resize_pending: false,
            window_extent,
            viewport: swapchain.extent,
            swapchain,
            framebuffers,
            frame_token: FrameToken { id: 0, immediately_ready: true },
            next_token_id: 1,
        }
    }

    /// Feeds one platform event to the state machine and says what the loop
    /// driver must do next. A close request moves to `ShuttingDown` from any
    /// state and answers `Exit`; once shutting down, every event answers
    /// `Exit` and changes nothing, so no further acquisition or submission
    /// ever starts. A resize only records the new size and sets the pending
    /// flag — it is acted on at the next frame begin. A redraw tick begins a
    /// frame.
    pub fn on_event(&mut self, e: PlatformEvent) -> (r: LoopAction)
        requires
            old(self).wf(),
            e is RedrawTick ==> old(self).between_frames(),
        ensures
            final(self).wf(),
            old(self).phase is ShuttingDown ==> r is Exit && *final(self) == *old(self),
            !(old(self).phase is ShuttingDown) ==> match e {
                PlatformEvent::CloseRequested => {
                    &&& r is Exit
                    &&& final(self).phase is ShuttingDown
                    &&& final(self).resize_pending == old(self).resize_pending
                    &&& Self::same_targets(*final(self), *old(self))
                    &&& Self::same_sync(*final(self), *old(self))
                },
                PlatformEvent::Resized { width, height } => {
                    &&& r is Wait
                    &&& final(self).phase == old(self).phase
                    &&& final(self).resize_pending
                    &&& final(self).window_extent == (Extent { width, height })
                    &&& final(self).swapchain == old(self).swapchain
                    &&& final(self).framebuffers@ == old(self).framebuffers@
                    &&& final(self).viewport == old(self).viewport
                    &&& Self::same_sync(*final(self), *old(self))
                },
                PlatformEvent::RedrawTick => {
                    &&& r is BeginFrame
                    &&& final(self).phase is FrameBegin
                    &&& final(self).resize_pending == old(self).resize_pending
                    &&& Self::same_targets(*final(self), *old(self))
                    &&& Self::same_sync(*final(self), *old(self))
                },
            },
    {
        match self.phase {
            Phase::ShuttingDown => LoopAction::Exit,
            _ => match e {
                PlatformEvent::CloseRequested => {
                    self.phase = Phase::ShuttingDown;
                    LoopAction::Exit
                },
                PlatformEvent::Resized { width, height } => {
                    self.resize_pending = true;
                    self.window_extent = Extent { width, height };
                    LoopAction::Wait
                },
                PlatformEvent::RedrawTick => {
                    self.phase = Phase::FrameBegin;
                    LoopAction::BeginFrame
                },
            },
        }
    }

    /// True when the next frame must recreate the chain before acquiring.
    pub fn needs_recreate(&self) -> (r: bool)
        ensures
            r == self.resize_pending,
    {
        self.resize_pending
    }

    /// Applies the driver's answer to the recreation requested at frame
    /// begin (for the window's current extent, reusing the chain's
    /// configuration). On success the chain, the framebuffers and the
    /// viewport are rebuilt together and the pending flag is cleared, so the
    /// next frame reuses the chain rather than recreating again. An
    /// unsupported extent changes nothing — the flag stays set and a later
    /// tick retries. Any other failure is fatal and changes nothing.
    pub fn apply_recreate(&mut self, response: RecreateResponse) -> (r: Result<(), EngineError>)
        requires
            old(self).wf(),
            old(self).phase is FrameBegin,
            old(self).resize_pending,
            response matches RecreateResponse::Success { image_count } ==> image_count >= 1,
        ensures
            final(self).wf(),
            final(self).phase is FrameBegin,
            Self::same_sync(*final(self), *old(self)),
            final(self).window_extent == old(self).window_extent,
            match response {
                RecreateResponse::Success { image_count } => {
                    &&& r is Ok
                    &&& !final(self).resize_pending
                    &&& final(self).swapchain.config == old(self).swapchain.config
                    &&& final(self).swapchain.extent == old(self).window_extent
                    &&& final(self).swapchain.image_count == image_count
                    &&& final(self).framebuffers@.len() == image_count
                    &&& forall|i: int|
                        0 <= i < final(self).framebuffers@.len() ==> final(self).framebuffers@[i]
                            == old(self).window_extent
                    &&& final(self).viewport == old(self).window_extent
                },
                RecreateResponse::ExtentUnsupported => {
                    &&& r is Ok
                    &&& *final(self) == *old(self)
                },
                RecreateResponse::Failure => {
                    &&& r == Err::<(), EngineError>(EngineError::SwapchainRecreationFailed)
                    &&& *final(self) == *old(self)
                },
            },
    {
        let target = self.window_extent;
        match self.swapchain.recreate_swapchain(target, response) {
            Ok(true) => {
                self.framebuffers = size_dependent_framebuffers(
                    self.swapchain.extent,
                    self.swapchain.image_count,
                );
                self.viewport = self.swapchain.extent;
                self.resize_pending = false;
                Ok(())
            },
            Ok(false) => Ok(()),
            Err(e) => Err(e),
        }
    }

    /// Applies the acquisition outcome. A stale chain abandons the frame: no
    /// frame context is produced — so the render callback is never invoked
    /// for this tick — and recreation is scheduled for the next tick. A
    /// successful acquisition yields the frame context: the acquired image's
    /// index and the previous frame's completion token.
    pub fn on_acquire(&mut self, outcome: AcquireOutcome) -> (r: Option<FrameContext>)
        requires
            old(self).wf(),
            old(self).phase is FrameBegin,
            outcome matches AcquireOutcome::Acquired { image_index } ==> image_index < old(
                self,
            ).swapchain.image_count,
        ensures
            final(self).wf(),
            Self::same_targets(*final(self), *old(self)),
            Self::same_sync(*final(self), *old(self)),
            match outcome {
                AcquireOutcome::Acquired { image_index } => {
                    &&& r == Some(
                        FrameContext { image_index, prior_token: old(self).frame_token },
                    )
                    &&& final(self).phase is Rendering
                    &&& final(self).resize_pending == old(self).resize_pending
                },
                AcquireOutcome::OutOfDate => {
                    &&& r is None
                    &&& final(self).phase is ResizePending
                    &&& final(self).resize_pending
                },
            },
    {
        match outcome {
            AcquireOutcome::Acquired { image_index } => {
                self.phase = Phase::Rendering;
                Some(FrameContext { image_index, prior_token: self.frame_token })
            },
            AcquireOutcome::OutOfDate => {
                self.phase = Phase::ResizePending;
                self.resize_pending = true;
                None
            },
        }
    }

    /// Records that the render callback returned and the frame's combined
    /// work was handed to the queue. Rendering always precedes submission.
    pub fn on_submitted(&mut self)
        requires
            old(self).wf(),
            old(self).phase is Rendering,
        ensures
            final(self).wf(),
            final(self).phase is Submitted,
            final(self).resize_pending == old(self).resize_pending,
            Self::same_targets(*final(self), *old(self)),
            Self::same_sync(*final(self), *old(self)),
    {
        self.phase = Phase::Submitted;
    }

    /// Applies the presentation outcome and replaces the held completion
    /// token — never mutates it in place: whatever was reported, the new
    /// token's identity is fresh, so it differs from the one held before.
    /// After success the token stands for the frame's real completion; after
    /// an out-of-date report recreation is scheduled and the token degrades
    /// to an immediately-ready one; after any other failure the token
    /// likewise degrades (reported, non-fatal) so the loop keeps running.
    pub fn on_present(&mut self, outcome: PresentOutcome)
        requires
            old(self).wf(),
            old(self).phase is Submitted,
            old(self).next_token_id < u64::MAX,
        ensures
            final(self).wf(),
            final(self).phase is Presented,
            Self::same_targets(*final(self), *old(self)),
            final(self).frame_token != old(self).frame_token,
            final(self).frame_token.id == old(self).next_token_id,
            final(self).next_token_id == old(self).next_token_id + 1,
            match outcome {
                PresentOutcome::Presented => {
                    &&& !final(self).frame_token.immediately_ready
                    &&& final(self).resize_pending == old(self).resize_pending
                },
                PresentOutcome::OutOfDate => {
                    &&& final(self).frame_token.immediately_ready
                    &&& final(self).resize_pending
                },
                PresentOutcome::OtherFailure => {
                    &&& final(self).frame_token.immediately_ready
                    &&& final(self).resize_pending == old(self).resize_pending
                },
            },
    {
        let id = self.next_token_id;
        self.next_token_id = id + 1;
        match outcome {
            PresentOutcome::Presented => {
                self.frame_token = FrameToken { id, immediately_ready: false };
            },
            PresentOutcome::OutOfDate => {
                self.frame_token = FrameToken { id, immediately_ready: true };
                self.resize_pending = true;
            },
            PresentOutcome::OtherFailure => {
                self.frame_token = FrameToken { id, immediately_ready: true };
            },
        }
        self.phase = Phase::Presented;
    }
}

/// Builds the size-dependent render targets for a chain: one framebuffer
/// record per swapchain image, each sized to the chain's extent.
pub fn size_dependent_framebuffers(chain_extent: Extent, image_count: usize) -> (r: Vec<Extent>)
    ensures
        r@.len() == image_count,
        forall|i: int| 0 <= i < r@.len() ==> r@[i] == chain_extent,
{
    let mut r: Vec<Extent> = Vec::new();
    for k in 0..image_count
        invariant
            r@.len() == k,
            forall|i: int| 0 <= i < r@.len() ==> r@[i] == chain_extent,
    {
        r.push(chain_extent);
    }
    r
}

/// Render targets always track the chain: in every well-formed orchestrator
/// state — and every orchestrator operation both requires and re-establishes
/// well-formedness — the framebuffer count equals the swapchain's image
/// count, every framebuffer's recorded dimensions equal the swapchain's
/// current image extent, and so do the viewport's.
pub proof fn lemma_render_targets_track_swapchain(o: Orchestrator)
    requires
        o.wf(),
    ensures
        o.framebuffers@.len() == o.swapchain.image_count,
        forall|i: int| 0 <= i < o.framebuffers@.len() ==> o.framebuffers@[i] == o.swapchain.extent,
        o.viewport == o.swapchain.extent,
{
}

/// Shutdown is absorbing: once the orchestrator is shutting down it is never
/// mid-frame, so no acquisition, render or submission step's precondition
/// can hold, and `on_event` answers `Exit` to every further event.
pub proof fn lemma_shutdown_stops_frames(o: Orchestrator)
    requires
        o.phase is ShuttingDown,
    ensures
        o.between_frames(),
        !(o.phase is FrameBegin),
        !(o.phase is Rendering),
        !(o.phase is Submitted),
{
}

} // verus!
