//! The frame executor: the decisions of one frame as a state machine. The
//! caller performs each action it returns (acquire an image, record, submit
//! and wait on the fence, present) and reports the outcome as the next event.

use vstd::prelude::*;
use crate::frame::{DrawCall, FrameError, frame_bytes, plan_frame, plan_matches};
use crate::scene::Scene;

verus! {

/// How far the current frame has come.
#[derive(Clone, Copy, Debug, PartialEq, Eq, Structural)]
pub enum FramePhase {
    /// No frame in progress.
    Idle,
    /// Waiting for a swapchain image.
    Acquiring,
    /// The image with this index is acquired (its fence waited on).
    ImageAcquired { image_index: u32 },
    /// The render pass on that image's framebuffer has begun.
    RenderPassOpen { image_index: u32 },
    /// Recording has ended; the command buffer is submitted and the GPU may
    /// still be reading the staging buffer.
    RenderPassClosed { image_index: u32 },
    /// The submission's fence has signalled: the GPU is done with the frame.
    Submitted { image_index: u32 },
}

/// What the caller reports back.
#[derive(Clone, Copy, Debug, PartialEq, Eq, Structural)]
pub enum FrameEvent {
    Begin,
    ImageAcquired { image_index: u32 },
    RenderPassBegun,
    RenderPassEnded,
    SubmitFenceSignaled,
    PresentDone,
}

/// What the caller is to do next.
#[derive(Clone, Copy, Debug, PartialEq, Eq, Structural)]
pub enum FrameAction {
    /// Acquire the next swapchain image with a fence and wait on it.
    AcquireImage,
    /// Allocate and begin a command buffer, begin the render pass on this
    /// image's framebuffer, cleared to opaque black.
    BeginRenderPass { image_index: u32 },
    /// For each planned draw: copy the batch to the staging buffer, point the
    /// descriptor set at it, bind, draw; then end the render pass and the
    /// command buffer.
    RecordBatches,
    /// Submit the command buffer with a new fence and wait on it.
    SubmitAndWait,
    /// Present this image.
    Present { image_index: u32 },
    /// The frame is complete.
    Finished,
    /// The event does not fit the current phase; nothing changes.
    Rejected,
}

/// The transition function: the next phase and the action to perform.
pub open spec fn next(phase: FramePhase, event: FrameEvent, image_count: u32) -> (FramePhase, FrameAction) {
    match (phase, event) {
        (FramePhase::Idle, FrameEvent::Begin) => (FramePhase::Acquiring, FrameAction::AcquireImage),
        (FramePhase::Acquiring, FrameEvent::ImageAcquired { image_index }) => if image_index
            < image_count {
            (FramePhase::ImageAcquired { image_index }, FrameAction::BeginRenderPass { image_index })
        } else {
            (phase, FrameAction::Rejected)
        },
        (FramePhase::ImageAcquired { image_index }, FrameEvent::RenderPassBegun) => (
            FramePhase::RenderPassOpen { image_index },
            FrameAction::RecordBatches,
        ),
        (FramePhase::RenderPassOpen { image_index }, FrameEvent::RenderPassEnded) => (
            FramePhase::RenderPassClosed { image_index },
            FrameAction::SubmitAndWait,
        ),
        (FramePhase::RenderPassClosed { image_index }, FrameEvent::SubmitFenceSignaled) => (
            FramePhase::Submitted { image_index },
            FrameAction::Present { image_index },
        ),
        (FramePhase::Submitted { .. }, FrameEvent::PresentDone) => (
            FramePhase::Idle,
            FrameAction::Finished,
        ),
        _ => (phase, FrameAction::Rejected),
    }
}

/// The phase after the first `n` events of `evs`, starting from `start`.
pub open spec fn phase_after(start: FramePhase, evs: Seq<FrameEvent>, n: int, image_count: u32) -> FramePhase
    decreases n,
{
    if n <= 0 {
        start
    } else {
        next(phase_after(start, evs, n - 1, image_count), evs[n - 1], image_count).0
    }
}

/// The action returned for the event `evs[n]`.
pub open spec fn action_at(start: FramePhase, evs: Seq<FrameEvent>, n: int, image_count: u32) -> FrameAction {
    next(phase_after(start, evs, n, image_count), evs[n], image_count).1
}

proof fn lemma_closed_until_fence(
    start: FramePhase,
    evs: Seq<FrameEvent>,
    image_count: u32,
    i: int,
    m: int,
)
    requires
        0 <= i < m <= evs.len(),
        action_at(start, evs, i, image_count) == FrameAction::SubmitAndWait,
        forall|k: int| i < k < m ==> !(#[trigger] action_at(start, evs, k, image_count) is Present),
    ensures
        phase_after(start, evs, m, image_count) is RenderPassClosed,
    decreases m - i,
{
    if m > i + 1 {
        lemma_closed_until_fence(start, evs, image_count, i, m - 1);
        assert(!(action_at(start, evs, m - 1, image_count) is Present));
    }
}

/// Frame isolation: once a frame's commands are submitted, no later frame
/// records batches (and so writes the staging buffer) until the
/// submission's fence has signalled, whatever events come in between.
pub proof fn lemma_frame_isolation(
    start: FramePhase,
    evs: Seq<FrameEvent>,
    image_count: u32,
    i: int,
    j: int,
)
    requires
        0 <= i < j < evs.len(),
        action_at(start, evs, i, image_count) == FrameAction::SubmitAndWait,
        action_at(start, evs, j, image_count) == FrameAction::RecordBatches,
    ensures
        exists|k: int|
            i < k < j && evs[k] == FrameEvent::SubmitFenceSignaled && (#[trigger] action_at(
                start,
                evs,
                k,
                image_count,
            ) is Present),
{
    if !exists|k: int| i < k < j && (#[trigger] action_at(start, evs, k, image_count) is Present) {
        lemma_closed_until_fence(start, evs, image_count, i, j);
        assert(false);
    } else {
        let k = choose|k: int| i < k < j && (#[trigger] action_at(start, evs, k, image_count) is Present);
        assert(evs[k] == FrameEvent::SubmitFenceSignaled);
    }
}

/// Drives the frames of one renderer.
#[derive(Clone, Debug)]
pub struct FrameExecutor {
    pub phase: FramePhase,
    pub image_count: u32,
    pub capacity: u64,
    pub draws: Vec<DrawCall>,
}

impl FrameExecutor {
    /// An idle executor over `image_count` swapchain images and a staging
    /// buffer of `capacity` bytes.
    pub fn new(image_count: u32, capacity: u64) -> (r: FrameExecutor)
        ensures
            r.phase == FramePhase::Idle,
            r.image_count == image_count,
            r.capacity == capacity,
            r.draws@.len() == 0,
    {
        FrameExecutor { phase: FramePhase::Idle, image_count, capacity, draws: Vec::new() }
    }

    /// Takes one event: moves to the next phase and returns the action.
    pub fn step(&mut self, event: FrameEvent) -> (a: FrameAction)
        ensures
            (final(self).phase, a) == next(old(self).phase, event, old(self).image_count),
            final(self).image_count == old(self).image_count,
            final(self).capacity == old(self).capacity,
            final(self).draws@ == old(self).draws@,
    {
        let (phase, action) = match (self.phase, event) {
            (FramePhase::Idle, FrameEvent::Begin) => (FramePhase::Acquiring, FrameAction::AcquireImage),
            (FramePhase::Acquiring, FrameEvent::ImageAcquired { image_index }) => {
                if image_index < self.image_count {
                    (
                        FramePhase::ImageAcquired { image_index },
                        FrameAction::BeginRenderPass { image_index },
                    )
                } else {
                    (self.phase, FrameAction::Rejected)
                }
            },
            (FramePhase::ImageAcquired { image_index }, FrameEvent::RenderPassBegun) => (
                FramePhase::RenderPassOpen { image_index },
                FrameAction::RecordBatches,
            ),
            (FramePhase::RenderPassOpen { image_index }, FrameEvent::RenderPassEnded) => (
                FramePhase::RenderPassClosed { image_index },
                FrameAction::SubmitAndWait,
            ),
            (FramePhase::RenderPassClosed { image_index }, FrameEvent::SubmitFenceSignaled) => (
                FramePhase::Submitted { image_index },
                FrameAction::Present { image_index },
            ),
            (FramePhase::Submitted { .. }, FrameEvent::PresentDone) => (
                FramePhase::Idle,
                FrameAction::Finished,
            ),
            _ => (self.phase, FrameAction::Rejected),
        };
        self.phase = phase;
        action
    }

    /// Starts a frame for `scene`: plans its draws against the staging
    /// buffer, then takes the `Begin` event. Fails, changing nothing, where a
    /// frame is in progress or the batches do not fit.
    pub fn begin_frame(&mut self, scene: &Scene) -> (r: Result<FrameAction, FrameError>)
        requires
            scene.wf(),
            old(self).capacity <= u32::MAX,
        ensures
            final(self).image_count == old(self).image_count,
            final(self).capacity == old(self).capacity,
            old(self).phase != FramePhase::Idle ==> r == Err::<FrameAction, FrameError>(
                FrameError::Busy,
            ) && *final(self) == *old(self),
            old(self).phase == FramePhase::Idle ==> {
                &&& r is Ok <==> frame_bytes(scene.batches@) <= old(self).capacity
                &&& match r {
                    Ok(a) => {
                        &&& a == FrameAction::AcquireImage
                        &&& final(self).phase == FramePhase::Acquiring
                        &&& plan_matches(final(self).draws@, scene.batches@)
                    },
                    Err(e) => e == FrameError::StagingOverflow && *final(self) == *old(self),
                }
            },
    {
        if self.phase != FramePhase::Idle {
            return Err(FrameError::Busy);
        }
        match plan_frame(scene, self.capacity) {
            Err(e) => Err(e),
            Ok(draws) => {
                self.draws = draws;
                Ok(self.step(FrameEvent::Begin))
            },
        }
    }

    /// The draws planned for the current frame.
    pub fn draws(&self) -> (r: &[DrawCall])
        ensures
            r@ == self.draws@,
    {
        self.draws.as_slice()
    }
}

} // verus!
