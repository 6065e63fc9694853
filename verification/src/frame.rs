//! Frame loop controller: the strict two-phase begin/end frame protocol
//! required by the compositor.
//!
//! The blocking runtime calls (frame wait, frame begin, image acquire, image
//! wait, image release) are performed by the embedding application, which
//! reports their outcomes here as plain values. The controller decides what
//! each outcome means for the protocol, keeps image acquisition and release
//! paired one-to-one per frame, and builds the composition layer geometry
//! for submission.

use vstd::prelude::*;

verus! {

/// Frame timing handed back by the runtime when a frame is opened.
#[derive(Clone, Copy, PartialEq, Eq, Structural, Debug)]
pub struct FrameTiming {
    /// Nanosecond timestamp at which the frame is predicted to display.
    pub predicted_display_time: i64,
    /// Predicted interval in nanoseconds until the next display time.
    pub predicted_display_period: i64,
    /// Whether the runtime wants this frame rendered.
    pub should_render: bool,
}

/// The runtime call inside `begin_frame` that failed.
#[derive(Clone, Copy, PartialEq, Eq, Structural, Debug)]
pub enum BeginFramePhase {
    /// Blocking until the runtime signals it is time to render.
    Wait,
    /// Opening the frame for submission.
    Begin,
    /// Acquiring the next swapchain image index.
    Acquire,
    /// Waiting until the acquired image is safe to write.
    WaitImage,
}

/// Outcome of the runtime call sequence of `begin_frame`, as performed by
/// the embedding application: wait, then begin, then acquire, then wait on
/// the acquired image.
#[derive(Clone, Copy, PartialEq, Eq, Structural, Debug)]
pub enum BeginFrameOutcome {
    /// Every call succeeded: the frame is open and `image_index` is safe to
    /// write.
    Success {
        /// Timing reported by the runtime's frame wait.
        timing: FrameTiming,
        /// Index of the acquired swapchain image.
        image_index: usize,
    },
    /// The frame wait failed; nothing was opened or acquired.
    WaitFailed,
    /// The frame open failed; nothing was acquired.
    BeginFailed,
    /// Image acquisition failed; nothing was acquired.
    AcquireFailed,
    /// An image was acquired but waiting for it failed: the image stays
    /// unreleased and the session must be torn down.
    WaitImageFailed {
        /// Index of the image that was acquired and is now stranded.
        image_index: usize,
    },
}

/// `begin_frame` failed; the frame is dropped and no `end_frame` may follow
/// it.
#[derive(Clone, Copy, PartialEq, Eq, Structural, Debug)]
pub struct FrameAcquisitionError {
    /// Which runtime call failed.
    pub phase: BeginFramePhase,
}

/// Releasing the acquired image failed: its state is undefined and the
/// session must be torn down.
#[derive(Clone, Copy, PartialEq, Eq, Structural, Debug)]
pub struct FrameSubmissionError;

/// Composition layer geometry for one eye: the sub-region of the swapchain
/// image that holds this eye's view. The pose and field of view recorded
/// for the eye are attached by the embedding application, which owns them.
#[derive(Clone, Copy, PartialEq, Eq, Structural, Debug)]
pub struct LayerView {
    /// Which layer of the swapchain image array this eye reads.
    pub image_array_index: u32,
    /// Horizontal offset of the sub-image rectangle.
    pub rect_offset_x: i32,
    /// Vertical offset of the sub-image rectangle.
    pub rect_offset_y: i32,
    /// Width of the sub-image rectangle.
    pub rect_width: i32,
    /// Height of the sub-image rectangle.
    pub rect_height: i32,
}

/// Everything the embedding application needs to submit the finished frame:
/// one composition layer view per eye and the frame's predicted display
/// time.
#[derive(Clone, Copy, PartialEq, Eq, Structural, Debug)]
pub struct FrameSubmission {
    /// Predicted display time recorded when the frame was opened.
    pub display_time: i64,
    /// Whether the runtime asked for this frame to be rendered.
    pub should_render: bool,
    /// Layer view for the left eye (image array layer 0).
    pub left: LayerView,
    /// Layer view for the right eye (image array layer 1).
    pub right: LayerView,
}

/// The frame loop controller. It owns the protocol state of the swapchain:
/// whether an image is currently acquired, and the transient state of the
/// frame being built.
pub struct FrameController {
    /// Width of the swapchain images, fixed at creation.
    pub swapchain_width: u32,
    /// Height of the swapchain images, fixed at creation.
    pub swapchain_height: u32,
    /// A swapchain image is acquired and not yet released.
    pub acquired: bool,
    /// A release failed or an acquired image was stranded: the swapchain
    /// state is undefined and the session must be torn down.
    pub needs_teardown: bool,
    /// Timing of the frame currently open.
    pub timing: FrameTiming,
    /// Index of the acquired swapchain image.
    pub image_index: usize,
    /// How many images have been acquired over the controller's life.
    pub acquire_count: Ghost<nat>,
    /// How many release attempts have been made over the controller's life.
    pub release_count: Ghost<nat>,
}

/// Protocol well-formedness: acquisitions and releases pair one-to-one,
/// with at most the currently held image outstanding, and the sub-image
/// rectangle fits the signed extent the compositor expects.
pub open spec fn frame_wf(c: FrameController) -> bool {
    &&& c.acquire_count@ == c.release_count@ + (if c.acquired {
        1nat
    } else {
        0nat
    })
    &&& c.swapchain_width <= i32::MAX
    &&& c.swapchain_height <= i32::MAX
}

/// Effect of `begin_frame` on the controller, given the reported outcome.
/// A failure before acquisition leaves the controller exactly as it was; a
/// failure after acquisition strands the image and poisons the controller.
pub open spec fn begin_spec(c: FrameController, outcome: BeginFrameOutcome) -> (FrameController, Result<
    (),
    FrameAcquisitionError,
>) {
    match outcome {
        BeginFrameOutcome::Success { timing, image_index } => (
            FrameController {
                acquired: true,
                timing,
                image_index,
                acquire_count: Ghost(c.acquire_count@ + 1),
                ..c
            },
            Ok(()),
        ),
        BeginFrameOutcome::WaitFailed => (
            c,
            Err(FrameAcquisitionError { phase: BeginFramePhase::Wait }),
        ),
        BeginFrameOutcome::BeginFailed => (
            c,
            Err(FrameAcquisitionError { phase: BeginFramePhase::Begin }),
        ),
        BeginFrameOutcome::AcquireFailed => (
            c,
            Err(FrameAcquisitionError { phase: BeginFramePhase::Acquire }),
        ),
        BeginFrameOutcome::WaitImageFailed { image_index } => (
            FrameController {
                acquired: true,
                needs_teardown: true,
                image_index,
                acquire_count: Ghost(c.acquire_count@ + 1),
                ..c
            },
            Err(FrameAcquisitionError { phase: BeginFramePhase::WaitImage }),
        ),
    }
}

/// The composition layer geometry for one eye: the full swapchain extent at
/// the eye's own image array layer.
pub open spec fn layer_view_spec(c: FrameController, eye: u32) -> LayerView {
    LayerView {
        image_array_index: eye,
        rect_offset_x: 0,
        rect_offset_y: 0,
        rect_width: c.swapchain_width as i32,
        rect_height: c.swapchain_height as i32,
    }
}

/// Effect of `end_frame`: exactly one release attempt is made for the
/// acquired image. If it succeeds the submission is built from the frame's
/// recorded timing, one layer per eye over the full image extent; if it
/// fails the controller is poisoned.
pub open spec fn end_spec(c: FrameController, release_ok: bool) -> (FrameController, Result<
    FrameSubmission,
    FrameSubmissionError,
>) {
    let released = FrameController {
        acquired: false,
        release_count: Ghost(c.release_count@ + 1),
        ..c
    };
    if release_ok {
        (
            released,
            Ok(
                FrameSubmission {
                    display_time: c.timing.predicted_display_time,
                    should_render: c.timing.should_render,
                    left: layer_view_spec(c, 0),
                    right: layer_view_spec(c, 1),
                },
            ),
        )
    } else {
        (FrameController { needs_teardown: true, ..released }, Err(FrameSubmissionError))
    }
}

impl FrameController {
    /// A fresh controller for a swapchain of the given extent: no image
    /// acquired, no frame open.
    pub fn new(swapchain_width: u32, swapchain_height: u32) -> (c: FrameController)
        requires
            swapchain_width <= i32::MAX,
            swapchain_height <= i32::MAX,
        ensures
            c == (FrameController {
                swapchain_width,
                swapchain_height,
                acquired: false,
                needs_teardown: false,
                timing: FrameTiming {
                    predicted_display_time: 0,
                    predicted_display_period: 0,
                    should_render: false,
                },
                image_index: 0,
                acquire_count: Ghost(0nat),
                release_count: Ghost(0nat),
            }),
            frame_wf(c),
    {
        FrameController {
            swapchain_width,
            swapchain_height,
            acquired: false,
            needs_teardown: false,
            timing: FrameTiming {
                predicted_display_time: 0,
                predicted_display_period: 0,
                should_render: false,
            },
            image_index: 0,
            acquire_count: Ghost(0nat),
            release_count: Ghost(0nat),
        }
    }

    /// Open a frame: record the outcome of the wait/begin/acquire/wait
    /// sequence performed by the embedding application.
    ///
    /// On success the frame is open and its image index and timing are
    /// recorded. On failure the frame is dropped and no `end_frame` may
    /// follow it; if the failure came after acquisition the controller is
    /// poisoned and the session must be torn down.
    pub fn begin_frame(&mut self, outcome: BeginFrameOutcome) -> (r: Result<
        (),
        FrameAcquisitionError,
    >)
        requires
            !old(self).acquired,
            !old(self).needs_teardown,
            frame_wf(*old(self)),
        ensures
            (*final(self), r) == begin_spec(*old(self), outcome),
            frame_wf(*final(self)),
            r is Ok ==> final(self).acquired && !final(self).needs_teardown,
    {
        match outcome {
            BeginFrameOutcome::Success { timing, image_index } => {
                self.acquired = true;
                self.timing = timing;
                self.image_index = image_index;
                self.acquire_count = Ghost(self.acquire_count@ + 1);
                Ok(())
            },
            BeginFrameOutcome::WaitFailed => Err(
                FrameAcquisitionError { phase: BeginFramePhase::Wait },
            ),
            BeginFrameOutcome::BeginFailed => Err(
                FrameAcquisitionError { phase: BeginFramePhase::Begin },
            ),
            BeginFrameOutcome::AcquireFailed => Err(
                FrameAcquisitionError { phase: BeginFramePhase::Acquire },
            ),
            BeginFrameOutcome::WaitImageFailed { image_index } => {
                self.acquired = true;
                self.needs_teardown = true;
                self.image_index = image_index;
                self.acquire_count = Ghost(self.acquire_count@ + 1);
                Err(FrameAcquisitionError { phase: BeginFramePhase::WaitImage })
            },
        }
    }

    /// Close the frame: record whether the image release succeeded, and on
    /// success hand back everything needed to submit the layer set.
    ///
    /// Exactly one release attempt is made per acquisition. A failed
    /// release poisons the controller: the image state is undefined and the
    /// session must be torn down.
    pub fn end_frame(&mut self, release_ok: bool) -> (r: Result<
        FrameSubmission,
        FrameSubmissionError,
    >)
        requires
            old(self).acquired,
            !old(self).needs_teardown,
            frame_wf(*old(self)),
        ensures
            (*final(self), r) == end_spec(*old(self), release_ok),
            frame_wf(*final(self)),
            !final(self).acquired,
    {
        self.acquired = false;
        self.release_count = Ghost(self.release_count@ + 1);
        if release_ok {
            Ok(
                FrameSubmission {
                    display_time: self.timing.predicted_display_time,
                    should_render: self.timing.should_render,
                    left: LayerView {
                        image_array_index: 0,
                        rect_offset_x: 0,
                        rect_offset_y: 0,
                        rect_width: self.swapchain_width as i32,
                        rect_height: self.swapchain_height as i32,
                    },
                    right: LayerView {
                        image_array_index: 1,
                        rect_offset_x: 0,
                        rect_offset_y: 0,
                        rect_width: self.swapchain_width as i32,
                        rect_height: self.swapchain_height as i32,
                    },
                },
            )
        } else {
            self.needs_teardown = true;
            Err(FrameSubmissionError)
        }
    }
}

/// Law: a begin followed immediately by an end, under nominal runtime
/// responses, does not error; exactly one acquisition and one release occur
/// across the pair, and the controller is ready for the next frame.
pub proof fn lemma_begin_end_nominal(
    c: FrameController,
    timing: FrameTiming,
    image_index: usize,
)
    requires
        frame_wf(c),
        !c.acquired,
        !c.needs_teardown,
    ensures
        ({
            let (c1, r1) = begin_spec(c, BeginFrameOutcome::Success { timing, image_index });
            let (c2, r2) = end_spec(c1, true);
            &&& r1 is Ok
            &&& r2 is Ok
            &&& c2.acquire_count@ == c.acquire_count@ + 1
            &&& c2.release_count@ == c.release_count@ + 1
            &&& !c2.acquired
            &&& !c2.needs_teardown
            &&& frame_wf(c2)
            &&& r2->Ok_0.display_time == timing.predicted_display_time
        }),
{
}

} // verus!
