use vstd::prelude::*;
use crate::present::{
    Extent, Presentation, PresentationState, Recreation, RecreateOutcome, Validity,
    ensure_valid_next, recreated_next,
};

verus! {

/// The part of an iteration that failed beyond repair.
#[derive(Clone, Copy, Debug, PartialEq, Eq, Structural)]
pub enum FailedStage {
    Recreate,
    Acquire,
    Submit,
    /// The driver reported an event that the current stage does not expect.
    Protocol,
}

/// What acquiring the next presentable image gave.
#[derive(Clone, Copy, Debug, PartialEq, Eq, Structural)]
pub enum AcquireOutcome {
    Image { index: usize },
    OutOfDate,
    Failed,
}

/// What submitting the frame and presenting its image gave.
#[derive(Clone, Copy, Debug, PartialEq, Eq, Structural)]
pub enum SubmitOutcome {
    Presented,
    OutOfDate,
    Failed,
}

/// Where the frame loop stands, and so which event it waits for.
#[derive(Clone, Copy, Debug, PartialEq, Eq, Structural)]
pub enum Stage {
    /// Between iterations: waits for `Tick`.
    Idle,
    /// Waits for `Reclaimed`.
    Reclaiming,
    /// Waits for `WindowExtent`.
    Measuring,
    /// Waits for `Recreated`.
    Recreating { requested: Extent },
    /// Waits for `AttachmentsReset`.
    Resetting,
    /// Waits for `FramebuffersBuilt`.
    Framing,
    /// Waits for `Acquired`.
    Acquiring,
    /// Waits for `Submitted`.
    Presenting { image: usize },
    /// Waits for `EventsPumped`.
    Pumping,
    /// Waits for `Updated`.
    Updating,
    /// The application stopped running.
    Stopped,
    Failed { stage: FailedStage },
}

/// What the driver reports back after performing an action.
#[derive(Clone, Copy, Debug, PartialEq, Eq, Structural)]
pub enum Event {
    Tick { running: bool },
    Reclaimed,
    WindowExtent { extent: Extent },
    Recreated { outcome: RecreateOutcome },
    AttachmentsReset,
    FramebuffersBuilt,
    Acquired { outcome: AcquireOutcome },
    Submitted { outcome: SubmitOutcome },
    EventsPumped { resized: bool },
    Updated,
}

/// What the driver is to do next.
#[derive(Clone, Copy, Debug, PartialEq, Eq, Structural)]
pub enum Action {
    /// Ask the application whether it still runs; report `Tick`.
    CheckRunning,
    /// Reclaim what completed frames held, without waiting; report `Reclaimed`.
    Reclaim,
    /// Read the window's drawable extent; report `WindowExtent`.
    QueryExtent,
    /// Recreate the swapchain at `extent`; report `Recreated`.
    Recreate { extent: Extent },
    /// Recreate the depth buffer and the camera projection at `extent` and
    /// drop the cached framebuffers; report `AttachmentsReset`.
    ResetAttachments { extent: Extent },
    /// Build one framebuffer per swapchain image; report `FramebuffersBuilt`.
    BuildFramebuffers { count: usize },
    /// Acquire the next presentable image; report `Acquired`.
    Acquire,
    /// Upload the frame's uniforms, record the draw list into the
    /// framebuffer of `image` with a viewport of `extent`, submit it after
    /// the previous frame and the acquisition, and present `image`; report
    /// `Submitted`.
    RecordAndSubmit { image: usize, extent: Extent },
    /// Hand pending window events to the application; report `EventsPumped`.
    PumpEvents,
    /// Run the application's per-frame update; report `Updated`.
    Update,
    /// Leave the loop.
    Stop,
    /// Leave the loop with the failure of `stage`.
    Abort { stage: FailedStage },
}

/// The frame loop's state.
#[derive(Clone, Copy, Debug, PartialEq, Eq, Structural)]
pub struct LoopState {
    pub stage: Stage,
    pub presentation: PresentationState,
}

/// A frame is only prepared and recorded against a presentation that is
/// current, with its framebuffers built once it acquires.
pub open spec fn loop_wf(s: LoopState) -> bool {
    let p = s.presentation;
    match s.stage {
        Stage::Measuring => p.stale,
        Stage::Recreating { requested } => !requested.is_empty_spec(),
        Stage::Resetting => !p.stale,
        Stage::Framing => !p.stale,
        Stage::Acquiring => !p.stale && p.framebuffers_ready,
        Stage::Presenting { image } => !p.stale && p.framebuffers_ready && image < p.image_count,
        _ => true,
    }
}

/// Leaves the loop for good with the failure of `stage`.
pub open spec fn fail_next(s: LoopState, stage: FailedStage) -> (LoopState, Action) {
    (LoopState { stage: Stage::Failed { stage }, ..s }, Action::Abort { stage })
}

/// With a current presentation: build the framebuffers if none are cached,
/// else acquire.
pub open spec fn prepare_next(p: PresentationState) -> (LoopState, Action) {
    if !p.framebuffers_ready {
        (LoopState { stage: Stage::Framing, presentation: p }, Action::BuildFramebuffers { count: p.image_count })
    } else {
        (LoopState { stage: Stage::Acquiring, presentation: p }, Action::Acquire)
    }
}

/// Back to the start of an iteration with `p`.
pub open spec fn next_iteration(p: PresentationState) -> (LoopState, Action) {
    (LoopState { stage: Stage::Idle, presentation: p }, Action::CheckRunning)
}

/// One transition of the frame loop.
pub open spec fn step_next(s: LoopState, e: Event) -> (LoopState, Action) {
    let p = s.presentation;
    match s.stage {
        Stage::Stopped => (s, Action::Stop),
        Stage::Failed { stage } => (s, Action::Abort { stage }),
        Stage::Idle => match e {
            Event::Tick { running } => if running {
                (LoopState { stage: Stage::Reclaiming, ..s }, Action::Reclaim)
            } else {
                (LoopState { stage: Stage::Stopped, ..s }, Action::Stop)
            },
            _ => fail_next(s, FailedStage::Protocol),
        },
        Stage::Reclaiming => match e {
            Event::Reclaimed => if p.stale {
                (LoopState { stage: Stage::Measuring, ..s }, Action::QueryExtent)
            } else {
                prepare_next(p)
            },
            _ => fail_next(s, FailedStage::Protocol),
        },
        Stage::Measuring => match e {
            Event::WindowExtent { extent } => {
                let (q, v) = ensure_valid_next(p, extent);
                match v {
                    Validity::Current => prepare_next(q),
                    Validity::Skip => next_iteration(q),
                    Validity::Recreate { extent: requested } => (
                        LoopState { stage: Stage::Recreating { requested }, presentation: q },
                        Action::Recreate { extent: requested },
                    ),
                }
            },
            _ => fail_next(s, FailedStage::Protocol),
        },
        Stage::Recreating { requested } => match e {
            Event::Recreated { outcome } => {
                let (q, r) = recreated_next(p, requested, outcome);
                match r {
                    Recreation::Rebuilt { extent } => (
                        LoopState { stage: Stage::Resetting, presentation: q },
                        Action::ResetAttachments { extent },
                    ),
                    Recreation::Skip => next_iteration(q),
                    Recreation::Fatal => fail_next(s, FailedStage::Recreate),
                }
            },
            _ => fail_next(s, FailedStage::Protocol),
        },
        Stage::Resetting => match e {
            Event::AttachmentsReset => prepare_next(p),
            _ => fail_next(s, FailedStage::Protocol),
        },
        Stage::Framing => match e {
            Event::FramebuffersBuilt => (
                LoopState { stage: Stage::Acquiring, presentation: PresentationState { framebuffers_ready: true, ..p } },
                Action::Acquire,
            ),
            _ => fail_next(s, FailedStage::Protocol),
        },
        Stage::Acquiring => match e {
            Event::Acquired { outcome } => match outcome {
                AcquireOutcome::Image { index } => if index < p.image_count {
                    (LoopState { stage: Stage::Presenting { image: index }, ..s }, Action::RecordAndSubmit { image: index, extent: p.extent })
                } else {
                    fail_next(s, FailedStage::Acquire)
                },
                AcquireOutcome::OutOfDate => next_iteration(PresentationState { stale: true, ..p }),
                AcquireOutcome::Failed => fail_next(s, FailedStage::Acquire),
            },
            _ => fail_next(s, FailedStage::Protocol),
        },
        Stage::Presenting { image } => match e {
            Event::Submitted { outcome } => match outcome {
                SubmitOutcome::Presented => (LoopState { stage: Stage::Pumping, ..s }, Action::PumpEvents),
                SubmitOutcome::OutOfDate => (
                    LoopState { stage: Stage::Pumping, presentation: PresentationState { stale: true, ..p } },
                    Action::PumpEvents,
                ),
                SubmitOutcome::Failed => fail_next(s, FailedStage::Submit),
            },
            _ => fail_next(s, FailedStage::Protocol),
        },
        Stage::Pumping => match e {
            Event::EventsPumped { resized } => (
                LoopState { stage: Stage::Updating, presentation: PresentationState { stale: p.stale || resized, ..p } },
                Action::Update,
            ),
            _ => fail_next(s, FailedStage::Protocol),
        },
        Stage::Updating => match e {
            Event::Updated => next_iteration(p),
            _ => fail_next(s, FailedStage::Protocol),
        },
    }
}

/// The frame loop's decisions. The driver performs each returned action and
/// reports what came of it with the next call of `step`.
pub struct FrameLoop {
    stage: Stage,
    presentation: Presentation,
}

impl View for FrameLoop {
    type V = LoopState;

    closed spec fn view(&self) -> LoopState {
        LoopState { stage: self.stage, presentation: self.presentation@ }
    }
}

impl FrameLoop {
    /// A loop over a swapchain just created at `extent` with `image_count`
    /// images. The driver starts it with `Tick`.
    pub fn new(extent: Extent, image_count: usize) -> (r: FrameLoop)
        ensures
            r@ == (LoopState {
                stage: Stage::Idle,
                presentation: PresentationState { extent, image_count, stale: false, framebuffers_ready: false },
            }),
            loop_wf(r@),
    {
        FrameLoop { stage: Stage::Idle, presentation: Presentation::new(extent, image_count) }
    }

    /// The current stage.
    pub fn stage(&self) -> (r: Stage)
        ensures
            r == self@.stage,
    {
        self.stage
    }

    /// The presentation manager's state.
    pub fn presentation(&self) -> (r: &Presentation)
        ensures
            r@ == self@.presentation,
    {
        &self.presentation
    }

    fn fail(&mut self, stage: FailedStage) -> (r: Action)
        ensures
            (final(self)@, r) == fail_next(old(self)@, stage),
    {
        self.stage = Stage::Failed { stage };
        Action::Abort { stage }
    }

    fn prepare(&mut self) -> (r: Action)
        ensures
            (final(self)@, r) == prepare_next(old(self)@.presentation),
    {
        if !self.presentation.framebuffers_ready() {
            self.stage = Stage::Framing;
            Action::BuildFramebuffers { count: self.presentation.image_count() }
        } else {
            self.stage = Stage::Acquiring;
            Action::Acquire
        }
    }

    fn restart(&mut self) -> (r: Action)
        ensures
            (final(self)@, r) == next_iteration(old(self)@.presentation),
    {
        self.stage = Stage::Idle;
        Action::CheckRunning
    }

    /// Takes in what came of the last action and decides the next one.
    pub fn step(&mut self, event: Event) -> (r: Action)
        ensures
            (final(self)@, r) == step_next(old(self)@, event),
            loop_wf(old(self)@) ==> loop_wf(final(self)@),
    {
        proof {
            if loop_wf(self@) {
                lemma_step_keeps_wf(self@, event);
            }
        }
        match self.stage {
            Stage::Stopped => Action::Stop,
            Stage::Failed { stage } => Action::Abort { stage },
            Stage::Idle => match event {
                Event::Tick { running } => {
                    if running {
                        self.stage = Stage::Reclaiming;
                        Action::Reclaim
                    } else {
                        self.stage = Stage::Stopped;
                        Action::Stop
                    }
                },
                _ => self.fail(FailedStage::Protocol),
            },
            Stage::Reclaiming => match event {
                Event::Reclaimed => {
                    if self.presentation.is_stale() {
                        self.stage = Stage::Measuring;
                        Action::QueryExtent
                    } else {
                        self.prepare()
                    }
                },
                _ => self.fail(FailedStage::Protocol),
            },
            Stage::Measuring => match event {
                Event::WindowExtent { extent } => match self.presentation.ensure_valid(extent) {
                    Validity::Current => self.prepare(),
                    Validity::Skip => self.restart(),
                    Validity::Recreate { extent: requested } => {
                        self.stage = Stage::Recreating { requested };
                        Action::Recreate { extent: requested }
                    },
                },
                _ => self.fail(FailedStage::Protocol),
            },
            Stage::Recreating { requested } => match event {
                Event::Recreated { outcome } => match self.presentation.recreated(requested, outcome) {
                    Recreation::Rebuilt { extent } => {
                        self.stage = Stage::Resetting;
                        Action::ResetAttachments { extent }
                    },
                    Recreation::Skip => self.restart(),
                    Recreation::Fatal => self.fail(FailedStage::Recreate),
                },
                _ => self.fail(FailedStage::Protocol),
            },
            Stage::Resetting => match event {
                Event::AttachmentsReset => self.prepare(),
                _ => self.fail(FailedStage::Protocol),
            },
            Stage::Framing => match event {
                Event::FramebuffersBuilt => {
                    self.presentation.framebuffers_built();
                    self.stage = Stage::Acquiring;
                    Action::Acquire
                },
                _ => self.fail(FailedStage::Protocol),
            },
            Stage::Acquiring => match event {
                Event::Acquired { outcome } => match outcome {
                    AcquireOutcome::Image { index } => {
                        if index < self.presentation.image_count() {
                            self.stage = Stage::Presenting { image: index };
                            Action::RecordAndSubmit { image: index, extent: self.presentation.extent() }
                        } else {
                            self.fail(FailedStage::Acquire)
                        }
                    },
                    AcquireOutcome::OutOfDate => {
                        self.presentation.invalidate();
                        self.restart()
                    },
                    AcquireOutcome::Failed => self.fail(FailedStage::Acquire),
                },
                _ => self.fail(FailedStage::Protocol),
            },
            Stage::Presenting { image } => match event {
                Event::Submitted { outcome } => match outcome {
                    SubmitOutcome::Presented => {
                        self.stage = Stage::Pumping;
                        Action::PumpEvents
                    },
                    SubmitOutcome::OutOfDate => {
                        self.presentation.invalidate();
                        self.stage = Stage::Pumping;
                        Action::PumpEvents
                    },
                    SubmitOutcome::Failed => self.fail(FailedStage::Submit),
                },
                _ => self.fail(FailedStage::Protocol),
            },
            Stage::Pumping => match event {
                Event::EventsPumped { resized } => {
                    if resized {
                        self.presentation.invalidate();
                    }
                    self.stage = Stage::Updating;
                    Action::Update
                },
                _ => self.fail(FailedStage::Protocol),
            },
            Stage::Updating => match event {
                Event::Updated => self.restart(),
                _ => self.fail(FailedStage::Protocol),
            },
        }
    }
}

/// Every transition keeps the loop well formed.
pub proof fn lemma_step_keeps_wf(s: LoopState, e: Event)
    requires
        loop_wf(s),
    ensures
        loop_wf(step_next(s, e).0),
{
}

/// Work is recorded and submitted only for an image that was just acquired
/// from a current presentation whose framebuffers are built, into a viewport
/// of the presentation's extent.
pub proof fn lemma_submit_follows_acquire(s: LoopState, e: Event)
    requires
        loop_wf(s),
    ensures
        step_next(s, e).1 matches Action::RecordAndSubmit { image, extent } ==> {
            &&& s.stage == Stage::Acquiring
            &&& e == (Event::Acquired { outcome: AcquireOutcome::Image { index: image } })
            &&& image < s.presentation.image_count
            &&& s.presentation.framebuffers_ready
            &&& !s.presentation.stale
            &&& extent == s.presentation.extent
        },
{
}

/// The loop leaves only between iterations, when the application stops
/// running, or on a failure: never between an acquisition and its
/// presentation.
pub proof fn lemma_exit_between_frames(s: LoopState, e: Event)
    ensures
        step_next(s, e).1 == Action::Stop ==> s.stage == Stage::Stopped || (s.stage == Stage::Idle
            && e == (Event::Tick { running: false })),
        s.stage matches Stage::Presenting { .. } ==> step_next(s, e).1 != Action::Stop,
        step_next(s, e).1 matches Action::Abort { stage } ==> step_next(s, e).0.stage == (Stage::Failed { stage }),
{
}

/// A window without area never has a swapchain recreated for it: the frame
/// is skipped and the presentation stays flagged for the next iteration.
pub proof fn lemma_empty_window_skips(s: LoopState, extent: Extent)
    requires
        loop_wf(s),
        s.stage == Stage::Measuring,
        extent.is_empty_spec(),
    ensures
        step_next(s, Event::WindowExtent { extent }) == (
            LoopState { stage: Stage::Idle, presentation: s.presentation },
            Action::CheckRunning,
        ),
{
}

/// A swapchain recreated at a nonempty extent replaces the depth buffer and
/// the projection at that same extent, and has its framebuffers rebuilt
/// before the next acquisition.
pub proof fn lemma_rebuild_follows_extent(s: LoopState, requested: Extent, image_count: usize)
    requires
        loop_wf(s),
        s.stage == (Stage::Recreating { requested }),
    ensures
        ({
            let (t, a) = step_next(s, Event::Recreated { outcome: RecreateOutcome::Created { image_count } });
            &&& a == Action::ResetAttachments { extent: requested }
            &&& !requested.is_empty_spec()
            &&& t.presentation == (PresentationState { extent: requested, image_count, stale: false, framebuffers_ready: false })
            &&& step_next(t, Event::AttachmentsReset) == (
                LoopState { stage: Stage::Framing, presentation: t.presentation },
                Action::BuildFramebuffers { count: image_count },
            )
        }),
{
}

} // verus!
