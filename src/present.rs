use vstd::prelude::*;

verus! {

/// A drawable area in pixels.
#[derive(Clone, Copy, Debug, PartialEq, Eq, Structural)]
pub struct Extent {
    pub width: u32,
    pub height: u32,
}

impl Extent {
    /// An extent with no area, as a minimized window reports.
    pub open spec fn is_empty_spec(&self) -> bool {
        self.width == 0 || self.height == 0
    }

    pub fn new(width: u32, height: u32) -> (r: Extent)
        ensures
            r == (Extent { width, height }),
    {
        Extent { width, height }
    }

    /// Whether the extent has no area.
    pub fn is_empty(&self) -> (r: bool)
        ensures
            r == self.is_empty_spec(),
    {
        self.width == 0 || self.height == 0
    }
}

/// What the presentation manager knows of the swapchain, its images, the
/// shared depth buffer and the cached framebuffers. The swapchain images,
/// the depth buffer and the camera projection always share `extent`: they are
/// replaced together.
#[derive(Clone, Copy, Debug, PartialEq, Eq, Structural)]
pub struct PresentationState {
    pub extent: Extent,
    pub image_count: usize,
    /// Set when the surface was reported out of date or resized.
    pub stale: bool,
    /// Whether one framebuffer per swapchain image is cached.
    pub framebuffers_ready: bool,
}

/// Outcome of `ensure_valid`.
#[derive(Clone, Copy, Debug, PartialEq, Eq, Structural)]
pub enum Validity {
    /// The current swapchain can be used as it is.
    Current,
    /// Recreate the swapchain at `extent`, then report the outcome.
    Recreate { extent: Extent },
    /// The window has no area: render nothing this iteration and retry later.
    Skip,
}

/// What the platform answered to a swapchain recreation.
#[derive(Clone, Copy, Debug, PartialEq, Eq, Structural)]
pub enum RecreateOutcome {
    Created { image_count: usize },
    /// The platform does not support the extent at the moment.
    UnsupportedExtent,
    Failed,
}

/// Outcome of `recreated`.
#[derive(Clone, Copy, Debug, PartialEq, Eq, Structural)]
pub enum Recreation {
    /// The swapchain was replaced: recreate the depth buffer and the
    /// projection at `extent`; framebuffers are to be rebuilt.
    Rebuilt { extent: Extent },
    /// Render nothing this iteration and retry later.
    Skip,
    /// A failure that cannot be repaired locally.
    Fatal,
}

/// `ensure_valid` on a state and the live window extent: a presentation
/// that is not stale and matches the window is used as it is; otherwise a
/// window without area skips the frame and any other extent is recreated.
pub open spec fn ensure_valid_next(p: PresentationState, window: Extent) -> (PresentationState, Validity) {
    if !p.stale && window == p.extent {
        (p, Validity::Current)
    } else if window.is_empty_spec() {
        (PresentationState { stale: true, ..p }, Validity::Skip)
    } else {
        (p, Validity::Recreate { extent: window })
    }
}

/// `recreated` on a state, the extent that was requested and the platform's
/// answer. A new swapchain replaces everything at once.
pub open spec fn recreated_next(p: PresentationState, requested: Extent, outcome: RecreateOutcome) -> (PresentationState, Recreation) {
    match outcome {
        RecreateOutcome::Created { image_count } => (
            PresentationState { extent: requested, image_count, stale: false, framebuffers_ready: false },
            Recreation::Rebuilt { extent: requested },
        ),
        RecreateOutcome::UnsupportedExtent => (PresentationState { stale: true, ..p }, Recreation::Skip),
        RecreateOutcome::Failed => (p, Recreation::Fatal),
    }
}

/// The presentation manager: decides when the swapchain and what depends on
/// it are rebuilt. The device objects themselves belong to the caller.
pub struct Presentation {
    extent: Extent,
    image_count: usize,
    stale: bool,
    framebuffers_ready: bool,
}

impl View for Presentation {
    type V = PresentationState;

    closed spec fn view(&self) -> PresentationState {
        PresentationState {
            extent: self.extent,
            image_count: self.image_count,
            stale: self.stale,
            framebuffers_ready: self.framebuffers_ready,
        }
    }
}

impl Presentation {
    /// A manager for a swapchain just created at `extent` with `image_count`
    /// images; no framebuffer is cached yet.
    pub fn new(extent: Extent, image_count: usize) -> (r: Presentation)
        ensures
            r@ == (PresentationState { extent, image_count, stale: false, framebuffers_ready: false }),
    {
        Presentation { extent, image_count, stale: false, framebuffers_ready: false }
    }

    /// Checks the presentation against the live window extent.
    pub fn ensure_valid(&mut self, window: Extent) -> (r: Validity)
        ensures
            (final(self)@, r) == ensure_valid_next(old(self)@, window),
    {
        if !self.stale && window == self.extent {
            Validity::Current
        } else if window.is_empty() {
            self.stale = true;
            Validity::Skip
        } else {
            Validity::Recreate { extent: window }
        }
    }

    /// Takes in the platform's answer to a recreation at `requested`.
    pub fn recreated(&mut self, requested: Extent, outcome: RecreateOutcome) -> (r: Recreation)
        ensures
            (final(self)@, r) == recreated_next(old(self)@, requested, outcome),
    {
        match outcome {
            RecreateOutcome::Created { image_count } => {
                self.extent = requested;
                self.image_count = image_count;
                self.stale = false;
                self.framebuffers_ready = false;
                Recreation::Rebuilt { extent: requested }
            },
            RecreateOutcome::UnsupportedExtent => {
                self.stale = true;
                Recreation::Skip
            },
            RecreateOutcome::Failed => Recreation::Fatal,
        }
    }

    /// Flags the swapchain for recreation on the next check.
    pub fn invalidate(&mut self)
        ensures
            final(self)@ == (PresentationState { stale: true, ..old(self)@ }),
    {
        self.stale = true;
    }

    /// Records that one framebuffer per swapchain image has been built.
    pub fn framebuffers_built(&mut self)
        ensures
            final(self)@ == (PresentationState { framebuffers_ready: true, ..old(self)@ }),
    {
        self.framebuffers_ready = true;
    }

    /// Extent of the swapchain images, the depth buffer and the projection.
    pub fn extent(&self) -> (r: Extent)
        ensures
            r == self@.extent,
    {
        self.extent
    }

    pub fn image_count(&self) -> (r: usize)
        ensures
            r == self@.image_count,
    {
        self.image_count
    }

    pub fn is_stale(&self) -> (r: bool)
        ensures
            r == self@.stale,
    {
        self.stale
    }

    pub fn framebuffers_ready(&self) -> (r: bool)
        ensures
            r == self@.framebuffers_ready,
    {
        self.framebuffers_ready
    }
}

/// A check with nothing changed is a no-op: when the presentation is not
/// stale and the window keeps its extent, `ensure_valid` reports it current
/// and leaves it as it was, so a second call in a row does no rebuild either.
pub proof fn lemma_ensure_valid_idempotent(p: PresentationState, window: Extent)
    ensures
        !p.stale && window == p.extent ==> ensure_valid_next(p, window) == (p, Validity::Current),
        ensure_valid_next(p, window).1 == Validity::Current ==> {
            &&& ensure_valid_next(p, window).0 == p
            &&& ensure_valid_next(ensure_valid_next(p, window).0, window) == (p, Validity::Current)
        },
{
}

/// After a successful recreation at the window's extent, checking the same
/// extent again rebuilds nothing.
pub proof fn lemma_current_after_rebuild(p: PresentationState, window: Extent, image_count: usize)
    ensures
        ({
            let q = recreated_next(p, window, RecreateOutcome::Created { image_count }).0;
            ensure_valid_next(q, window) == (q, Validity::Current)
        }),
{
}

} // verus!
