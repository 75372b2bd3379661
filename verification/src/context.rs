//! The display context state machine: exclusive display ownership paired
//! with the GPU surface built on the selected resources.
//!
//! The context tracks what is currently held and answers every lifecycle
//! request with the ordered plan of device and backend steps to carry out.
//! The plans enforce the load-bearing teardown order: the surface is
//! destroyed before ownership is released, and ownership is released before
//! the device handle is closed.

use vstd::prelude::*;

verus! {

/// An ordered step the caller carries out against the device or the GPU
/// backend when the context changes state.
#[derive(Clone, Copy, Debug, PartialEq, Eq, Structural)]
pub enum DisplayAction {
    /// Claim exclusive display ownership of the device.
    AcquireOwnership,
    /// Build the GPU surface on the selected resources.
    CreateSurface,
    /// Destroy the GPU surface.
    DestroySurface,
    /// Release exclusive display ownership.
    ReleaseOwnership,
    /// Close the device handle; only ever the last step.
    CloseDevice,
}

/// One step of presenting a single frame, in order.
#[derive(Clone, Copy, Debug, PartialEq, Eq, Structural)]
pub enum FrameStep {
    /// Acquire the next presentable image from the surface.
    AcquireImage,
    /// Record the single render pass that clears the image to the fixed
    /// color.
    RecordClearPass,
    /// Submit the recorded commands to the queue.
    SubmitCommands,
    /// Present the image.
    PresentImage,
}

/// Presentation was refused because ownership or the surface is absent.
#[derive(Clone, Copy, Debug, PartialEq, Eq, Structural)]
pub enum PresentError {
    /// Either display ownership or the GPU surface is missing.
    NotReady,
}

/// Owns the display-ownership state and the GPU surface built atop the
/// selected resources.
pub struct WgpuContext {
    has_master: bool,
    has_surface: bool,
}

/// The state every suspend call reaches: nothing held.
pub closed spec fn suspended(c: WgpuContext) -> WgpuContext {
    WgpuContext { has_master: false, has_surface: false }
}

/// The state every resume call reaches: ownership held and the surface
/// present.
pub closed spec fn resumed(c: WgpuContext) -> WgpuContext {
    WgpuContext { has_master: true, has_surface: true }
}

/// The ordered steps a suspend from state `c` carries out: destroy the
/// surface first (only if present), then release ownership (only if held).
pub open spec fn suspend_plan(c: WgpuContext) -> Seq<DisplayAction> {
    (if c.surfaced() {
        seq![DisplayAction::DestroySurface]
    } else {
        Seq::<DisplayAction>::empty()
    }) + (if c.owned() {
        seq![DisplayAction::ReleaseOwnership]
    } else {
        Seq::<DisplayAction>::empty()
    })
}

/// The ordered steps a resume from state `c` carries out: re-claim ownership
/// first (only if not held), then rebuild the surface (only if absent).
pub open spec fn resume_plan(c: WgpuContext) -> Seq<DisplayAction> {
    (if !c.owned() {
        seq![DisplayAction::AcquireOwnership]
    } else {
        Seq::<DisplayAction>::empty()
    }) + (if !c.surfaced() {
        seq![DisplayAction::CreateSurface]
    } else {
        Seq::<DisplayAction>::empty()
    })
}

/// The ordered steps of a full teardown: a suspend, then closing the device
/// handle last.
pub open spec fn teardown_plan(c: WgpuContext) -> Seq<DisplayAction> {
    suspend_plan(c).push(DisplayAction::CloseDevice)
}

/// The four steps of presenting one frame, in order.
pub open spec fn frame_plan() -> Seq<FrameStep> {
    seq![
        FrameStep::AcquireImage,
        FrameStep::RecordClearPass,
        FrameStep::SubmitCommands,
        FrameStep::PresentImage,
    ]
}

impl WgpuContext {
    /// Exclusive display ownership is currently held.
    pub closed spec fn owned(&self) -> bool {
        self.has_master
    }

    /// The GPU surface bundle is currently present.
    pub closed spec fn surfaced(&self) -> bool {
        self.has_surface
    }

    /// The invariant: the surface never outlives ownership.
    pub open spec fn wf(&self) -> bool {
        self.surfaced() ==> self.owned()
    }

    /// Ownership is held and the surface is present, so presentation is
    /// meaningful.
    pub open spec fn active(&self) -> bool {
        self.owned() && self.surfaced()
    }

    /// Records a context that construction just brought to the active
    /// state: ownership claimed and the surface built on the selected
    /// resources. Construction that fails earlier never yields a context.
    pub fn new() -> (r: Self)
        ensures
            r.active(),
            r.wf(),
    {
        WgpuContext { has_master: true, has_surface: true }
    }

    /// Suspends the context from any state: the surface is dropped, then
    /// ownership is released, each only if held, so a repeated call does
    /// nothing. Returns the ordered steps to carry out.
    pub fn suspend(&mut self) -> (acts: Vec<DisplayAction>)
        ensures
            *final(self) == suspended(*old(self)),
            !final(self).owned(),
            !final(self).surfaced(),
            final(self).wf(),
            acts@ == suspend_plan(*old(self)),
    {
        let mut acts: Vec<DisplayAction> = Vec::new();
        if self.has_surface {
            acts.push(DisplayAction::DestroySurface);
            self.has_surface = false;
        }
        if self.has_master {
            acts.push(DisplayAction::ReleaseOwnership);
            self.has_master = false;
        }
        proof {
            assert(acts@ =~= suspend_plan(*old(self)));
        }
        acts
    }

    /// Resumes the context from any state: ownership is re-claimed, then the
    /// surface rebuilt, each only if absent, so a repeated call does
    /// nothing. Returns the ordered steps to carry out.
    pub fn resume(&mut self) -> (acts: Vec<DisplayAction>)
        ensures
            *final(self) == resumed(*old(self)),
            final(self).active(),
            final(self).wf(),
            acts@ == resume_plan(*old(self)),
    {
        let mut acts: Vec<DisplayAction> = Vec::new();
        if !self.has_master {
            acts.push(DisplayAction::AcquireOwnership);
            self.has_master = true;
        }
        if !self.has_surface {
            acts.push(DisplayAction::CreateSurface);
            self.has_surface = true;
        }
        proof {
            assert(acts@ =~= resume_plan(*old(self)));
        }
        acts
    }

    /// Tears the context down for good: a suspend, then the device handle is
    /// closed last.
    pub fn teardown(&mut self) -> (acts: Vec<DisplayAction>)
        ensures
            !final(self).owned(),
            !final(self).surfaced(),
            acts@ == teardown_plan(*old(self)),
    {
        let mut acts = self.suspend();
        acts.push(DisplayAction::CloseDevice);
        acts
    }

    /// True iff ownership is held and the GPU surface is present.
    pub fn is_active(&self) -> (r: bool)
        ensures
            r == self.active(),
    {
        self.has_master && self.has_surface
    }

    /// Presents one frame: refused with `NotReady` when ownership or the
    /// surface is absent; otherwise returns the four presentation steps in
    /// order.
    pub fn present(&self) -> (r: Result<Vec<FrameStep>, PresentError>)
        ensures
            self.active() ==> (r matches Ok(steps) && steps@ == frame_plan()),
            !self.active() ==> r == Err::<Vec<FrameStep>, PresentError>(PresentError::NotReady),
    {
        if !self.has_surface {
            return Err(PresentError::NotReady);
        }
        if !self.has_master {
            return Err(PresentError::NotReady);
        }
        let mut steps: Vec<FrameStep> = Vec::new();
        steps.push(FrameStep::AcquireImage);
        steps.push(FrameStep::RecordClearPass);
        steps.push(FrameStep::SubmitCommands);
        steps.push(FrameStep::PresentImage);
        proof {
            assert(steps@ =~= frame_plan());
        }
        Ok(steps)
    }
}

/// Suspending is idempotent: a second suspend leaves the same state and has
/// nothing left to do.
pub proof fn lemma_suspend_idempotent(c: WgpuContext)
    ensures
        suspended(suspended(c)) == suspended(c),
        suspend_plan(suspended(c)) == Seq::<DisplayAction>::empty(),
{
    assert(suspend_plan(suspended(c)) =~= Seq::<DisplayAction>::empty());
}

/// Resuming is idempotent: a second resume leaves the same state and has
/// nothing left to do.
pub proof fn lemma_resume_idempotent(c: WgpuContext)
    ensures
        resumed(resumed(c)) == resumed(c),
        resume_plan(resumed(c)) == Seq::<DisplayAction>::empty(),
{
    assert(resume_plan(resumed(c)) =~= Seq::<DisplayAction>::empty());
}

/// A suspend always deactivates: after it, the context never reports itself
/// active, whatever state it was in.
pub proof fn lemma_suspend_deactivates(c: WgpuContext)
    ensures
        !suspended(c).active(),
{
}

/// Teardown order is load-bearing: whenever the teardown plan destroys the
/// surface and releases ownership, the destroy comes first, and closing the
/// device handle always comes last.
pub proof fn lemma_teardown_order(c: WgpuContext)
    ensures
        teardown_plan(c).last() == DisplayAction::CloseDevice,
        c.active() ==> teardown_plan(c) == seq![
            DisplayAction::DestroySurface,
            DisplayAction::ReleaseOwnership,
            DisplayAction::CloseDevice,
        ],
{
    if c.active() {
        assert(teardown_plan(c) =~= seq![
            DisplayAction::DestroySurface,
            DisplayAction::ReleaseOwnership,
            DisplayAction::CloseDevice,
        ]);
    }
}

} // verus!
