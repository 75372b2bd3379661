//! The session event loop decisions: what to do on a session-activity
//! transition, on a key event, and on each render-loop iteration.

use vstd::prelude::*;
use crate::context::{frame_plan, FrameStep, PresentError, WgpuContext};
use crate::keys::{vt_for_key, KeyMap, KeyState, KEY_ESC};
use crate::modifiers::{alt_held, apply_event, ctrl_held, KeyEvent, ModifierState};

verus! {

/// An ordered action the loop carries out on a session-activity transition.
#[derive(Clone, Copy, Debug, PartialEq, Eq, Structural)]
pub enum SessionAction {
    /// Re-acquire session resources from the seat manager.
    AcquireSession,
    /// Broadcast the latest control state to all dependents.
    BroadcastControl(bool),
    /// Clear the modifier tracker.
    ResetModifiers,
    /// Resume the input source.
    ResumeInput,
    /// Release session resources back to the seat manager.
    ReleaseSession,
    /// Suspend the input source.
    SuspendInput,
}

/// The ordered actions a session-activity transition demands. Becoming
/// active: re-acquire the session, broadcast control, reset the modifier
/// tracker, resume input. Becoming inactive: release the session, broadcast
/// the loss, suspend input.
pub open spec fn activity_plan(active: bool) -> Seq<SessionAction> {
    if active {
        seq![
            SessionAction::AcquireSession,
            SessionAction::BroadcastControl(true),
            SessionAction::ResetModifiers,
            SessionAction::ResumeInput,
        ]
    } else {
        seq![
            SessionAction::ReleaseSession,
            SessionAction::BroadcastControl(false),
            SessionAction::SuspendInput,
        ]
    }
}

/// Decides what a session-activity signal demands, in order.
pub fn activity_actions(active: bool) -> (acts: Vec<SessionAction>)
    ensures
        acts@ == activity_plan(active),
{
    let mut acts: Vec<SessionAction> = Vec::new();
    if active {
        acts.push(SessionAction::AcquireSession);
        acts.push(SessionAction::BroadcastControl(true));
        acts.push(SessionAction::ResetModifiers);
        acts.push(SessionAction::ResumeInput);
    } else {
        acts.push(SessionAction::ReleaseSession);
        acts.push(SessionAction::BroadcastControl(false));
        acts.push(SessionAction::SuspendInput);
    }
    proof {
        assert(acts@ =~= activity_plan(active));
    }
    acts
}

/// What the loop does with one key event.
#[derive(Clone, Copy, Debug, PartialEq, Eq, Structural)]
pub enum KeyOutcome {
    /// Nothing beyond tracking the key.
    Ignored,
    /// The exit key was pressed: shut the input source down and exit.
    RequestExit,
    /// Request a switch to this virtual terminal.
    SwitchVt(u32),
    /// A switch combo arrived without session control: dropped, since
    /// switching without control would be a protocol violation upstream.
    DroppedWithoutControl,
}

/// The outcome owed to a key event, decided over the held-key set as it
/// stands after the event itself was tracked. The exit key wins first; a
/// mapped function key demands both modifiers and, to actually switch,
/// session control.
pub open spec fn key_outcome(held: Set<u32>, has_control: bool, key: u32, state: KeyState)
    -> KeyOutcome {
    if state is Released {
        KeyOutcome::Ignored
    } else if key == KEY_ESC {
        KeyOutcome::RequestExit
    } else if !(ctrl_held(held) && alt_held(held)) {
        KeyOutcome::Ignored
    } else {
        match vt_for_key(key) {
            Option::Some(vt) => if has_control {
                KeyOutcome::SwitchVt(vt)
            } else {
                KeyOutcome::DroppedWithoutControl
            },
            Option::None => KeyOutcome::Ignored,
        }
    }
}

/// Tracks one key event in the modifier tracker and decides what it
/// demands.
pub fn handle_key(
    mods: &mut ModifierState,
    map: &KeyMap,
    has_control: bool,
    key: u32,
    state: KeyState,
) -> (r: KeyOutcome)
    requires
        map.wf(),
    ensures
        final(mods)@ == apply_event(old(mods)@, KeyEvent { key, state }),
        r == key_outcome(final(mods)@, has_control, key, state),
{
    mods.update(key, state);
    match state {
        KeyState::Released => KeyOutcome::Ignored,
        KeyState::Pressed => {
            if key == KEY_ESC {
                KeyOutcome::RequestExit
            } else if mods.is_ctrl_alt_pressed() {
                match map.get_vt(key) {
                    Some(vt) => if has_control {
                        KeyOutcome::SwitchVt(vt)
                    } else {
                        KeyOutcome::DroppedWithoutControl
                    },
                    None => KeyOutcome::Ignored,
                }
            } else {
                KeyOutcome::Ignored
            }
        },
    }
}

/// Combo gating: a key press without an alt key held never produces a
/// switch request, whatever the control state.
pub proof fn lemma_no_switch_without_alt(held: Set<u32>, has_control: bool, key: u32)
    requires
        !alt_held(held),
    ensures
        !(key_outcome(held, has_control, key, KeyState::Pressed) matches KeyOutcome::SwitchVt(_)),
{
}

/// Combo gating: a key press without a control key held never produces a
/// switch request either.
pub proof fn lemma_no_switch_without_ctrl(held: Set<u32>, has_control: bool, key: u32)
    requires
        !ctrl_held(held),
    ensures
        !(key_outcome(held, has_control, key, KeyState::Pressed) matches KeyOutcome::SwitchVt(_)),
{
}

/// A switch request is only ever produced while session control is held.
pub proof fn lemma_no_switch_without_control(held: Set<u32>, key: u32, state: KeyState)
    ensures
        !(key_outcome(held, false, key, state) matches KeyOutcome::SwitchVt(_)),
{
}

/// A signal the render loop sees at the top of an iteration. The exit
/// signal is checked first; the control broadcast delivers only the latest
/// value; with nothing pending the render step still runs.
#[derive(Clone, Copy, Debug, PartialEq, Eq, Structural)]
pub enum LoopSignal {
    /// The exit signal fired, or its channel closed.
    ExitRequested,
    /// The control broadcast delivered a new latest value.
    ControlChanged(bool),
    /// Nothing was pending.
    Quiet,
}

/// What one render-loop iteration decided.
#[derive(Clone, Copy, Debug, PartialEq, Eq, Structural)]
pub enum StepOutcome {
    /// The exit signal wins over everything: stop the loop.
    Terminate,
    /// Control is held and no context existed: one was constructed.
    CreatedContext,
    /// Control is held and a context exists: present one frame on it.
    PresentedFrame,
    /// Control was lost while a context existed: it was destroyed.
    DestroyedContext,
    /// No control and no context: nothing to do this iteration.
    Idled,
}

/// The state the render loop carries across iterations: the mirrored
/// control flag and the display context, existing or absent.
pub struct RenderLoop {
    has_control: bool,
    context: Option<WgpuContext>,
}

impl RenderLoop {
    /// The loop currently mirrors session control as held.
    pub closed spec fn control(&self) -> bool {
        self.has_control
    }

    /// A display context currently exists.
    pub closed spec fn has_context(&self) -> bool {
        self.context is Some
    }

    /// The context exists and reports itself active.
    pub closed spec fn context_active(&self) -> bool {
        self.context matches Some(c) && c.active()
    }

    /// The invariant: any context the loop holds is fully constructed and
    /// active.
    pub open spec fn wf(&self) -> bool {
        self.has_context() ==> self.context_active()
    }

    /// The loop starts without control and without a context.
    pub fn new() -> (r: Self)
        ensures
            !r.control(),
            !r.has_context(),
            r.wf(),
    {
        RenderLoop { has_control: false, context: None }
    }

    /// The control flag after a signal: a control change overwrites it,
    /// anything else keeps it.
    pub open spec fn control_after(&self, signal: LoopSignal) -> bool {
        match signal {
            LoopSignal::ControlChanged(b) => b,
            _ => self.control(),
        }
    }

    /// One loop iteration. The exit signal terminates before any render
    /// work. Otherwise the control flag is updated and the render step
    /// runs: with control and no context, construct one; with control and a
    /// context, present; without control, destroy any context; else idle.
    pub fn step(&mut self, signal: LoopSignal) -> (r: StepOutcome)
        requires
            old(self).wf(),
        ensures
            final(self).wf(),
            (r is Terminate) == (signal is ExitRequested),
            signal is ExitRequested ==> *final(self) == *old(self),
            !(signal is ExitRequested) ==> {
                let hc = old(self).control_after(signal);
                &&& final(self).control() == hc
                &&& hc && !old(self).has_context() ==> r is CreatedContext
                    && final(self).context_active()
                &&& hc && old(self).has_context() ==> r is PresentedFrame
                    && final(self).context_active() && final(self).has_context()
                &&& !hc && old(self).has_context() ==> r is DestroyedContext
                    && !final(self).has_context()
                &&& !hc && !old(self).has_context() ==> r is Idled && !final(self).has_context()
            },
    {
        match signal {
            LoopSignal::ExitRequested => {
                return StepOutcome::Terminate;
            },
            LoopSignal::ControlChanged(b) => {
                self.has_control = b;
            },
            LoopSignal::Quiet => {},
        }
        if self.has_control {
            match &self.context {
                None => {
                    self.context = Some(WgpuContext::new());
                    StepOutcome::CreatedContext
                },
                Some(_) => StepOutcome::PresentedFrame,
            }
        } else {
            match &self.context {
                Some(_) => {
                    self.context = None;
                    StepOutcome::DestroyedContext
                },
                None => StepOutcome::Idled,
            }
        }
    }

    /// Presents one frame on the loop's context: the four presentation
    /// steps when an active context exists, `NotReady` otherwise.
    pub fn present_frame(&self) -> (r: Result<Vec<FrameStep>, PresentError>)
        ensures
            self.context_active() ==> (r matches Ok(steps) && steps@ == frame_plan()),
            !self.context_active() ==> r == Err::<Vec<FrameStep>, PresentError>(
                PresentError::NotReady,
            ),
    {
        match &self.context {
            Some(c) => c.present(),
            None => Err(PresentError::NotReady),
        }
    }

    /// Whether the loop currently mirrors session control as held.
    pub fn holds_control(&self) -> (r: bool)
        ensures
            r == self.control(),
    {
        self.has_control
    }

    /// Whether a display context currently exists.
    pub fn holds_context(&self) -> (r: bool)
        ensures
            r == self.has_context(),
    {
        self.context.is_some()
    }

    /// Whether the loop's context exists and reports itself active.
    pub fn context_is_active(&self) -> (r: bool)
        ensures
            r == self.context_active(),
    {
        match &self.context {
            Some(c) => c.is_active(),
            None => false,
        }
    }
}

} // verus!
