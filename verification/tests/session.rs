use vtseat::context::FrameStep;
use vtseat::keys::{KeyMap, KeyState, KEY_ESC, KEY_F2, KEY_F3, KEY_LEFTALT, KEY_LEFTCTRL};
use vtseat::modifiers::ModifierState;
use vtseat::session::{
    activity_actions, handle_key, KeyOutcome, LoopSignal, RenderLoop, SessionAction, StepOutcome,
};

#[test]
fn becoming_active_reacquires_broadcasts_resets_and_resumes() {
    let acts = activity_actions(true);
    assert_eq!(
        acts,
        vec![
            SessionAction::AcquireSession,
            SessionAction::BroadcastControl(true),
            SessionAction::ResetModifiers,
            SessionAction::ResumeInput,
        ]
    );
}

#[test]
fn becoming_inactive_releases_broadcasts_and_suspends() {
    let acts = activity_actions(false);
    assert_eq!(
        acts,
        vec![
            SessionAction::ReleaseSession,
            SessionAction::BroadcastControl(false),
            SessionAction::SuspendInput,
        ]
    );
}

#[test]
fn full_combo_with_control_requests_a_switch() {
    let map = KeyMap::new();
    let mut mods = ModifierState::new();
    assert_eq!(handle_key(&mut mods, &map, true, KEY_LEFTCTRL, KeyState::Pressed), KeyOutcome::Ignored);
    assert_eq!(handle_key(&mut mods, &map, true, KEY_LEFTALT, KeyState::Pressed), KeyOutcome::Ignored);
    assert_eq!(handle_key(&mut mods, &map, true, KEY_F2, KeyState::Pressed), KeyOutcome::SwitchVt(2));
}

#[test]
fn ctrl_only_never_requests_a_switch() {
    let map = KeyMap::new();
    for has_control in [false, true] {
        let mut mods = ModifierState::new();
        assert_eq!(
            handle_key(&mut mods, &map, has_control, KEY_LEFTCTRL, KeyState::Pressed),
            KeyOutcome::Ignored
        );
        let outcome = handle_key(&mut mods, &map, has_control, KEY_F3, KeyState::Pressed);
        assert!(!matches!(outcome, KeyOutcome::SwitchVt(_)));
        assert_eq!(outcome, KeyOutcome::Ignored);
    }
}

#[test]
fn combo_without_control_is_dropped() {
    let map = KeyMap::new();
    let mut mods = ModifierState::new();
    handle_key(&mut mods, &map, false, KEY_LEFTCTRL, KeyState::Pressed);
    handle_key(&mut mods, &map, false, KEY_LEFTALT, KeyState::Pressed);
    assert_eq!(
        handle_key(&mut mods, &map, false, KEY_F3, KeyState::Pressed),
        KeyOutcome::DroppedWithoutControl
    );
}

#[test]
fn releasing_a_key_requests_nothing() {
    let map = KeyMap::new();
    let mut mods = ModifierState::new();
    assert_eq!(
        handle_key(&mut mods, &map, true, KEY_ESC, KeyState::Released),
        KeyOutcome::Ignored
    );
}

#[test]
fn session_activation_drives_context_and_presentation() {
    let mut render = RenderLoop::new();
    assert!(!render.holds_control());
    assert!(!render.holds_context());

    assert_eq!(render.step(LoopSignal::ControlChanged(true)), StepOutcome::CreatedContext);
    assert!(render.context_is_active());

    assert_eq!(render.step(LoopSignal::Quiet), StepOutcome::PresentedFrame);
    let steps = render.present_frame().unwrap();
    assert_eq!(
        steps,
        vec![
            FrameStep::AcquireImage,
            FrameStep::RecordClearPass,
            FrameStep::SubmitCommands,
            FrameStep::PresentImage,
        ]
    );

    assert_eq!(render.step(LoopSignal::ControlChanged(false)), StepOutcome::DestroyedContext);
    assert!(!render.holds_context());
    assert!(!render.context_is_active());
    assert_eq!(render.step(LoopSignal::Quiet), StepOutcome::Idled);

    assert_eq!(render.step(LoopSignal::ControlChanged(true)), StepOutcome::CreatedContext);
    assert!(render.context_is_active());
    assert_eq!(render.step(LoopSignal::Quiet), StepOutcome::PresentedFrame);
}

#[test]
fn exit_key_without_modifiers_shuts_down_without_switching() {
    let map = KeyMap::new();
    let mut mods = ModifierState::new();
    let outcome = handle_key(&mut mods, &map, true, KEY_ESC, KeyState::Pressed);
    assert_eq!(outcome, KeyOutcome::RequestExit);
    assert!(!matches!(outcome, KeyOutcome::SwitchVt(_)));

    let mut render = RenderLoop::new();
    render.step(LoopSignal::ControlChanged(true));
    assert_eq!(render.step(LoopSignal::ExitRequested), StepOutcome::Terminate);
    assert!(render.holds_context());
}

#[test]
fn exit_signal_wins_over_a_pending_render_iteration() {
    let mut render = RenderLoop::new();
    assert_eq!(render.step(LoopSignal::ExitRequested), StepOutcome::Terminate);
    assert!(!render.holds_context());
}
