use vtseat::context::{DisplayAction, FrameStep, PresentError, WgpuContext};

#[test]
fn construction_reaches_the_active_state() {
    let ctx = WgpuContext::new();
    assert!(ctx.is_active());
}

#[test]
fn suspend_twice_is_the_same_as_once() {
    let mut ctx = WgpuContext::new();
    let first = ctx.suspend();
    assert!(!ctx.is_active());
    assert_eq!(first, vec![DisplayAction::DestroySurface, DisplayAction::ReleaseOwnership]);
    let second = ctx.suspend();
    assert!(!ctx.is_active());
    assert_eq!(second, Vec::new());
}

#[test]
fn resume_twice_is_the_same_as_once() {
    let mut ctx = WgpuContext::new();
    ctx.suspend();
    let first = ctx.resume();
    assert!(ctx.is_active());
    assert_eq!(first, vec![DisplayAction::AcquireOwnership, DisplayAction::CreateSurface]);
    let second = ctx.resume();
    assert!(ctx.is_active());
    assert_eq!(second, Vec::new());
}

#[test]
fn suspend_always_leaves_the_context_inactive() {
    let mut fresh = WgpuContext::new();
    assert!(fresh.is_active());
    fresh.suspend();
    assert!(!fresh.is_active());

    let mut resumed = WgpuContext::new();
    resumed.suspend();
    resumed.resume();
    assert!(resumed.is_active());
    resumed.suspend();
    assert!(!resumed.is_active());
}

#[test]
fn present_on_an_active_context_yields_the_frame_steps() {
    let ctx = WgpuContext::new();
    let steps = ctx.present().unwrap();
    assert_eq!(
        steps,
        vec![
            FrameStep::AcquireImage,
            FrameStep::RecordClearPass,
            FrameStep::SubmitCommands,
            FrameStep::PresentImage,
        ]
    );
}

#[test]
fn present_on_a_suspended_context_is_not_ready() {
    let mut ctx = WgpuContext::new();
    ctx.suspend();
    assert_eq!(ctx.present(), Err(PresentError::NotReady));
}

#[test]
fn teardown_closes_the_device_last() {
    let mut ctx = WgpuContext::new();
    let acts = ctx.teardown();
    assert_eq!(
        acts,
        vec![
            DisplayAction::DestroySurface,
            DisplayAction::ReleaseOwnership,
            DisplayAction::CloseDevice,
        ]
    );
    assert!(!ctx.is_active());

    let mut idle = WgpuContext::new();
    idle.suspend();
    let acts = idle.teardown();
    assert_eq!(acts, vec![DisplayAction::CloseDevice]);
}
