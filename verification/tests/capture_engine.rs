use keyboard_hook::engine::CaptureEngine;
use keyboard_hook::engine::EngineAction;
use keyboard_hook::engine::EnginePhase;
use keyboard_hook::err::ListenError;

fn run(engine: &mut CaptureEngine, outcomes: &[bool]) -> Vec<EngineAction> {
    let mut actions = vec![engine.pending_action()];
    for ok in outcomes {
        actions.push(engine.step(*ok));
    }
    actions
}

#[test]
fn unsupported_platform_is_over_at_once() {
    let engine = CaptureEngine::new(false);
    assert_eq!(engine.pending_action(), EngineAction::Finish);
    assert_eq!(engine.current_phase(), EnginePhase::TornDown);
    assert!(engine.is_finished());
    assert_eq!(engine.result(), Some(Err(ListenError::UnsupportedPlatform)));
    assert!(!engine.display_open);
    assert!(!engine.bridge_live);
}

#[test]
fn a_session_that_runs_and_ends() {
    let mut engine = CaptureEngine::new(true);
    assert_eq!(engine.current_phase(), EnginePhase::Unopened);
    assert_eq!(engine.result(), None);
    let actions = run(
        &mut engine,
        &[true, true, true, true, true, true, true, true, true, true, false, true, true, true, true],
    );
    assert_eq!(
        actions,
        vec![
            EngineAction::OpenDisplay,
            EngineAction::InitExtension,
            EngineAction::WrapHandler,
            EngineAction::DescribeRange,
            EngineAction::CreateContext,
            EngineAction::FreeRange,
            EngineAction::EnableContext,
            EngineAction::NotifyStartup,
            EngineAction::WaitForEvents,
            EngineAction::WaitForEvents,
            EngineAction::WaitForEvents,
            EngineAction::DisableContext,
            EngineAction::FreeContext,
            EngineAction::CloseDisplay,
            EngineAction::InvalidateBridge,
            EngineAction::Finish,
        ]
    );
    assert!(engine.is_finished());
    assert_eq!(engine.result(), Some(Ok(())));
    assert!(engine.startup_notified);
    assert!(!engine.display_open && !engine.bridge_live);
    assert!(!engine.context_created && !engine.context_enabled && !engine.range_allocated);
}

#[test]
fn phases_follow_the_start() {
    let mut engine = CaptureEngine::new(true);
    engine.step(true);
    assert_eq!(engine.current_phase(), EnginePhase::DisplayOpened);
    engine.step(true);
    assert_eq!(engine.current_phase(), EnginePhase::ExtensionNegotiated);
    engine.step(true);
    assert_eq!(engine.current_phase(), EnginePhase::ExtensionNegotiated);
    assert!(engine.bridge_live);
    engine.step(true);
    assert!(engine.range_allocated);
    engine.step(true);
    assert_eq!(engine.current_phase(), EnginePhase::ContextCreated);
    engine.step(true);
    assert!(!engine.range_allocated);
    assert!(!engine.callback_may_fire());
    engine.step(true);
    assert_eq!(engine.current_phase(), EnginePhase::ContextEnabled);
    assert!(engine.callback_may_fire());
    assert!(!engine.startup_notified);
    engine.step(true);
    assert_eq!(engine.current_phase(), EnginePhase::Running);
    assert!(engine.startup_notified);
    engine.step(false);
    assert_eq!(engine.current_phase(), EnginePhase::Disabled);
    assert!(engine.callback_may_fire());
    engine.step(true);
    assert!(!engine.callback_may_fire());
    assert!(engine.bridge_live);
    engine.step(true);
    engine.step(true);
    assert!(!engine.display_open);
    assert!(engine.bridge_live);
    assert_eq!(engine.current_phase(), EnginePhase::Disabled);
    engine.step(true);
    assert_eq!(engine.current_phase(), EnginePhase::TornDown);
}

#[test]
fn missing_display() {
    let mut engine = CaptureEngine::new(true);
    let actions = run(&mut engine, &[false]);
    assert_eq!(actions, vec![EngineAction::OpenDisplay, EngineAction::Finish]);
    assert_eq!(engine.result(), Some(Err(ListenError::MissingDisplay)));
}

#[test]
fn extension_unavailable() {
    let mut engine = CaptureEngine::new(true);
    let actions = run(&mut engine, &[true, false, true]);
    assert_eq!(
        actions,
        vec![
            EngineAction::OpenDisplay,
            EngineAction::InitExtension,
            EngineAction::CloseDisplay,
            EngineAction::Finish,
        ]
    );
    assert_eq!(engine.result(), Some(Err(ListenError::ExtensionUnavailable)));
}

#[test]
fn range_cannot_be_described() {
    let mut engine = CaptureEngine::new(true);
    let actions = run(&mut engine, &[true, true, true, false, true, true]);
    assert_eq!(
        actions,
        vec![
            EngineAction::OpenDisplay,
            EngineAction::InitExtension,
            EngineAction::WrapHandler,
            EngineAction::DescribeRange,
            EngineAction::InvalidateBridge,
            EngineAction::CloseDisplay,
            EngineAction::Finish,
        ]
    );
    assert_eq!(engine.result(), Some(Err(ListenError::CreateRangeFailed)));
}

#[test]
fn context_cannot_be_created() {
    let mut engine = CaptureEngine::new(true);
    let actions = run(&mut engine, &[true, true, true, true, false, true, true, true]);
    assert_eq!(
        actions,
        vec![
            EngineAction::OpenDisplay,
            EngineAction::InitExtension,
            EngineAction::WrapHandler,
            EngineAction::DescribeRange,
            EngineAction::CreateContext,
            EngineAction::FreeRange,
            EngineAction::InvalidateBridge,
            EngineAction::CloseDisplay,
            EngineAction::Finish,
        ]
    );
    assert_eq!(engine.result(), Some(Err(ListenError::CreateContextFailed)));
}

#[test]
fn context_cannot_be_enabled() {
    let mut engine = CaptureEngine::new(true);
    let actions = run(&mut engine, &[true, true, true, true, true, true, false, true, true, true]);
    assert_eq!(
        actions,
        vec![
            EngineAction::OpenDisplay,
            EngineAction::InitExtension,
            EngineAction::WrapHandler,
            EngineAction::DescribeRange,
            EngineAction::CreateContext,
            EngineAction::FreeRange,
            EngineAction::EnableContext,
            EngineAction::FreeContext,
            EngineAction::InvalidateBridge,
            EngineAction::CloseDisplay,
            EngineAction::Finish,
        ]
    );
    assert_eq!(engine.result(), Some(Err(ListenError::EnableFailed)));
    assert!(!engine.startup_notified);
}

#[test]
fn outcome_of_actions_that_cannot_fail_is_not_looked_at() {
    let mut engine = CaptureEngine::new(true);
    let actions = run(
        &mut engine,
        &[true, true, false, true, true, false, true, false, false, false, false, false, false],
    );
    assert_eq!(
        actions,
        vec![
            EngineAction::OpenDisplay,
            EngineAction::InitExtension,
            EngineAction::WrapHandler,
            EngineAction::DescribeRange,
            EngineAction::CreateContext,
            EngineAction::FreeRange,
            EngineAction::EnableContext,
            EngineAction::NotifyStartup,
            EngineAction::WaitForEvents,
            EngineAction::DisableContext,
            EngineAction::FreeContext,
            EngineAction::CloseDisplay,
            EngineAction::InvalidateBridge,
            EngineAction::Finish,
        ]
    );
    assert_eq!(engine.result(), Some(Ok(())));
}

#[test]
fn a_finished_session_stays_finished() {
    let mut engine = CaptureEngine::new(true);
    engine.step(false);
    let done = engine;
    assert_eq!(engine.step(true), EngineAction::Finish);
    assert_eq!(engine, done);
    assert_eq!(engine.step(false), EngineAction::Finish);
    assert_eq!(engine, done);
    let mut unsupported = CaptureEngine::new(false);
    assert_eq!(unsupported.step(true), EngineAction::Finish);
    assert_eq!(unsupported.result(), Some(Err(ListenError::UnsupportedPlatform)));
}

#[test]
fn startup_is_announced_once() {
    let mut engine = CaptureEngine::new(true);
    let mut announcements = 0;
    let mut action = engine.pending_action();
    let mut waits = 0;
    while action != EngineAction::Finish {
        if action == EngineAction::NotifyStartup {
            announcements += 1;
        }
        let ok = if action == EngineAction::WaitForEvents {
            waits += 1;
            waits < 50
        } else {
            true
        };
        action = engine.step(ok);
    }
    assert_eq!(announcements, 1);
    assert_eq!(waits, 50);
    assert_eq!(engine.result(), Some(Ok(())));
}

#[test]
fn error_names() {
    assert_eq!(ListenError::MissingDisplay.as_str(), "MissingDisplay");
    assert_eq!(ListenError::ExtensionUnavailable.as_str(), "ExtensionUnavailable");
    assert_eq!(ListenError::CreateRangeFailed.as_str(), "CreateRangeFailed");
    assert_eq!(ListenError::CreateContextFailed.as_str(), "CreateContextFailed");
    assert_eq!(ListenError::EnableFailed.as_str(), "EnableFailed");
    assert_eq!(ListenError::UnsupportedPlatform.as_str(), "UnsupportedPlatform");
}
