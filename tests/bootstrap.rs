use lsar::bootstrap::{Bootstrap, Event, Status, Step};
use lsar::logging::{log_sink_config, LogDestination, LogEncoding, TimeFormat};
use lsar::platform::{BuildMode, Platform};
use lsar::window::{main_window_spec, window_effect};

fn run(b: &mut Bootstrap, events: &[Event]) -> Vec<Step> {
    let mut steps = Vec::new();
    for e in events {
        if let Some(s) = b.pending_step() {
            steps.push(s);
        }
        b.handle(*e);
    }
    steps
}

#[test]
fn development_linux_startup() {
    let c = log_sink_config(BuildMode::Development, Platform::Linux);
    assert_eq!(c.destination, LogDestination::Stderr);
    assert_eq!(c.time_format, TimeFormat::TimeOfDay);
    assert!(!main_window_spec(Platform::Linux, false).visible);
    assert_eq!(window_effect(Platform::Linux, false), None);

    let mut b = Bootstrap::start(BuildMode::Development, Platform::Linux);
    let steps = run(&mut b, &[Event::Completed, Event::Completed, Event::Completed]);
    assert_eq!(
        steps,
        vec![Step::SetupLogging, Step::CreateWindow, Step::RegisterSharedState]
    );
    assert!(b.is_ready());
    assert!(b.window_created);
}

#[test]
fn production_macos_startup_with_failed_update_check() {
    let c = log_sink_config(BuildMode::Production, Platform::MacOs);
    assert_eq!(c.destination, LogDestination::ConfigFile);
    assert_eq!(c.encoding, LogEncoding::Json);

    let mut b = Bootstrap::start(BuildMode::Production, Platform::MacOs);
    let steps = run(
        &mut b,
        &[
            Event::Completed,
            Event::Completed,
            Event::ConfigLoaded(true),
            Event::UpdateCheckFinished(false),
            Event::Completed,
            Event::Completed,
            Event::Completed,
        ],
    );
    assert_eq!(
        steps,
        vec![
            Step::SetupLogging,
            Step::RegisterUpdater,
            Step::ReadConfig,
            Step::CreateWindow,
            Step::CreateWindow,
            Step::ApplyEffect,
            Step::RegisterSharedState,
        ]
    );
    assert!(b.is_ready());
    assert!(b.transparent);
}

#[test]
fn update_check_end_never_moves_startup() {
    let mut b = Bootstrap::start(BuildMode::Production, Platform::Windows);
    let before = b;
    b.handle(Event::UpdateCheckFinished(false));
    assert_eq!(b, before);
    b.handle(Event::UpdateCheckFinished(true));
    assert_eq!(b, before);
}

#[test]
fn opaque_windows_skips_effect() {
    let mut b = Bootstrap::start(BuildMode::Production, Platform::Windows);
    let steps = run(
        &mut b,
        &[
            Event::Completed,
            Event::Completed,
            Event::ConfigLoaded(false),
            Event::Completed,
            Event::Completed,
        ],
    );
    assert_eq!(
        steps,
        vec![
            Step::SetupLogging,
            Step::RegisterUpdater,
            Step::ReadConfig,
            Step::CreateWindow,
            Step::RegisterSharedState,
        ]
    );
    assert!(b.is_ready());
}

#[test]
fn window_failure_halts_startup() {
    let mut b = Bootstrap::start(BuildMode::Development, Platform::Linux);
    b.handle(Event::Completed);
    b.handle(Event::StepFailed);
    assert_eq!(b.status, Status::Failed(Step::CreateWindow));
    assert!(!b.window_created);
    b.handle(Event::Completed);
    b.handle(Event::Completed);
    assert_eq!(b.status, Status::Failed(Step::CreateWindow));
    assert_eq!(b.pending_step(), None);
    assert!(!b.is_ready());
}

#[test]
fn config_step_waits_for_config() {
    let mut b = Bootstrap::start(BuildMode::Development, Platform::MacOs);
    b.handle(Event::Completed);
    assert_eq!(b.status, Status::Pending(Step::ReadConfig));
    b.handle(Event::Completed);
    assert_eq!(b.status, Status::Pending(Step::ReadConfig));
    b.handle(Event::ConfigLoaded(true));
    assert_eq!(b.status, Status::Pending(Step::CreateWindow));
}

#[test]
fn mobile_startup_has_no_window_step() {
    let mut b = Bootstrap::start(BuildMode::Production, Platform::Mobile);
    let steps = run(&mut b, &[Event::Completed, Event::Completed]);
    assert_eq!(steps, vec![Step::SetupLogging, Step::RegisterSharedState]);
    assert!(b.is_ready());
}
