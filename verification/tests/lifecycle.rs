use backend_supervisor::events::{
    StreamKind, MAIN_TITLE, MAIN_WINDOW, READY_EVENT, READY_MESSAGE, SPLASH_WINDOW, STDERR_EVENT,
    STDOUT_EVENT,
};
use backend_supervisor::gate::GateSignal;
use backend_supervisor::launch::Platform;
use backend_supervisor::lifecycle::{
    autostart_backend, on_window_signal, signal_after_start, BuildProfile, WindowSignal,
    FORCE_AUTOSTART_VAR,
};
use backend_supervisor::supervisor::{StartStatus, SupervisorError};

#[test]
fn names_shared_with_the_ui() {
    assert_eq!(READY_EVENT, "backend:ready");
    assert_eq!(READY_MESSAGE, "spawn ok");
    assert_eq!(STDOUT_EVENT, "backend:stdout");
    assert_eq!(STDERR_EVENT, "backend:stderr");
    assert_eq!(SPLASH_WINDOW, "splash");
    assert_eq!(MAIN_WINDOW, "main");
    assert_eq!(MAIN_TITLE, "向听镜 - Shanten Lens");
    assert_eq!(StreamKind::Stdout.event_name(), "backend:stdout");
    assert_eq!(StreamKind::Stderr.event_name(), "backend:stderr");
}

#[test]
fn release_build_always_starts_the_backend() {
    assert_eq!(FORCE_AUTOSTART_VAR, "FORCE_AUTOSTART_BACKEND");
    assert!(autostart_backend(BuildProfile::Release, None));
    assert!(autostart_backend(BuildProfile::Release, Some("0")));
    assert!(autostart_backend(BuildProfile::Release, Some("1")));
}

#[test]
fn debug_build_starts_the_backend_only_when_forced() {
    assert!(autostart_backend(BuildProfile::Debug, Some("1")));
    assert!(!autostart_backend(BuildProfile::Debug, None));
    assert!(!autostart_backend(BuildProfile::Debug, Some("")));
    assert!(!autostart_backend(BuildProfile::Debug, Some("0")));
    assert!(!autostart_backend(BuildProfile::Debug, Some("true")));
    assert!(!autostart_backend(BuildProfile::Debug, Some("11")));
    assert!(!autostart_backend(BuildProfile::Debug, Some(" 1")));
    assert!(!autostart_backend(BuildProfile::Debug, Some("１")));
}

#[test]
fn a_start_that_succeeded_reports_the_backend_ready() {
    assert_eq!(signal_after_start(&Ok(StartStatus::AlreadyRunning)), Some(GateSignal::BackendReady));
    assert_eq!(
        signal_after_start(&Ok(StartStatus::Spawned("x".to_string()))),
        Some(GateSignal::BackendReady)
    );
    assert_eq!(signal_after_start(&Err(SupervisorError::BackendNotFound)), None);
    assert_eq!(signal_after_start(&Err(SupervisorError::SpawnFailed("e".to_string()))), None);
}

#[test]
fn closing_the_main_window_ends_the_backend() {
    for signal in [WindowSignal::CloseRequested, WindowSignal::Destroyed] {
        let on_windows = on_window_signal(signal, Platform::Windows);
        assert!(on_windows.stop);
        let kill = on_windows.kill_all.unwrap();
        assert_eq!(kill.program, "taskkill");
        assert_eq!(kill.args, vec!["/IM", "shanten-backend.exe", "/F", "/T"]);
        assert_eq!(kill.creation_flags, 0x0800_0000);
        let elsewhere = on_window_signal(signal, Platform::Other);
        assert!(elsewhere.stop);
        assert_eq!(elsewhere.kill_all, None);
    }
}

#[test]
fn other_window_signals_do_nothing() {
    let shutdown = on_window_signal(WindowSignal::Other, Platform::Windows);
    assert!(!shutdown.stop);
    assert_eq!(shutdown.kill_all, None);
}
