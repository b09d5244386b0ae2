use audio_permissions::lifecycle::ensure_microphone_permission;
use audio_permissions::lifecycle::ensure_screen_recording_permission;
use audio_permissions::lifecycle::EnsureLifecycle;
use audio_permissions::lifecycle::EnsurePhase;
use audio_permissions::model::CaptureProbeOutcome;
use audio_permissions::model::Capability;
use audio_permissions::model::GrantState;
use audio_permissions::model::LaunchOutcome;
use audio_permissions::model::MicTriggerOutcome;
use audio_permissions::model::Platform;
use audio_permissions::model::RequestError;
use audio_permissions::permission::check_microphone_permission;
use audio_permissions::permission::check_probe_plan;
use audio_permissions::permission::check_screen_recording_permission;
use audio_permissions::permission::request_effect_plan;
use audio_permissions::permission::request_microphone_permission;
use audio_permissions::permission::request_screen_recording_permission;
use audio_permissions::permission::system_settings_target;
use audio_permissions::permission::trigger_system_audio_permission;
use audio_permissions::permission::CheckProbePlan;
use audio_permissions::permission::RequestEffectPlan;
use audio_permissions::startup::init_microphone_permission;
use audio_permissions::startup::RunOnceFlag;
use audio_permissions::startup::STARTUP_SETTLE_DELAY_MS;
use audio_permissions::text::contains_ci;
use audio_permissions::text::is_permission_shaped;

#[test]
fn test_check_permission() {
    let has_permission = check_screen_recording_permission(Platform::MacOs);
    println!("Has Screen Recording permission: {}", has_permission);
}

#[test]
fn test_check_microphone_permission() {
    let has_permission = check_microphone_permission(Platform::MacOs, true);
    println!("Has Microphone permission: {}", has_permission);
}

#[test]
fn unsupported_platform_is_deterministically_granted() {
    assert!(check_screen_recording_permission(Platform::Unsupported));
    assert!(check_microphone_permission(Platform::Unsupported, false));
    assert!(request_screen_recording_permission(
        Platform::Unsupported,
        LaunchOutcome::SpawnFailed(String::from("launcher missing")),
    )
    .is_ok());
    assert!(request_microphone_permission(
        Platform::Unsupported,
        MicTriggerOutcome::Failed(String::from("no backend")),
    )
    .is_ok());
    assert!(trigger_system_audio_permission(
        Platform::Unsupported,
        CaptureProbeOutcome::EngineFailed(String::from("no engine")),
    )
    .is_ok());
    assert!(ensure_microphone_permission(
        Platform::Unsupported,
        false,
        MicTriggerOutcome::Failed(String::from("no backend")),
        false,
    ));
    assert!(ensure_screen_recording_permission(
        Platform::Unsupported,
        LaunchOutcome::SpawnFailed(String::from("launcher missing")),
    ));
    assert_eq!(
        check_probe_plan(Platform::Unsupported, Capability::Microphone),
        CheckProbePlan::NoProbe
    );
    assert_eq!(
        check_probe_plan(Platform::Unsupported, Capability::SystemAudioCapture),
        CheckProbePlan::NoProbe
    );
    assert_eq!(
        request_effect_plan(Platform::Unsupported, Capability::Microphone),
        RequestEffectPlan::NoEffect
    );
    assert_eq!(
        request_effect_plan(Platform::Unsupported, Capability::SystemAudioCapture),
        RequestEffectPlan::NoEffect
    );
}

#[test]
fn macos_plans_probe_and_effects() {
    assert_eq!(
        check_probe_plan(Platform::MacOs, Capability::Microphone),
        CheckProbePlan::ProbeDefaultInputDevice
    );
    assert_eq!(
        check_probe_plan(Platform::MacOs, Capability::SystemAudioCapture),
        CheckProbePlan::NoProbe
    );
    assert_eq!(
        request_effect_plan(Platform::MacOs, Capability::SystemAudioCapture),
        RequestEffectPlan::OpenSettingsPanel
    );
    assert_eq!(
        request_effect_plan(Platform::MacOs, Capability::Microphone),
        RequestEffectPlan::TriggerMicrophoneStream
    );
}

#[test]
fn ensure_skips_request_when_already_granted() {
    let mut run = EnsureLifecycle::begin(Capability::Microphone);
    run.report_check(GrantState::Granted);
    assert!(run.is_complete());
    assert_eq!(run.verdict(), GrantState::Granted);
    assert!(!run.requested);
}

#[test]
fn ensure_system_audio_is_not_granted_by_a_successful_request() {
    let mut run = EnsureLifecycle::begin(Capability::SystemAudioCapture);
    run.report_check(GrantState::NotGranted);
    assert!(!run.is_complete());
    run.report_request(true);
    assert!(run.is_complete());
    assert_eq!(run.verdict(), GrantState::NotGranted);
    assert!(run.requested);
}

#[test]
fn ensure_system_audio_failed_request_is_not_granted() {
    let mut run = EnsureLifecycle::begin(Capability::SystemAudioCapture);
    run.report_check(GrantState::NotGranted);
    run.report_request(false);
    assert!(run.is_complete());
    assert_eq!(run.verdict(), GrantState::NotGranted);
}

#[test]
fn ensure_microphone_rechecks_after_successful_request() {
    let mut run = EnsureLifecycle::begin(Capability::Microphone);
    run.report_check(GrantState::NotGranted);
    run.report_request(true);
    assert!(!run.is_complete());
    assert!(matches!(run.phase, EnsurePhase::AwaitingRecheck));
    run.report_check(GrantState::Granted);
    assert!(run.is_complete());
    assert_eq!(run.verdict(), GrantState::Granted);
    assert!(run.requested);
}

#[test]
fn probe_permission_text_classifies_as_success() {
    let outcome = CaptureProbeOutcome::EngineFailed(String::from("PERMISSION denied by user"));
    assert!(trigger_system_audio_permission(Platform::MacOs, outcome).is_ok());
    let outcome = CaptureProbeOutcome::StreamOpenFailed(String::from("Permission was refused"));
    assert!(trigger_system_audio_permission(Platform::MacOs, outcome).is_ok());
}

#[test]
fn probe_audio_text_classifies_as_success() {
    let outcome = CaptureProbeOutcome::StreamOpenFailed(String::from("AUDIO backend unavailable"));
    assert!(trigger_system_audio_permission(Platform::MacOs, outcome).is_ok());
    let outcome = CaptureProbeOutcome::StreamOpened;
    assert!(trigger_system_audio_permission(Platform::MacOs, outcome).is_ok());
}

#[test]
fn probe_other_text_propagates_verbatim() {
    let outcome = CaptureProbeOutcome::StreamOpenFailed(String::from("device busy"));
    match trigger_system_audio_permission(Platform::MacOs, outcome) {
        Err(RequestError::ProbeFailed(m)) => assert_eq!(m, "device busy"),
        other => panic!("expected a propagated probe failure, got {:?}", other),
    }
    let outcome = CaptureProbeOutcome::EngineFailed(String::from("device busy"));
    match trigger_system_audio_permission(Platform::MacOs, outcome) {
        Err(RequestError::ProbeFailed(m)) => assert_eq!(m, "device busy"),
        other => panic!("expected a propagated engine failure, got {:?}", other),
    }
}

#[test]
fn request_screen_recording_reports_launch_failures() {
    assert!(request_screen_recording_permission(Platform::MacOs, LaunchOutcome::Spawned).is_ok());
    let launch = LaunchOutcome::SpawnFailed(String::from("spawn error"));
    match request_screen_recording_permission(Platform::MacOs, launch) {
        Err(RequestError::LaunchFailed(m)) => assert_eq!(m, "spawn error"),
        other => panic!("expected a launch failure, got {:?}", other),
    }
}

#[test]
fn request_microphone_propagates_trigger_failure_verbatim() {
    assert!(request_microphone_permission(Platform::MacOs, MicTriggerOutcome::Triggered).is_ok());
    let trigger = MicTriggerOutcome::Failed(String::from("backend exploded"));
    match request_microphone_permission(Platform::MacOs, trigger) {
        Err(e) => {
            assert_eq!(e.message(), "backend exploded");
            assert!(matches!(e, RequestError::ProbeFailed(_)));
        }
        other => panic!("expected a propagated trigger failure, got {:?}", other),
    }
}

#[test]
fn ensure_microphone_returns_the_fresh_check_result() {
    assert!(ensure_microphone_permission(
        Platform::MacOs,
        false,
        MicTriggerOutcome::Triggered,
        true,
    ));
    assert!(!ensure_microphone_permission(
        Platform::MacOs,
        false,
        MicTriggerOutcome::Triggered,
        false,
    ));
}

#[test]
fn ensure_microphone_failed_request_is_not_granted() {
    assert!(!ensure_microphone_permission(
        Platform::MacOs,
        false,
        MicTriggerOutcome::Failed(String::from("boom")),
        true,
    ));
}

#[test]
fn ensure_microphone_granted_check_ignores_later_outcomes() {
    assert!(ensure_microphone_permission(
        Platform::MacOs,
        true,
        MicTriggerOutcome::Failed(String::from("would have failed")),
        false,
    ));
}

#[test]
fn ensure_screen_recording_is_granted_without_a_request() {
    assert!(ensure_screen_recording_permission(
        Platform::MacOs,
        LaunchOutcome::SpawnFailed(String::from("launcher never consulted")),
    ));
}

#[test]
fn check_microphone_follows_the_device_probe() {
    assert!(check_microphone_permission(Platform::MacOs, true));
    assert!(!check_microphone_permission(Platform::MacOs, false));
}

#[test]
fn init_schedules_exactly_one_task() {
    let mut flag = RunOnceFlag::new();
    let mut scheduled = 0;
    for _ in 0..5 {
        if let Some(task) = init_microphone_permission(&mut flag) {
            scheduled += 1;
            assert_eq!(task.settle_delay_ms, STARTUP_SETTLE_DELAY_MS);
            assert_eq!(task.settle_delay_ms, 500);
        }
    }
    assert_eq!(scheduled, 1);
}

#[test]
fn settings_target_is_the_fixed_os_contract() {
    assert_eq!(
        system_settings_target(),
        "x-apple.systempreferences:com.apple.preference.security"
    );
}

#[test]
fn case_insensitive_containment_edges() {
    assert!(contains_ci("", ""));
    assert!(contains_ci("abc", ""));
    assert!(!contains_ci("", "a"));
    assert!(contains_ci("PeRmIsSiOn", "permission"));
    assert!(contains_ci("xxPERMISSIONxx", "permission"));
    assert!(!contains_ci("autio", "audio"));
    assert!(!contains_ci("permissio", "permission"));
}

#[test]
fn permission_shaped_text_classification() {
    assert!(is_permission_shaped("Permission denied"));
    assert!(is_permission_shaped("the AUDIO tap failed"));
    assert!(is_permission_shaped("s\u{f6}me PERMISSION t\u{eb}xt"));
    assert!(!is_permission_shaped("device busy"));
    assert!(!is_permission_shaped(""));
}
