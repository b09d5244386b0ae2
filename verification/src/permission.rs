//! Per-capability query and request operations.
//!
//! Each operation is a pure decision over the platform and the outcome
//! the embedding application observed from the OS collaborator. The
//! probe-plan functions say which OS interaction, if any, an operation
//! needs, so a caller on an unsupported platform performs none at all.

use vstd::prelude::*;

use crate::model::CaptureProbeOutcome;
use crate::model::Capability;
use crate::model::LaunchOutcome;
use crate::model::MicTriggerOutcome;
use crate::model::Platform;
use crate::model::RequestError;
use crate::text::is_permission_shaped;
use crate::text::spec_permission_shaped;

verus! {

/// The OS interaction a `check` needs before its verdict can be formed.
#[derive(Clone, Copy, PartialEq, Eq, Structural, Debug)]
pub enum CheckProbePlan {
    /// The verdict is fixed; no process or device is touched.
    NoProbe,
    /// Ask the default audio host for its default input device.
    ProbeDefaultInputDevice,
}

/// The OS side effect a `request` performs.
#[derive(Clone, Copy, PartialEq, Eq, Structural, Debug)]
pub enum RequestEffectPlan {
    /// Nothing is done; the request trivially succeeds.
    NoEffect,
    /// Spawn the OS settings panel at the privacy page.
    OpenSettingsPanel,
    /// Attempt to open a capture stream, which provokes the consent
    /// dialog as a side effect.
    TriggerMicrophoneStream,
}

/// Which probe a `check` of the given capability needs.
pub open spec fn spec_check_probe_plan(platform: Platform, capability: Capability) -> CheckProbePlan {
    if platform is MacOs && capability is Microphone {
        CheckProbePlan::ProbeDefaultInputDevice
    } else {
        CheckProbePlan::NoProbe
    }
}

/// Which side effect a `request` of the given capability performs.
pub open spec fn spec_request_effect_plan(
    platform: Platform,
    capability: Capability,
) -> RequestEffectPlan {
    if platform is Unsupported {
        RequestEffectPlan::NoEffect
    } else if capability is SystemAudioCapture {
        RequestEffectPlan::OpenSettingsPanel
    } else {
        RequestEffectPlan::TriggerMicrophoneStream
    }
}

/// Tell the caller which probe, if any, a `check` of this capability
/// needs. On unsupported platforms, and for system audio capture on
/// every platform, no probe is needed.
pub fn check_probe_plan(platform: Platform, capability: Capability) -> (r: CheckProbePlan)
    ensures
        r == spec_check_probe_plan(platform, capability),
{
    match (platform, capability) {
        (Platform::MacOs, Capability::Microphone) => CheckProbePlan::ProbeDefaultInputDevice,
        _ => CheckProbePlan::NoProbe,
    }
}

/// Tell the caller which side effect a `request` of this capability
/// performs. On unsupported platforms none is performed.
pub fn request_effect_plan(platform: Platform, capability: Capability) -> (r: RequestEffectPlan)
    ensures
        r == spec_request_effect_plan(platform, capability),
{
    match (platform, capability) {
        (Platform::Unsupported, _) => RequestEffectPlan::NoEffect,
        (Platform::MacOs, Capability::SystemAudioCapture) => RequestEffectPlan::OpenSettingsPanel,
        (Platform::MacOs, Capability::Microphone) => RequestEffectPlan::TriggerMicrophoneStream,
    }
}

/// The fixed URI the settings launcher is given to open the OS privacy
/// and security page. The string is a contract with the OS and must not
/// change.
pub open spec fn spec_system_settings_target() -> Seq<char> {
    "x-apple.systempreferences:com.apple.preference.security"@
}

/// The URI handed to the OS process launcher when a system audio
/// capture request opens the settings panel.
pub fn system_settings_target() -> (r: &'static str)
    ensures
        r@ == spec_system_settings_target(),
{
    "x-apple.systempreferences:com.apple.preference.security"
}

/// Whether system audio capture currently reports granted.
///
/// Always true: on macOS the real consent dialog is deferred to the
/// moment the capture subsystem creates its tap, so the check itself
/// shows no dialog; on unsupported platforms the concept does not
/// exist. The function keeps its historical name from the command
/// surface.
pub fn check_screen_recording_permission(platform: Platform) -> (r: bool)
    ensures
        r == true,
{
    let _ = platform;
    true
}

/// Whether a microphone check reports granted, given what the default
/// input device probe observed.
pub open spec fn spec_check_microphone(platform: Platform, device_present: bool) -> bool {
    platform is Unsupported || device_present
}

/// Whether the microphone currently reports granted.
///
/// `device_present` is what the probe planned by `check_probe_plan`
/// observed: whether the default audio host offered a default input
/// device. On unsupported platforms the probe is not run and the check
/// is granted regardless of the argument.
pub fn check_microphone_permission(platform: Platform, device_present: bool) -> (r: bool)
    ensures
        r == spec_check_microphone(platform, device_present),
{
    match platform {
        Platform::Unsupported => true,
        Platform::MacOs => device_present,
    }
}

/// The result a system audio capture request reports for a given
/// launcher outcome.
pub open spec fn spec_request_screen_recording(
    platform: Platform,
    launch: LaunchOutcome,
) -> Result<(), RequestError> {
    match launch {
        LaunchOutcome::Spawned => Ok(()),
        LaunchOutcome::SpawnFailed(m) => {
            if platform is Unsupported {
                Ok(())
            } else {
                Err(RequestError::LaunchFailed(m))
            }
        },
    }
}

/// Ask the OS to surface the system audio capture consent flow by
/// opening its settings panel.
///
/// `launch` is what the launcher spawn planned by `request_effect_plan`
/// observed; on unsupported platforms no spawn is attempted and the
/// request succeeds regardless. A spawn failure is reported as
/// `LaunchFailed` with the OS error text kept verbatim.
pub fn request_screen_recording_permission(platform: Platform, launch: LaunchOutcome) -> (r: Result<
    (),
    RequestError,
>)
    ensures
        r == spec_request_screen_recording(platform, launch),
{
    match platform {
        Platform::Unsupported => Ok(()),
        Platform::MacOs => match launch {
            LaunchOutcome::Spawned => Ok(()),
            LaunchOutcome::SpawnFailed(m) => Err(RequestError::LaunchFailed(m)),
        },
    }
}

/// The result a microphone request reports for a given trigger outcome.
pub open spec fn spec_request_microphone(
    platform: Platform,
    trigger: MicTriggerOutcome,
) -> Result<(), RequestError> {
    match trigger {
        MicTriggerOutcome::Triggered => Ok(()),
        MicTriggerOutcome::Failed(m) => {
            if platform is Unsupported {
                Ok(())
            } else {
                Err(RequestError::ProbeFailed(m))
            }
        },
    }
}

/// Ask the OS to surface the microphone consent dialog.
///
/// `trigger` is what the collaborator's stream-open attempt observed;
/// the attempt itself is what provokes the dialog. On unsupported
/// platforms no attempt is made and the request succeeds regardless. A
/// failure is propagated verbatim as `ProbeFailed`.
pub fn request_microphone_permission(platform: Platform, trigger: MicTriggerOutcome) -> (r: Result<
    (),
    RequestError,
>)
    ensures
        r == spec_request_microphone(platform, trigger),
{
    match platform {
        Platform::Unsupported => Ok(()),
        Platform::MacOs => match trigger {
            MicTriggerOutcome::Triggered => Ok(()),
            MicTriggerOutcome::Failed(m) => Err(RequestError::ProbeFailed(m)),
        },
    }
}

/// The classification a capture-engine probe outcome receives: a
/// permission-shaped failure counts as success, because provoking the
/// consent dialog is exactly what the probe set out to do; any other
/// failure is propagated verbatim.
pub open spec fn spec_trigger_system_audio(
    platform: Platform,
    probe: CaptureProbeOutcome,
) -> Result<(), RequestError> {
    if platform is Unsupported {
        Ok(())
    } else {
        match probe {
            CaptureProbeOutcome::StreamOpened => Ok(()),
            CaptureProbeOutcome::StreamOpenFailed(m) => {
                if spec_permission_shaped(m@) {
                    Ok(())
                } else {
                    Err(RequestError::ProbeFailed(m))
                }
            },
            CaptureProbeOutcome::EngineFailed(m) => {
                if spec_permission_shaped(m@) {
                    Ok(())
                } else {
                    Err(RequestError::ProbeFailed(m))
                }
            },
        }
    }
}

/// Classify the outcome of the capture-engine probe that was run to
/// provoke the system audio consent dialog.
///
/// A failure whose text mentions `permission` or `audio` in any letter
/// case is the expected consent-pending outcome and classifies as
/// success; any other failure is returned verbatim as `ProbeFailed`.
/// On unsupported platforms the probe is not run and the operation
/// succeeds regardless of the argument.
pub fn trigger_system_audio_permission(platform: Platform, probe: CaptureProbeOutcome) -> (r:
    Result<(), RequestError>)
    ensures
        r == spec_trigger_system_audio(platform, probe),
{
    match platform {
        Platform::Unsupported => Ok(()),
        Platform::MacOs => match probe {
            CaptureProbeOutcome::StreamOpened => Ok(()),
            CaptureProbeOutcome::StreamOpenFailed(m) => {
                if is_permission_shaped(m.as_str()) {
                    Ok(())
                } else {
                    Err(RequestError::ProbeFailed(m))
                }
            },
            CaptureProbeOutcome::EngineFailed(m) => {
                if is_permission_shaped(m.as_str()) {
                    Ok(())
                } else {
                    Err(RequestError::ProbeFailed(m))
                }
            },
        },
    }
}

/// Law: on a platform without the OS permission concepts, every check
/// reports granted, every request succeeds, and no probe or launch
/// interaction is planned, whatever outcomes are supplied.
pub proof fn lemma_unsupported_platform_is_trivial(
    capability: Capability,
    device_present: bool,
    launch: LaunchOutcome,
    trigger: MicTriggerOutcome,
    probe: CaptureProbeOutcome,
)
    ensures
        spec_check_probe_plan(Platform::Unsupported, capability) is NoProbe,
        spec_request_effect_plan(Platform::Unsupported, capability) is NoEffect,
        spec_check_microphone(Platform::Unsupported, device_present) == true,
        spec_request_screen_recording(Platform::Unsupported, launch) is Ok,
        spec_request_microphone(Platform::Unsupported, trigger) is Ok,
        spec_trigger_system_audio(Platform::Unsupported, probe) is Ok,
{
}

} // verus!
