//! The data model: platforms, capabilities, grant states, observed
//! collaborator outcomes, and the error taxonomy.

use vstd::prelude::*;

verus! {

/// The platform the process runs on, as far as permission handling is
/// concerned. Only macOS has the audio permission concepts this crate
/// manages; every other platform falls back to a granted no-op.
#[derive(Clone, Copy, PartialEq, Eq, Structural, Debug)]
pub enum Platform {
    MacOs,
    Unsupported,
}

/// A capability whose grant state the subsystem manages. The two are
/// independent: no ordering or dependency holds between them.
#[derive(Clone, Copy, PartialEq, Eq, Structural, Debug)]
pub enum Capability {
    Microphone,
    SystemAudioCapture,
}

/// Whether a capability is currently granted. Never cached: every query
/// derives it fresh from a probe of the environment, so two consecutive
/// queries may legitimately disagree.
#[derive(Clone, Copy, PartialEq, Eq, Structural, Debug)]
pub enum GrantState {
    Granted,
    NotGranted,
}

impl GrantState {
    /// The boolean rendering used by the query functions.
    pub open spec fn spec_as_bool(self) -> bool {
        self is Granted
    }

    /// Convert a grant state to the boolean the command surface reports.
    pub fn as_bool(self) -> (r: bool)
        ensures
            r == self.spec_as_bool(),
    {
        match self {
            GrantState::Granted => true,
            GrantState::NotGranted => false,
        }
    }

    /// Convert a probe's boolean verdict into a grant state.
    pub fn from_bool(granted: bool) -> (r: GrantState)
        ensures
            r.spec_as_bool() == granted,
    {
        if granted {
            GrantState::Granted
        } else {
            GrantState::NotGranted
        }
    }
}

/// Outcome of asking the OS to open the privacy settings panel: the
/// launcher process either spawned or failed with the OS error text.
#[derive(Clone, Debug)]
pub enum LaunchOutcome {
    Spawned,
    SpawnFailed(String),
}

/// Outcome of the microphone trigger: the collaborator's attempt to open
/// a capture stream, made purely to provoke the OS consent dialog.
#[derive(Clone, Debug)]
pub enum MicTriggerOutcome {
    Triggered,
    Failed(String),
}

/// Outcome of the capture-engine probe for system audio: constructing
/// the engine and opening a stream from it, each of which may fail with
/// free-form error text.
#[derive(Clone, Debug)]
pub enum CaptureProbeOutcome {
    StreamOpened,
    StreamOpenFailed(String),
    EngineFailed(String),
}

/// Why a request operation failed. No variant is fatal: permission
/// handling is best-effort from the application's perspective.
#[derive(Clone, Debug)]
pub enum RequestError {
    /// The external settings launcher could not be spawned.
    LaunchFailed(String),
    /// The capture-engine probe failed for a reason not classified as
    /// permission-related; the collaborator's text is kept verbatim.
    ProbeFailed(String),
}

impl RequestError {
    /// The collaborator's error text carried by this error.
    pub fn message(&self) -> (r: &String)
        ensures
            self matches RequestError::LaunchFailed(m) ==> r == m,
            self matches RequestError::ProbeFailed(m) ==> r == m,
    {
        match self {
            RequestError::LaunchFailed(m) => m,
            RequestError::ProbeFailed(m) => m,
        }
    }
}

} // verus!
