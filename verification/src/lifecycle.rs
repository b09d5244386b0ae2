//! The idempotent "ensure granted" composition.
//!
//! `EnsureLifecycle` is the step-by-step form: the embedding application
//! asks which effect comes next, performs it, and reports the observed
//! outcome; the machine decides, and its invariant pins down when a
//! request may be signalled and what verdict each history yields. The
//! `ensure_*` functions fold a whole run of the machine over outcomes
//! supplied up front.

use vstd::prelude::*;

use crate::model::Capability;
use crate::model::GrantState;
use crate::model::LaunchOutcome;
use crate::model::MicTriggerOutcome;
use crate::model::Platform;
use crate::permission::check_microphone_permission;
use crate::permission::check_screen_recording_permission;
use crate::permission::request_microphone_permission;
use crate::permission::request_screen_recording_permission;
use crate::permission::spec_check_microphone;
use crate::permission::spec_request_microphone;

verus! {

/// Where an ensure run stands: which outcome it is waiting for next.
#[derive(Clone, Copy, PartialEq, Eq, Structural, Debug)]
pub enum EnsurePhase {
    /// Waiting for the first check's observation.
    AwaitingCheck,
    /// The first check found the capability not granted; waiting for
    /// the outcome of the one allowed request.
    AwaitingRequest,
    /// The request succeeded for the microphone; waiting for a fresh
    /// check's observation, which becomes the verdict.
    AwaitingRecheck,
    /// The run is over and the verdict is fixed.
    Complete,
}

/// One run of the "ensure this capability is granted" composition for a
/// single capability, mutating the environment at most once.
#[derive(Clone, Copy, PartialEq, Eq, Structural, Debug)]
pub struct EnsureLifecycle {
    /// The capability this run is about.
    pub capability: Capability,
    /// Which outcome the run waits for next.
    pub phase: EnsurePhase,
    /// What the first check observed, once it has been reported.
    pub first_check: Option<GrantState>,
    /// Whether the run has signalled that the request effect be
    /// performed. At most one request is ever signalled, and never when
    /// the first check already observed a grant.
    pub requested: bool,
    /// The verdict, once the run is complete.
    pub verdict: Option<GrantState>,
}

impl EnsureLifecycle {
    /// Every state a run can actually reach. Among other things: a
    /// request is signalled only after a first check observed
    /// `NotGranted`; a first check that observed `Granted` completes
    /// the run at once with `Granted`; and a system audio capture run
    /// whose first check observed `NotGranted` can only end
    /// `NotGranted`, because that grant requires the user to act in a
    /// separate settings flow.
    pub open spec fn wf(self) -> bool {
        &&& (self.phase is AwaitingCheck ==> self.first_check is None && !self.requested
            && self.verdict is None)
        &&& (self.phase is AwaitingRequest ==> self.first_check == Some(GrantState::NotGranted)
            && !self.requested && self.verdict is None)
        &&& (self.phase is AwaitingRecheck ==> self.first_check == Some(GrantState::NotGranted)
            && self.requested && self.verdict is None
            && self.capability is Microphone)
        &&& (self.phase is Complete ==> self.verdict is Some && self.first_check is Some)
        &&& (self.requested ==> self.first_check == Some(GrantState::NotGranted))
        &&& (self.first_check == Some(GrantState::Granted) ==> !self.requested
            && self.verdict == Some(GrantState::Granted) && self.phase is Complete)
        &&& (self.phase is Complete && self.capability is SystemAudioCapture
            && self.first_check == Some(GrantState::NotGranted)
            ==> self.verdict == Some(GrantState::NotGranted))
    }

    /// Start an ensure run for one capability. Nothing has been
    /// observed and no effect has been signalled.
    pub fn begin(capability: Capability) -> (r: EnsureLifecycle)
        ensures
            r.wf(),
            r.capability == capability,
            r.phase is AwaitingCheck,
            !r.requested,
    {
        EnsureLifecycle {
            capability,
            phase: EnsurePhase::AwaitingCheck,
            first_check: None,
            requested: false,
            verdict: None,
        }
    }

    /// Report what a check observed.
    ///
    /// On the first check, `Granted` completes the run at once with
    /// verdict `Granted` and no request is ever signalled; `NotGranted`
    /// moves the run to the request. On the fresh check after a
    /// successful microphone request, the observation becomes the
    /// verdict, whichever way it went.
    pub fn report_check(&mut self, observed: GrantState)
        requires
            old(self).wf(),
            old(self).phase is AwaitingCheck || old(self).phase is AwaitingRecheck,
        ensures
            final(self).wf(),
            final(self).capability == old(self).capability,
            final(self).requested == old(self).requested,
            old(self).phase is AwaitingCheck ==> {
                &&& final(self).first_check == Some(observed)
                &&& (observed is Granted ==> final(self).phase is Complete && final(self).verdict
                    == Some(GrantState::Granted))
                &&& (observed is NotGranted ==> final(self).phase is AwaitingRequest)
            },
            old(self).phase is AwaitingRecheck ==> final(self).phase is Complete
                && final(self).verdict == Some(observed)
                && final(self).first_check == old(self).first_check,
    {
        match self.phase {
            EnsurePhase::AwaitingCheck => {
                self.first_check = Some(observed);
                match observed {
                    GrantState::Granted => {
                        self.verdict = Some(GrantState::Granted);
                        self.phase = EnsurePhase::Complete;
                    },
                    GrantState::NotGranted => {
                        self.phase = EnsurePhase::AwaitingRequest;
                    },
                }
            },
            _ => {
                self.verdict = Some(observed);
                self.phase = EnsurePhase::Complete;
            },
        }
    }

    /// Report whether the one allowed request succeeded.
    ///
    /// A failed request completes the run with `NotGranted`. A
    /// successful one completes a system audio capture run with
    /// `NotGranted` — the grant happens, if at all, in a separate
    /// settings flow after a restart — and sends a microphone run to a
    /// fresh check.
    pub fn report_request(&mut self, succeeded: bool)
        requires
            old(self).wf(),
            old(self).phase is AwaitingRequest,
        ensures
            final(self).wf(),
            final(self).capability == old(self).capability,
            final(self).first_check == old(self).first_check,
            final(self).requested,
            !succeeded ==> final(self).phase is Complete && final(self).verdict == Some(
                GrantState::NotGranted,
            ),
            succeeded && old(self).capability is SystemAudioCapture ==> final(self).phase is Complete
                && final(self).verdict == Some(GrantState::NotGranted),
            succeeded && old(self).capability is Microphone ==> final(self).phase is AwaitingRecheck,
    {
        self.requested = true;
        if !succeeded {
            self.verdict = Some(GrantState::NotGranted);
            self.phase = EnsurePhase::Complete;
        } else {
            match self.capability {
                Capability::SystemAudioCapture => {
                    self.verdict = Some(GrantState::NotGranted);
                    self.phase = EnsurePhase::Complete;
                },
                Capability::Microphone => {
                    self.phase = EnsurePhase::AwaitingRecheck;
                },
            }
        }
    }

    /// Whether the run is over and the verdict may be read.
    pub fn is_complete(&self) -> (r: bool)
        ensures
            r == (self.phase is Complete),
    {
        match self.phase {
            EnsurePhase::Complete => true,
            _ => false,
        }
    }

    /// The verdict of a completed run.
    pub fn verdict(&self) -> (r: GrantState)
        requires
            self.wf(),
            self.phase is Complete,
        ensures
            self.verdict == Some(r),
    {
        match self.verdict {
            Some(g) => g,
            None => GrantState::NotGranted,
        }
    }
}

/// Law: an ensure run whose first check already observed a grant is
/// complete at once with verdict `Granted`, and no request effect was
/// or ever will be signalled on it.
pub proof fn lemma_granted_check_is_terminal(run: EnsureLifecycle)
    requires
        run.wf(),
        run.first_check == Some(GrantState::Granted),
    ensures
        run.phase is Complete,
        run.verdict == Some(GrantState::Granted),
        !run.requested,
{
}

/// Law: a system audio capture run never ends `Granted` in the same
/// call unless the first check already observed the grant; in
/// particular a successful request does not make it `Granted`.
pub proof fn lemma_system_audio_never_granted_by_request(run: EnsureLifecycle)
    requires
        run.wf(),
        run.capability is SystemAudioCapture,
        run.phase is Complete,
        run.requested,
    ensures
        run.verdict == Some(GrantState::NotGranted),
{
}

/// The verdict of a whole microphone ensure run, folded over the
/// outcomes the environment would supply: the first device probe, the
/// trigger attempt, and the fresh device probe after a successful
/// trigger.
pub open spec fn spec_ensure_microphone(
    platform: Platform,
    device_present_first: bool,
    trigger: MicTriggerOutcome,
    device_present_after: bool,
) -> bool {
    if spec_check_microphone(platform, device_present_first) {
        true
    } else if spec_request_microphone(platform, trigger) is Err {
        false
    } else {
        spec_check_microphone(platform, device_present_after)
    }
}

/// Ensure the microphone is granted, requesting once if needed.
///
/// The arguments are the outcomes the environment supplied at each
/// step; later ones are consulted only when the run reaches that step.
/// When the first check already observes a grant the run is over
/// immediately; a failed request ends the run `NotGranted`; after a
/// successful request the verdict is the fresh check's observation,
/// whichever way it went.
pub fn ensure_microphone_permission(
    platform: Platform,
    device_present_first: bool,
    trigger: MicTriggerOutcome,
    device_present_after: bool,
) -> (r: bool)
    ensures
        r == spec_ensure_microphone(platform, device_present_first, trigger, device_present_after),
{
    let mut run = EnsureLifecycle::begin(Capability::Microphone);
    let first = check_microphone_permission(platform, device_present_first);
    run.report_check(GrantState::from_bool(first));
    if !run.is_complete() {
        let request = request_microphone_permission(platform, trigger);
        run.report_request(request.is_ok());
        if !run.is_complete() {
            let fresh = check_microphone_permission(platform, device_present_after);
            run.report_check(GrantState::from_bool(fresh));
        }
    }
    run.verdict().as_bool()
}

/// Ensure system audio capture is granted.
///
/// The check for this capability always reports granted — the real
/// consent dialog belongs to the capture subsystem's first tap — so the
/// run completes on its first step and the launcher outcome is never
/// consulted. The request branch exists for the general contract: were
/// the check ever to observe `NotGranted`, a successful request would
/// still end the run `NotGranted`, because the grant requires the user
/// to act in a separate settings flow. The function keeps its
/// historical name from the command surface.
pub fn ensure_screen_recording_permission(platform: Platform, launch: LaunchOutcome) -> (r: bool)
    ensures
        r == true,
{
    let mut run = EnsureLifecycle::begin(Capability::SystemAudioCapture);
    let granted = check_screen_recording_permission(platform);
    run.report_check(GrantState::from_bool(granted));
    if !run.is_complete() {
        let request = request_screen_recording_permission(platform, launch);
        run.report_request(request.is_ok());
    }
    run.verdict().as_bool()
}

/// Law: a microphone ensure run whose request succeeded returns exactly
/// what the fresh check observed — it may be granted or not, depending
/// on the environment.
pub proof fn lemma_microphone_verdict_is_fresh_check(
    platform: Platform,
    device_present_first: bool,
    trigger: MicTriggerOutcome,
    device_present_after: bool,
)
    requires
        !spec_check_microphone(platform, device_present_first),
        spec_request_microphone(platform, trigger) is Ok,
    ensures
        spec_ensure_microphone(platform, device_present_first, trigger, device_present_after)
            == spec_check_microphone(platform, device_present_after),
{
}

/// Law: on a platform without the OS permission concepts the ensure
/// verdict is granted, whatever outcomes are supplied; together with
/// the probe plans being empty there, the whole operation is a
/// deterministic no-op.
pub proof fn lemma_unsupported_ensure_is_granted(
    device_present_first: bool,
    trigger: MicTriggerOutcome,
    device_present_after: bool,
)
    ensures
        spec_ensure_microphone(
            Platform::Unsupported,
            device_present_first,
            trigger,
            device_present_after,
        ) == true,
{
}

/// Law: when the first check already reports granted, the ensure
/// verdict is granted and does not depend on any later outcome.
pub proof fn lemma_ensure_is_idempotent_when_granted(
    platform: Platform,
    device_present_first: bool,
    trigger: MicTriggerOutcome,
    device_present_after: bool,
)
    requires
        spec_check_microphone(platform, device_present_first),
    ensures
        spec_ensure_microphone(platform, device_present_first, trigger, device_present_after)
            == true,
{
}

} // verus!
