//! Verified core of the update scheduler: the at-most-once pending-update
//! and download guards, the short-circuiting check, and the decisions of the
//! startup sequence and of the manual "check now" trigger.
//!
//! The host owns the update source, the periodic timer, the wake signal and
//! the exclusive-access wrapper; it queries the source when the model says a
//! query is owed, hands the outcome to [`AppUpdater::check`], and publishes
//! the returned state.  The manual trigger is a non-blocking acquisition
//! whose outcome feeds [`decide_manual_check`].

use vstd::prelude::*;

use crate::models::{UpdaterState, UpdaterStateView};

verus! {

/// The pending update, reduced to the plain value the scheduler reads: the
/// version label the update source announced.
#[derive(Debug)]
pub struct UpdateDescriptor {
    pub version: String,
}

impl View for UpdateDescriptor {
    type V = Seq<char>;

    open spec fn view(&self) -> Seq<char> {
        self.version@
    }
}

/// What one query of the update source yielded; produced by the host's
/// update port and handed to [`AppUpdater::check`].
#[derive(Debug)]
pub enum CheckOutcome {
    Found(UpdateDescriptor),
    NoUpdate,
    Failed(String),
}

/// Mathematical image of [`CheckOutcome`].
pub enum CheckOutcomeView {
    Found(Seq<char>),
    NoUpdate,
    Failed(Seq<char>),
}

impl View for CheckOutcome {
    type V = CheckOutcomeView;

    open spec fn view(&self) -> CheckOutcomeView {
        match self {
            CheckOutcome::Found(descriptor) => CheckOutcomeView::Found(descriptor@),
            CheckOutcome::NoUpdate => CheckOutcomeView::NoUpdate,
            CheckOutcome::Failed(message) => CheckOutcomeView::Failed(message@),
        }
    }
}

impl DeepView for CheckOutcome {
    type V = CheckOutcomeView;

    open spec fn deep_view(&self) -> CheckOutcomeView {
        self.view()
    }
}

/// How one check evolves the pending descriptor and what state it reports: a
/// pending descriptor short-circuits to `NewVersion` untouched; otherwise a
/// positive outcome is stored and reported, a negative one reports
/// `Unknown`, and a failed query reports the error, recoverably.
pub open spec fn spec_check(
    pending: Option<Seq<char>>,
    outcome: Option<CheckOutcomeView>,
) -> (Option<Seq<char>>, UpdaterStateView) {
    match pending {
        Some(version) => (Some(version), UpdaterStateView::NewVersion),
        None => match outcome {
            Some(CheckOutcomeView::Found(version)) => (
                Some(version),
                UpdaterStateView::NewVersion,
            ),
            Some(CheckOutcomeView::NoUpdate) => (None, UpdaterStateView::Unknown),
            Some(CheckOutcomeView::Failed(message)) => (None, UpdaterStateView::Error(message)),
            None => (None, UpdaterStateView::Unknown),
        },
    }
}

/// The update scheduler's shared state: at most one pending update
/// descriptor (set once a positive check succeeds, cleared never), the
/// at-most-once download guard, and whether the background periodic checker
/// has been started.
#[derive(Debug)]
pub struct AppUpdater {
    update_info: Option<UpdateDescriptor>,
    has_downloaded: bool,
    checker_running: bool,
}

impl AppUpdater {
    /// The version label of the pending update, if one is held.
    pub closed spec fn pending(&self) -> Option<Seq<char>> {
        match self.update_info {
            Some(descriptor) => Some(descriptor@),
            None => None,
        }
    }

    /// Whether the at-most-once download has already happened.
    pub closed spec fn downloaded(&self) -> bool {
        self.has_downloaded
    }

    /// Whether the background periodic checker has been started.
    pub closed spec fn running_checker(&self) -> bool {
        self.checker_running
    }

    /// A fresh updater: nothing pending, nothing downloaded, no checker.
    pub fn new() -> (u: Self)
        ensures
            u.pending() is None,
            !u.downloaded(),
            !u.running_checker(),
    {
        AppUpdater { update_info: None, has_downloaded: false, checker_running: false }
    }

    /// Whether the next check owes a query of the update source: it does
    /// exactly when no descriptor is pending.
    pub fn needs_query(&self) -> (r: bool)
        ensures
            r == (self.pending() is None),
    {
        self.update_info.is_none()
    }

    /// Performs one check.  The caller queries the update source exactly
    /// when a query is owed (see [`Self::needs_query`]) and hands the
    /// outcome in; with a descriptor already pending the check
    /// short-circuits to `NewVersion` without consuming anything.  A failed
    /// query is recoverable: it is reported and nothing is stored.
    pub fn check(&mut self, outcome: Option<CheckOutcome>) -> (state: UpdaterState)
        requires
            (old(self).pending() is None) <==> (outcome is Some),
        ensures
            ({
                let (pending, reported) = spec_check(old(self).pending(), outcome.deep_view());
                &&& final(self).pending() == pending
                &&& state@ == reported
                &&& final(self).downloaded() == old(self).downloaded()
                &&& final(self).running_checker() == old(self).running_checker()
            }),
    {
        if self.update_info.is_some() {
            return UpdaterState::NewVersion;
        }
        match outcome {
            Some(CheckOutcome::Found(descriptor)) => {
                self.update_info = Some(descriptor);
                UpdaterState::NewVersion
            },
            Some(CheckOutcome::NoUpdate) => UpdaterState::Unknown,
            Some(CheckOutcome::Failed(message)) => UpdaterState::Error(message),
            None => UpdaterState::Unknown,
        }
    }

    /// The at-most-once install guard: the first call (with an update
    /// pending) asks the host to perform the download, every later call is a
    /// no-op.  Callers reach this only after a check: either a download has
    /// already happened or a descriptor is pending.
    pub fn download_and_install(&mut self) -> (performed: bool)
        requires
            old(self).downloaded() || old(self).pending() is Some,
        ensures
            final(self).downloaded(),
            performed == !old(self).downloaded(),
            final(self).pending() == old(self).pending(),
            final(self).running_checker() == old(self).running_checker(),
    {
        if self.has_downloaded {
            return false;
        }
        self.has_downloaded = true;
        true
    }

    /// Whether the background periodic checker has been started.
    pub fn is_background_checker_running(&self) -> (r: bool)
        ensures
            r == self.running_checker(),
    {
        self.checker_running
    }

    /// Records that the background periodic checker has been spawned.
    pub fn set_checker_running(&mut self)
        ensures
            final(self).running_checker(),
            final(self).pending() == old(self).pending(),
            final(self).downloaded() == old(self).downloaded(),
    {
        self.checker_running = true;
    }

    /// Records that the background periodic checker has been joined and is
    /// gone.
    pub fn stop(&mut self)
        ensures
            !final(self).running_checker(),
            final(self).pending() == old(self).pending(),
            final(self).downloaded() == old(self).downloaded(),
    {
        self.checker_running = false;
    }
}

/// A pending update descriptor sticks: once held, any further check leaves
/// it in place and short-circuits to `NewVersion`, whatever the outcome of a
/// query would have been.
pub proof fn lemma_pending_update_sticks(
    pending: Option<Seq<char>>,
    outcome: Option<CheckOutcomeView>,
)
    requires
        pending is Some,
    ensures
        spec_check(pending, outcome).0 == pending,
        spec_check(pending, outcome).1 == UpdaterStateView::NewVersion,
{
}

/// Decision for a manual "check now" trigger.
#[derive(Clone, Copy, Debug, PartialEq, Eq, Structural)]
pub enum TriggerDecision {
    Wake,
    AlreadyRunning,
    NoChecker,
}

/// Single-flight rule for the manual trigger: a trigger that cannot acquire
/// the updater's exclusive access reports the in-flight check instead of
/// starting one; a trigger that acquires it wakes the periodic checker, if
/// one runs.
pub open spec fn spec_manual_trigger(acquired: bool, checker_running: bool) -> TriggerDecision {
    if !acquired {
        TriggerDecision::AlreadyRunning
    } else if checker_running {
        TriggerDecision::Wake
    } else {
        TriggerDecision::NoChecker
    }
}

/// Decides a manual "check now" trigger from the outcome of the non-blocking
/// acquisition of the updater and whether the background checker runs.
pub fn decide_manual_check(acquired: bool, checker_running: bool) -> (decision: TriggerDecision)
    ensures
        decision == spec_manual_trigger(acquired, checker_running),
{
    if !acquired {
        TriggerDecision::AlreadyRunning
    } else if checker_running {
        TriggerDecision::Wake
    } else {
        TriggerDecision::NoChecker
    }
}

/// Single-flight: a manual trigger issued while a check already holds the
/// updater's exclusive access yields the already-running notice and starts
/// no second check; one issued while idle, with the background checker
/// running, cuts the periodic timer short with a wake.
pub proof fn lemma_manual_trigger_single_flight(acquired: bool, checker_running: bool)
    ensures
        !acquired ==> spec_manual_trigger(acquired, checker_running)
            == TriggerDecision::AlreadyRunning,
        acquired && checker_running ==> spec_manual_trigger(acquired, checker_running)
            == TriggerDecision::Wake,
{
}

/// What the startup sequence does after its first check.
#[derive(Clone, Copy, Debug, PartialEq, Eq, Structural)]
pub enum StartupAction {
    InstallUpdate,
    EnterPeriodic,
}

/// The startup rule: only a positive first check leads to the one-shot
/// install; every other state enters periodic mode.
pub open spec fn spec_startup_action(state: UpdaterStateView) -> StartupAction {
    if state is NewVersion {
        StartupAction::InstallUpdate
    } else {
        StartupAction::EnterPeriodic
    }
}

/// Decides the startup sequence's next move from the first check's state.
pub fn startup_action(state: &UpdaterState) -> (action: StartupAction)
    ensures
        action == spec_startup_action(state@),
{
    match state {
        UpdaterState::NewVersion => StartupAction::InstallUpdate,
        _ => StartupAction::EnterPeriodic,
    }
}

/// What the startup sequence does after the one-shot install attempt.
#[derive(Clone, Copy, Debug, PartialEq, Eq, Structural)]
pub enum PostInstallAction {
    Restart,
    EnterPeriodic,
}

/// After the install attempt: on success the host is signalled to restart;
/// on failure the failure is logged and the scheduler falls through to
/// periodic mode.
pub fn post_install_action(install_ok: bool) -> (action: PostInstallAction)
    ensures
        action == (if install_ok {
            PostInstallAction::Restart
        } else {
            PostInstallAction::EnterPeriodic
        }),
{
    if install_ok {
        PostInstallAction::Restart
    } else {
        PostInstallAction::EnterPeriodic
    }
}

} // verus!
