//! Core data types: the lifecycle states emitted by the watcher, the updater
//! states, the heartbeat records published to the UI sink, and the plain
//! configuration values the core consumes.
//!
//! Timestamps are carried as milliseconds (`u64`) supplied by the host, and
//! poll intervals likewise, so every field is a plain value the contracts can
//! speak about.

use vstd::prelude::*;

verus! {

/// Lifecycle state of the monitored process, as last *emitted* by the
/// watcher (observed raw conditions may be suppressed by the reducer).
#[derive(Debug)]
pub enum ProcessState {
    Unknown,
    ProcessNotRunning,
    ProcessRunning,
    ProcessNotListening,
    ProcessListening(String),
    ProcesStopped,
}

/// Mathematical image of [`ProcessState`]: the region label is a `Seq<char>`.
pub enum ProcessStateView {
    Unknown,
    ProcessNotRunning,
    ProcessRunning,
    ProcessNotListening,
    ProcessListening(Seq<char>),
    ProcesStopped,
}

impl View for ProcessState {
    type V = ProcessStateView;

    open spec fn view(&self) -> ProcessStateView {
        match self {
            ProcessState::Unknown => ProcessStateView::Unknown,
            ProcessState::ProcessNotRunning => ProcessStateView::ProcessNotRunning,
            ProcessState::ProcessRunning => ProcessStateView::ProcessRunning,
            ProcessState::ProcessNotListening => ProcessStateView::ProcessNotListening,
            ProcessState::ProcessListening(region) => ProcessStateView::ProcessListening(region@),
            ProcessState::ProcesStopped => ProcessStateView::ProcesStopped,
        }
    }
}

impl DeepView for ProcessState {
    type V = ProcessStateView;

    open spec fn deep_view(&self) -> ProcessStateView {
        self.view()
    }
}

impl Clone for ProcessState {
    fn clone(&self) -> (c: Self)
        ensures
            c@ == self@,
    {
        match self {
            ProcessState::Unknown => ProcessState::Unknown,
            ProcessState::ProcessNotRunning => ProcessState::ProcessNotRunning,
            ProcessState::ProcessRunning => ProcessState::ProcessRunning,
            ProcessState::ProcessNotListening => ProcessState::ProcessNotListening,
            ProcessState::ProcessListening(region) => ProcessState::ProcessListening(
                region.clone(),
            ),
            ProcessState::ProcesStopped => ProcessState::ProcesStopped,
        }
    }
}

impl PartialEq for ProcessState {
    fn eq(&self, other: &ProcessState) -> (r: bool) {
        match (self, other) {
            (ProcessState::Unknown, ProcessState::Unknown) => true,
            (ProcessState::ProcessNotRunning, ProcessState::ProcessNotRunning) => true,
            (ProcessState::ProcessRunning, ProcessState::ProcessRunning) => true,
            (ProcessState::ProcessNotListening, ProcessState::ProcessNotListening) => true,
            (ProcessState::ProcessListening(a), ProcessState::ProcessListening(b)) => *a == *b,
            (ProcessState::ProcesStopped, ProcessState::ProcesStopped) => true,
            _ => false,
        }
    }
}

impl vstd::std_specs::cmp::PartialEqSpecImpl for ProcessState {
    open spec fn obeys_eq_spec() -> bool {
        true
    }

    open spec fn eq_spec(&self, other: &ProcessState) -> bool {
        self@ == other@
    }
}

/// Outcome of an update check, as published to the UI sink.
#[derive(Debug)]
pub enum UpdaterState {
    Unknown,
    NewVersion,
    LatestVersion,
    Error(String),
}

/// Mathematical image of [`UpdaterState`].
pub enum UpdaterStateView {
    Unknown,
    NewVersion,
    LatestVersion,
    Error(Seq<char>),
}

impl View for UpdaterState {
    type V = UpdaterStateView;

    open spec fn view(&self) -> UpdaterStateView {
        match self {
            UpdaterState::Unknown => UpdaterStateView::Unknown,
            UpdaterState::NewVersion => UpdaterStateView::NewVersion,
            UpdaterState::LatestVersion => UpdaterStateView::LatestVersion,
            UpdaterState::Error(message) => UpdaterStateView::Error(message@),
        }
    }
}

impl DeepView for UpdaterState {
    type V = UpdaterStateView;

    open spec fn deep_view(&self) -> UpdaterStateView {
        self.view()
    }
}

impl Clone for UpdaterState {
    fn clone(&self) -> (c: Self)
        ensures
            c@ == self@,
    {
        match self {
            UpdaterState::Unknown => UpdaterState::Unknown,
            UpdaterState::NewVersion => UpdaterState::NewVersion,
            UpdaterState::LatestVersion => UpdaterState::LatestVersion,
            UpdaterState::Error(message) => UpdaterState::Error(message.clone()),
        }
    }
}

impl PartialEq for UpdaterState {
    fn eq(&self, other: &UpdaterState) -> (r: bool) {
        match (self, other) {
            (UpdaterState::Unknown, UpdaterState::Unknown) => true,
            (UpdaterState::NewVersion, UpdaterState::NewVersion) => true,
            (UpdaterState::LatestVersion, UpdaterState::LatestVersion) => true,
            (UpdaterState::Error(a), UpdaterState::Error(b)) => *a == *b,
            _ => false,
        }
    }
}

impl vstd::std_specs::cmp::PartialEqSpecImpl for UpdaterState {
    open spec fn obeys_eq_spec() -> bool {
        true
    }

    open spec fn eq_spec(&self, other: &UpdaterState) -> bool {
        self@ == other@
    }
}

/// Heartbeat record published on the `process-check` channel on every tick of
/// the event router; `checked_on` is a host-supplied timestamp in
/// milliseconds.
#[derive(Debug)]
pub struct ProcessWatcherResult {
    pub checked_on: u64,
    pub state: ProcessState,
}

/// Record published on the `updater` channel after every update check.
#[derive(Debug)]
pub struct UpdaterResult {
    pub checked_on: u64,
    pub state: UpdaterState,
}

/// Configuration the watcher consumes: target process name, target remote
/// port, and poll interval in milliseconds.  Opaque inputs owned by an
/// external settings collaborator.
#[derive(Debug)]
pub struct SnifferSettings {
    pub process_name: String,
    pub port: u16,
    pub check_interval: u64,
}

impl Clone for SnifferSettings {
    fn clone(&self) -> (c: Self)
        ensures
            c.process_name@ == self.process_name@,
            c.port == self.port,
            c.check_interval == self.check_interval,
    {
        SnifferSettings {
            process_name: self.process_name.clone(),
            port: self.port,
            check_interval: self.check_interval,
        }
    }
}

/// Payload of the UI load handshake.
#[derive(Debug)]
pub struct LoadResult {
    pub app_name: String,
    pub github_link: String,
    pub version: String,
}

/// A boss entry of an encounter record.
#[derive(Debug)]
pub struct Boss {
    pub id: u64,
    pub name: String,
}

/// Request payload for starting a simulation run.
#[derive(Debug)]
pub struct RunSimulation {}

/// Filter criteria for querying past encounters.
#[derive(Debug)]
pub struct GetPastEncountersCriteria {}

} // verus!
