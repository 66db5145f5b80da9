//! The update controller: when a newer version supersedes the running one, stop the
//! supervisor, back the working directory up, and launch the new version.
//!
//! Like the supervisor, the controller is a state machine. Its driver performs the
//! pending [`ControllerAction`], reports the outcome as a [`ControllerEvent`], and
//! [`UpdateController::step`] answers with the next action.

use vstd::prelude::*;
use crate::api::Version;
use crate::archive::{archive_name, backup_name};
use crate::signals::{ControlSignals, SignalState};

verus! {

/// Seconds between two looks at the catalogue.
pub const CHECK_SECONDS: u64 = 3600;

/// Seconds between two looks at `has_stopped` while the supervisor winds down.
pub const STOP_POLL_SECONDS: u64 = 1;

/// Why the controller gave up.
#[derive(Debug, Clone, Copy, PartialEq, Eq, Structural)]
pub enum ControllerFailure {
    /// The catalogue could not be fetched or read.
    Catalog,
    /// The catalogue holds no version to run.
    Unresolved,
    /// The backup could not be written.
    Archive,
}

/// Where the controller stands.
#[derive(Debug, PartialEq, Eq)]
pub enum ControllerPhase {
    /// A supervisor for the current version is being launched.
    Launching,
    /// The current version runs; the catalogue is looked at once per interval.
    Watching,
    /// `next` supersedes the current version; the supervisor was asked to stop.
    Stopping { next: Version },
    /// The supervisor has stopped, as seen at `taken_at`; the backup is being written.
    Archiving { next: Version, taken_at: u128 },
    /// The controller gave up.
    Failed { reason: ControllerFailure },
}

/// What the driver reports after it has performed the pending action.
#[derive(Debug, PartialEq, Eq)]
pub enum ControllerEvent {
    /// A supervisor was launched with the pair of signals that the action carried.
    Launched,
    /// The catalogue was fetched; `version` is the target it resolves to.
    Resolved { version: Version },
    /// The catalogue was fetched, but it resolves to no version.
    Unresolved,
    /// The catalogue could not be fetched or read.
    CatalogFailed,
    /// A second has passed; the clock reads `now_millis`, milliseconds since the epoch.
    Tick { now_millis: u128 },
    /// The backup was written.
    Archived,
    /// The backup could not be written.
    ArchiveFailed,
}

/// What the driver has to do next.
#[derive(Debug, PartialEq, Eq)]
pub enum ControllerAction {
    /// Launch a supervisor for `version`, sharing `signals` with it, and from now on hand
    /// that pair to `step`; answer with `Launched`.
    Launch { version: Version, signals: ControlSignals },
    /// Wait for the next look at the catalogue, fetch it and resolve the target; answer
    /// with `Resolved`, `Unresolved` or `CatalogFailed`.
    Resolve,
    /// Wait a second and read the clock; answer with `Tick`.
    AwaitStop,
    /// Archive the working directory under the base name `base_name`; answer with
    /// `Archived` or `ArchiveFailed`.
    Archive { base_name: String },
    /// Return the failure: the controller has ended.
    Abort { reason: ControllerFailure },
}

/// What an [`UpdateController`] holds: the version that runs, or is about to, and the
/// phase.
pub struct ControllerState {
    pub current: Version,
    pub phase: ControllerPhase,
}

/// One step of the controller as its driver saw it: the event, and `has_stopped` of the
/// running supervisor's signals at that moment.
pub struct ControllerObservation {
    pub event: ControllerEvent,
    pub has_stopped: bool,
}

/// Whether `version` is the one that `state` runs: versions are told apart by `id`.
pub open spec fn is_current(state: ControllerState, version: Version) -> bool {
    version.id@ == state.current.id@
}

/// The state that follows `state` when `event` arrives while the supervisor's
/// `has_stopped` flag reads `has_stopped`. An event that does not answer the pending
/// action changes nothing.
pub open spec fn next_state(state: ControllerState, event: ControllerEvent, has_stopped: bool)
    -> ControllerState {
    match (state.phase, event) {
        (ControllerPhase::Launching, ControllerEvent::Launched) => ControllerState {
            phase: ControllerPhase::Watching,
            ..state
        },
        (ControllerPhase::Watching, ControllerEvent::Resolved { version }) => if is_current(
            state,
            version,
        ) {
            state
        } else {
            ControllerState { phase: ControllerPhase::Stopping { next: version }, ..state }
        },
        (ControllerPhase::Watching, ControllerEvent::Unresolved) => ControllerState {
            phase: ControllerPhase::Failed { reason: ControllerFailure::Unresolved },
            ..state
        },
        (ControllerPhase::Watching, ControllerEvent::CatalogFailed) => ControllerState {
            phase: ControllerPhase::Failed { reason: ControllerFailure::Catalog },
            ..state
        },
        (ControllerPhase::Stopping { next }, ControllerEvent::Tick { now_millis }) => if has_stopped {
            ControllerState {
                phase: ControllerPhase::Archiving { next, taken_at: now_millis },
                ..state
            }
        } else {
            state
        },
        (ControllerPhase::Archiving { next, .. }, ControllerEvent::Archived) => ControllerState {
            current: next,
            phase: ControllerPhase::Launching,
        },
        (ControllerPhase::Archiving { .. }, ControllerEvent::ArchiveFailed) => ControllerState {
            phase: ControllerPhase::Failed { reason: ControllerFailure::Archive },
            ..state
        },
        _ => state,
    }
}

/// Whether `event`, arriving in `state`, makes the controller ask the supervisor to stop:
/// the catalogue resolves to a version other than the one that runs.
pub open spec fn asks_to_stop(state: ControllerState, event: ControllerEvent) -> bool {
    state.phase is Watching && (event matches ControllerEvent::Resolved { version } && !is_current(
        state,
        version,
    ))
}

/// Whether `action` is what a controller in `state` waits for.
pub open spec fn is_pending(state: ControllerState, action: ControllerAction) -> bool {
    match state.phase {
        ControllerPhase::Launching => action matches ControllerAction::Launch { version, signals }
            && version == state.current && signals@ == SignalState::fresh(),
        ControllerPhase::Watching => action is Resolve,
        ControllerPhase::Stopping { .. } => action is AwaitStop,
        ControllerPhase::Archiving { taken_at, .. } => action matches ControllerAction::Archive {
            base_name,
        } && base_name@ == backup_name(taken_at, state.current.id@),
        ControllerPhase::Failed { reason } => action == (ControllerAction::Abort { reason }),
    }
}

/// The seconds that `action` spends waiting.
pub open spec fn pause_seconds(action: ControllerAction) -> nat {
    match action {
        ControllerAction::Resolve => CHECK_SECONDS as nat,
        ControllerAction::AwaitStop => STOP_POLL_SECONDS as nat,
        _ => 0,
    }
}

/// The state reached from `state` after the observations of `trace`, oldest first.
pub open spec fn replay(state: ControllerState, trace: Seq<ControllerObservation>)
    -> ControllerState
    decreases trace.len(),
{
    if trace.len() == 0 {
        state
    } else {
        next_state(replay(state, trace.drop_last()), trace.last().event, trace.last().has_stopped)
    }
}

/// The controller: the version that runs, and what is being done about a newer one.
#[derive(Debug)]
pub struct UpdateController {
    current: Version,
    phase: ControllerPhase,
}

impl View for UpdateController {
    type V = ControllerState;

    closed spec fn view(&self) -> ControllerState {
        ControllerState { current: self.current, phase: self.phase }
    }
}

impl UpdateController {
    /// A controller for `initial`, the target that was resolved at startup: its
    /// supervisor is yet to be launched.
    pub fn new(initial: Version) -> (controller: UpdateController)
        ensures
            controller@ == (ControllerState { current: initial, phase: ControllerPhase::Launching }),
    {
        UpdateController { current: initial, phase: ControllerPhase::Launching }
    }

    /// The version that runs, or is about to be launched.
    pub fn current(&self) -> (version: &Version)
        ensures
            *version == self@.current,
    {
        &self.current
    }

    /// Whether the controller has given up.
    pub fn failed(&self) -> (gave_up: bool)
        ensures
            gave_up == self@.phase is Failed,
    {
        match &self.phase {
            ControllerPhase::Failed { .. } => true,
            _ => false,
        }
    }

    /// The action that the driver has to perform now.
    pub fn pending(&self) -> (action: ControllerAction)
        ensures
            is_pending(self@, action),
    {
        match &self.phase {
            ControllerPhase::Launching => ControllerAction::Launch {
                version: self.current.clone(),
                signals: ControlSignals::new(),
            },
            ControllerPhase::Watching => ControllerAction::Resolve,
            ControllerPhase::Stopping { .. } => ControllerAction::AwaitStop,
            ControllerPhase::Archiving { taken_at, .. } => ControllerAction::Archive {
                base_name: archive_name(*taken_at, self.current.id.as_str()),
            },
            ControllerPhase::Failed { reason } => ControllerAction::Abort { reason: *reason },
        }
    }

    /// Takes the outcome of the pending action and answers with the next one.
    ///
    /// `signals` is the pair shared with the supervisor of the current version.
    /// `stop_requested` is raised when, and only when, the catalogue resolves to another
    /// version while the current one runs; `has_stopped` is only read. The backup is asked
    /// for only after `has_stopped` was read as true, it is named after the version that
    /// is being replaced, and the new version is launched only after the backup was
    /// written, with a pair of signals of its own.
    pub fn step(&mut self, event: ControllerEvent, signals: &mut ControlSignals) -> (action:
        ControllerAction)
        ensures
            final(self)@ == next_state(old(self)@, event, old(signals)@.has_stopped),
            is_pending(final(self)@, action),
            final(signals)@ == if asks_to_stop(old(self)@, event) {
                SignalState { stop_requested: true, ..old(signals)@ }
            } else {
                old(signals)@
            },
    {
        let has_stopped = signals.has_stopped();
        let mut replaced: Option<ControllerPhase> = None;
        let mut promoted: Option<Version> = None;
        match &self.phase {
            ControllerPhase::Launching => {
                if let ControllerEvent::Launched = event {
                    replaced = Some(ControllerPhase::Watching);
                }
            },
            ControllerPhase::Watching => {
                match event {
                    ControllerEvent::Resolved { version } => {
                        if version.id != self.current.id {
                            signals.request_stop();
                            replaced = Some(ControllerPhase::Stopping { next: version });
                        }
                    },
                    ControllerEvent::Unresolved => {
                        replaced = Some(
                            ControllerPhase::Failed { reason: ControllerFailure::Unresolved },
                        );
                    },
                    ControllerEvent::CatalogFailed => {
                        replaced = Some(
                            ControllerPhase::Failed { reason: ControllerFailure::Catalog },
                        );
                    },
                    _ => {},
                }
            },
            ControllerPhase::Stopping { next } => {
                if let ControllerEvent::Tick { now_millis } = event {
                    if has_stopped {
                        replaced = Some(
                            ControllerPhase::Archiving { next: next.clone(), taken_at: now_millis },
                        );
                    }
                }
            },
            ControllerPhase::Archiving { next, .. } => {
                match event {
                    ControllerEvent::Archived => {
                        promoted = Some(next.clone());
                        replaced = Some(ControllerPhase::Launching);
                    },
                    ControllerEvent::ArchiveFailed => {
                        replaced = Some(
                            ControllerPhase::Failed { reason: ControllerFailure::Archive },
                        );
                    },
                    _ => {},
                }
            },
            ControllerPhase::Failed { .. } => {},
        }
        if let Some(version) = promoted {
            self.current = version;
        }
        if let Some(phase) = replaced {
            self.phase = phase;
        }
        self.pending()
    }
}

impl ControllerAction {
    /// The seconds that the driver waits while it performs this action.
    pub fn delay_seconds(&self) -> (seconds: u64)
        ensures
            seconds == pause_seconds(*self),
    {
        match self {
            ControllerAction::Resolve => CHECK_SECONDS,
            ControllerAction::AwaitStop => STOP_POLL_SECONDS,
            _ => 0,
        }
    }
}

/// No observation of `trace` saw the supervisor stopped.
pub open spec fn never_stopped(trace: Seq<ControllerObservation>) -> bool {
    forall|i: int| 0 <= i < trace.len() ==> !(#[trigger] trace[i]).has_stopped
}

/// Every observation of `trace` is a look at the catalogue that resolved to the version
/// that `state` runs.
pub open spec fn target_unchanged(state: ControllerState, trace: Seq<ControllerObservation>)
    -> bool {
    forall|i: int|
        0 <= i < trace.len() ==> ((#[trigger] trace[i]).event matches ControllerEvent::Resolved {
            version,
        } && is_current(state, version))
}

/// The order of a rollover. The backup is asked for only on a tick that read
/// `has_stopped` as true while the controller was waiting for the stop, and it is a
/// backup of the version that ran until then. A launch is asked for only once the backup
/// was reported written, and a stop only when a look at the catalogue found another
/// version.
pub proof fn lemma_rollover_is_ordered(state: ControllerState, event: ControllerEvent, has_stopped: bool)
    ensures
        ({
            let next = next_state(state, event, has_stopped);
            &&& next.phase is Archiving && !(state.phase is Archiving) ==> has_stopped
                && state.phase is Stopping && event is Tick
            &&& next.phase is Archiving ==> next.current == state.current
            &&& next.phase is Launching && !(state.phase is Launching) ==> state.phase is Archiving
                && event is Archived
            &&& next.phase is Stopping && !(state.phase is Stopping) ==> asks_to_stop(state, event)
            &&& next.current != state.current ==> state.phase is Archiving && event is Archived
        }),
{
}

/// As long as no observation saw the supervisor stopped, no backup is asked for and the
/// current version stays what it is, whatever else the driver reports.
pub proof fn lemma_no_backup_before_stop(state: ControllerState, trace: Seq<ControllerObservation>)
    requires
        !(state.phase is Archiving),
        never_stopped(trace),
    ensures
        !(replay(state, trace).phase is Archiving),
        replay(state, trace).current == state.current,
    decreases trace.len(),
{
    if trace.len() > 0 {
        let earlier = trace.drop_last();
        assert(never_stopped(earlier));
        lemma_no_backup_before_stop(state, earlier);
        assert(!trace.last().has_stopped);
    }
}

/// Looking at a catalogue that still resolves to the running version does nothing,
/// however often it happens: the controller stays as it is, no stop is asked for, and
/// the next look at the catalogue is what is pending.
pub proof fn lemma_unchanged_target_is_noop(state: ControllerState, trace: Seq<ControllerObservation>)
    requires
        state.phase is Watching,
        target_unchanged(state, trace),
    ensures
        replay(state, trace) == state,
        forall|i: int| 0 <= i < trace.len() ==> !asks_to_stop(state, (#[trigger] trace[i]).event),
        is_pending(replay(state, trace), ControllerAction::Resolve),
    decreases trace.len(),
{
    if trace.len() > 0 {
        let earlier = trace.drop_last();
        assert(target_unchanged(state, earlier));
        lemma_unchanged_target_is_noop(state, earlier);
        assert(trace.last() == trace[trace.len() - 1]);
    }
}

} // verus!
