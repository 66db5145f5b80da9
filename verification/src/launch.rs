//! One supervisor run: prepare the server executable, then keep a child process alive
//! until a stop is requested.
//!
//! The supervisor is a state machine. Its driver performs the [`Action`] that is pending,
//! reports the outcome as an [`Event`], and [`Supervisor::step`] answers with the next
//! action. The driver owns the child process, the timers and the files; the supervisor
//! owns every decision.

use vstd::prelude::*;
use crate::api::Version;
use crate::signals::{ControlSignals, SignalState};

verus! {

/// Seconds between two polls of the child process.
pub const POLL_SECONDS: u64 = 1;

/// Seconds to wait after an unrequested exit before the child is started again.
pub const RESTART_DELAY_SECONDS: u64 = 5;

/// Poll ticks on which a stop line is sent before the child is killed.
pub const GRACE_TICKS: u32 = 180;

/// The program that runs the server.
pub const PROGRAM: &'static str = "java";

/// The file name of the server executable inside the working directory.
pub const SERVER_JAR: &'static str = "server.jar";

/// The file name of the licence marker inside the working directory.
pub const EULA_FILE: &'static str = "eula.txt";

/// What the licence marker holds.
pub const EULA_TEXT: &'static str = "eula=true";

/// The line that asks the server to shut down.
pub const STOP_LINE: &'static str = "stop\n";

/// The garbage-collector tuning: one fixed set of flags, switched on or off as a whole.
pub const GC_FLAGS: [&'static str; 18] = [
    "-XX:+UseG1GC",
    "-XX:+ParallelRefProcEnabled",
    "-XX:MaxGCPauseMillis=200",
    "-XX:+UnlockExperimentalVMOptions",
    "-XX:+DisableExplicitGC",
    "-XX:+AlwaysPreTouch",
    "-XX:G1NewSizePercent=30",
    "-XX:G1MaxNewSizePercent=40",
    "-XX:G1HeapRegionSize=8M",
    "-XX:G1ReservePercent=20",
    "-XX:G1HeapWastePercent=5",
    "-XX:G1MixedGCCountTarget=4",
    "-XX:InitiatingHeapOccupancyPercent=15",
    "-XX:G1MixedGCLiveThresholdPercent=90",
    "-XX:G1RSetUpdatingPauseTimePercent=5",
    "-XX:SurvivorRatio=32",
    "-XX:+PerfDisableSharedMem",
    "-XX:MaxTenuringThreshold=1",
];

/// What one run is given: whether to tune the garbage collector, where the server lives,
/// and which version to run.
#[derive(Debug, PartialEq, Eq)]
pub struct LaunchData {
    pub use_aikar: bool,
    pub working_dir: String,
    pub version: Version,
}

/// The texts of `flags`, in order.
pub open spec fn flag_texts(flags: Seq<&'static str>) -> Seq<Seq<char>> {
    Seq::new(flags.len(), |i: int| flags[i]@)
}

/// The flags for the virtual machine: the two heap sizes and, where `use_aikar` is set,
/// the garbage-collector tuning after them.
pub open spec fn jvm_flags(use_aikar: bool, min_mem: Seq<char>, max_mem: Seq<char>) -> Seq<
    Seq<char>,
> {
    let memory = seq!["-Xms"@ + min_mem, "-Xmx"@ + max_mem];
    if use_aikar {
        memory + flag_texts(GC_FLAGS@)
    } else {
        memory
    }
}

/// The arguments of the server process: the flags for the virtual machine, then the
/// executable at `jar`, then the switch that keeps the server from opening a window.
pub open spec fn launch_arguments(
    use_aikar: bool,
    min_mem: Seq<char>,
    max_mem: Seq<char>,
    jar: Seq<char>,
) -> Seq<Seq<char>> {
    jvm_flags(use_aikar, min_mem, max_mem) + seq!["-jar"@, jar, "--nogui"@]
}

impl LaunchData {
    /// The flags for the virtual machine, with the heap sizes `min_mem` and `max_mem`.
    pub fn jvm_args(&self, min_mem: &str, max_mem: &str) -> (args: Vec<String>)
        ensures
            args.deep_view() == jvm_flags(self.use_aikar, min_mem@, max_mem@),
    {
        let mut args: Vec<String> = Vec::new();
        args.push(String::from_str("-Xms").concat(min_mem));
        args.push(String::from_str("-Xmx").concat(max_mem));
        assert(args.deep_view() =~= seq!["-Xms"@ + min_mem@, "-Xmx"@ + max_mem@]);
        if self.use_aikar {
            let ghost memory = args.deep_view();
            let mut index: usize = 0;
            while index < 18
                invariant
                    index <= 18,
                    args.deep_view() == memory + flag_texts(GC_FLAGS@).take(index as int),
                decreases 18 - index,
            {
                let ghost before = args.deep_view();
                args.push(String::from_str(GC_FLAGS[index]));
                assert(args.deep_view() =~= before.push(GC_FLAGS@[index as int]@));
                assert(args.deep_view() =~= memory + flag_texts(GC_FLAGS@).take(index + 1));
                index += 1;
            }
            assert(flag_texts(GC_FLAGS@).take(18) =~= flag_texts(GC_FLAGS@));
        }
        args
    }

    /// The arguments to start the server with: the executable at `jar`, the heap sizes
    /// `min_mem` and `max_mem`.
    pub fn arguments(&self, min_mem: &str, max_mem: &str, jar: &str) -> (args: Vec<String>)
        ensures
            args.deep_view() == launch_arguments(self.use_aikar, min_mem@, max_mem@, jar@),
    {
        let mut args = self.jvm_args(min_mem, max_mem);
        let ghost flags = args.deep_view();
        args.push(String::from_str("-jar"));
        args.push(String::from_str(jar));
        args.push(String::from_str("--nogui"));
        assert(args.deep_view() =~= flags + seq!["-jar"@, jar@, "--nogui"@]);
        args
    }

    /// Begins a run of this configuration: the supervisor that will carry it, holding a
    /// copy of the configuration, with its first action pending.
    pub fn start(&self) -> (supervisor: Supervisor)
        ensures
            supervisor.configuration() == *self,
            supervisor.phase() == Phase::Resolving,
            supervisor.wf(),
    {
        Supervisor::new(
            LaunchData {
                use_aikar: self.use_aikar,
                working_dir: self.working_dir.clone(),
                version: self.version.clone(),
            },
        )
    }
}

/// Why a run ended without a stop request.
#[derive(Debug, Clone, Copy, PartialEq, Eq, Structural)]
pub enum Failure {
    /// The working directory or the version's metadata could not be resolved.
    Metadata,
    /// The transfer of the executable failed.
    Download,
    /// The executable was transferred, but its digest is not the expected one.
    ChecksumMismatch,
    /// The licence marker could not be written.
    License,
    /// The child process could not be created.
    Spawn,
    /// The state of the child process could not be read.
    Poll,
    /// The stop line could not be written to the child's input.
    Pipe,
}

/// Where a run stands.
#[derive(Debug, Clone, Copy, PartialEq, Eq, Structural)]
pub enum Phase {
    /// Locating the executable and fetching the version's metadata.
    Resolving,
    /// Checking whether the executable on disk is the expected one.
    Checking,
    /// Transferring the executable.
    Downloading,
    /// Writing the licence marker.
    Licensing,
    /// Creating the child process.
    Spawning,
    /// The child runs; it is polled once per tick.
    Running,
    /// A stop was requested; `ticks` stop lines have been issued, this tick's included.
    GracefulStop { ticks: u32 },
    /// The grace period is over; the child is being killed.
    ForceKill,
    /// The child is gone; its input relay and its handle are being released.
    Exited,
    /// Waiting before the child is started again.
    CooldownWait,
    /// The run ended because a stop was requested.
    Stopped,
    /// The run ended on a failure.
    Failed { reason: Failure },
}

/// What the driver reports after it has performed the pending action.
#[derive(Debug, Clone, Copy, PartialEq, Eq, Structural)]
pub enum Event {
    /// The executable's path and the version's metadata are known.
    Resolved,
    /// They could not be obtained.
    ResolveFailed,
    /// The executable on disk was compared with the expected digest.
    Inspected { intact: bool },
    /// The executable was transferred and compared with the expected digest.
    Downloaded { intact: bool },
    /// The transfer failed.
    DownloadFailed,
    /// The licence marker was written.
    LicenseWritten,
    /// The licence marker could not be written.
    LicenseFailed,
    /// The child process was created and its input relay started.
    Spawned,
    /// The child process could not be created.
    SpawnFailed,
    /// A poll tick passed; `child_exited` says whether the child was found gone.
    Tick { child_exited: bool },
    /// The state of the child could not be read.
    PollFailed,
    /// The stop line could not be written or flushed.
    PipeFailed,
    /// The input relay was told to stop and the child's handle was dropped.
    Released,
    /// The restart delay has passed.
    CooledDown,
}

/// What the driver has to do next.
#[derive(Debug, Clone, Copy, PartialEq, Eq, Structural)]
pub enum Action {
    /// Resolve the working directory and fetch the version's metadata; answer with
    /// `Resolved` or `ResolveFailed`.
    Resolve,
    /// Compare the executable on disk with the expected digest; answer with `Inspected`.
    Inspect,
    /// Transfer the executable and compare it; answer with `Downloaded` or
    /// `DownloadFailed`.
    Download,
    /// Write the licence marker; answer with `LicenseWritten` or `LicenseFailed`.
    AcceptLicense,
    /// Create the child with its input piped and start the input relay; answer with
    /// `Spawned` or `SpawnFailed`.
    Spawn,
    /// Wait one tick, then look at the child; answer with `Tick` or `PollFailed`.
    Poll,
    /// Write the stop line and flush, wait one tick, then look at the child; answer with
    /// `Tick`, `PipeFailed` or `PollFailed`.
    SendStop,
    /// Kill the child and wait for it, wait one tick, then look at the child; answer with
    /// `Tick` or `PollFailed`.
    Kill,
    /// Tell the input relay to stop and drop the child's handle; answer with `Released`.
    Release,
    /// Wait for the restart delay; answer with `CooledDown`.
    Cooldown,
    /// Return: the run has ended cleanly.
    Finish,
    /// Return the failure: the run has ended.
    Abort { reason: Failure },
}

/// One step of a run as its driver saw it: the event, and the stop flag at that moment.
pub struct Observation {
    pub event: Event,
    pub stop_requested: bool,
}

/// Whether `event` reports that something went wrong.
pub open spec fn is_failure(event: Event) -> bool {
    event is ResolveFailed || event is DownloadFailed || event is LicenseFailed
        || event is SpawnFailed || event is PollFailed || event is PipeFailed
        || event == (Event::Downloaded { intact: false })
}

/// Whether a run in `phase` has ended.
pub open spec fn is_terminal(phase: Phase) -> bool {
    phase is Stopped || phase is Failed
}

/// The phases that can occur: a grace period counts its ticks from 1 to `GRACE_TICKS`.
pub open spec fn valid_phase(phase: Phase) -> bool {
    phase matches Phase::GracefulStop { ticks } ==> 1 <= ticks <= GRACE_TICKS
}

/// The phase that follows `phase` when `event` arrives while the stop flag reads
/// `stop_requested`. An event that does not answer the pending action changes nothing.
pub open spec fn next_phase(phase: Phase, event: Event, stop_requested: bool) -> Phase {
    match (phase, event) {
        (Phase::Resolving, Event::Resolved) => Phase::Checking,
        (Phase::Resolving, Event::ResolveFailed) => Phase::Failed { reason: Failure::Metadata },
        (Phase::Checking, Event::Inspected { intact }) => if intact {
            Phase::Licensing
        } else {
            Phase::Downloading
        },
        (Phase::Downloading, Event::Downloaded { intact }) => if intact {
            Phase::Licensing
        } else {
            Phase::Failed { reason: Failure::ChecksumMismatch }
        },
        (Phase::Downloading, Event::DownloadFailed) => Phase::Failed { reason: Failure::Download },
        (Phase::Licensing, Event::LicenseWritten) => Phase::Spawning,
        (Phase::Licensing, Event::LicenseFailed) => Phase::Failed { reason: Failure::License },
        (Phase::Spawning, Event::Spawned) => Phase::Running,
        (Phase::Spawning, Event::SpawnFailed) => Phase::Failed { reason: Failure::Spawn },
        (Phase::Running, Event::Tick { child_exited }) => if child_exited {
            Phase::Exited
        } else if stop_requested {
            Phase::GracefulStop { ticks: 1 }
        } else {
            Phase::Running
        },
        (Phase::Running, Event::PollFailed) => Phase::Failed { reason: Failure::Poll },
        (Phase::GracefulStop { ticks }, Event::Tick { child_exited }) => if child_exited {
            Phase::Exited
        } else if ticks >= GRACE_TICKS {
            Phase::ForceKill
        } else {
            Phase::GracefulStop { ticks: (ticks + 1) as u32 }
        },
        (Phase::GracefulStop { .. }, Event::PollFailed) => Phase::Failed { reason: Failure::Poll },
        (Phase::GracefulStop { .. }, Event::PipeFailed) => Phase::Failed { reason: Failure::Pipe },
        (Phase::ForceKill, Event::Tick { child_exited }) => if child_exited {
            Phase::Exited
        } else {
            Phase::ForceKill
        },
        (Phase::ForceKill, Event::PollFailed) => Phase::Failed { reason: Failure::Poll },
        (Phase::Exited, Event::Released) => if stop_requested {
            Phase::Stopped
        } else {
            Phase::CooldownWait
        },
        (Phase::CooldownWait, Event::CooledDown) => if stop_requested {
            Phase::Stopped
        } else {
            Phase::Spawning
        },
        _ => phase,
    }
}

/// The action that a run in `phase` waits for.
pub open spec fn pending_action(phase: Phase) -> Action {
    match phase {
        Phase::Resolving => Action::Resolve,
        Phase::Checking => Action::Inspect,
        Phase::Downloading => Action::Download,
        Phase::Licensing => Action::AcceptLicense,
        Phase::Spawning => Action::Spawn,
        Phase::Running => Action::Poll,
        Phase::GracefulStop { .. } => Action::SendStop,
        Phase::ForceKill => Action::Kill,
        Phase::Exited => Action::Release,
        Phase::CooldownWait => Action::Cooldown,
        Phase::Stopped => Action::Finish,
        Phase::Failed { reason } => Action::Abort { reason },
    }
}

/// The seconds that `action` spends waiting.
pub open spec fn wait_seconds(action: Action) -> nat {
    match action {
        Action::Poll | Action::SendStop | Action::Kill => POLL_SECONDS as nat,
        Action::Cooldown => RESTART_DELAY_SECONDS as nat,
        _ => 0,
    }
}

/// The phase reached from `phase` after the observations of `trace`, oldest first.
pub open spec fn run(phase: Phase, trace: Seq<Observation>) -> Phase
    decreases trace.len(),
{
    if trace.len() == 0 {
        phase
    } else {
        next_phase(run(phase, trace.drop_last()), trace.last().event, trace.last().stop_requested)
    }
}

/// The state of one run: the configuration it was begun with, which never changes, and
/// the phase it is in.
#[derive(Debug, PartialEq, Eq)]
pub struct Supervisor {
    launch: LaunchData,
    phase: Phase,
}

impl Supervisor {
    /// The phase of the run.
    pub closed spec fn spec_phase(&self) -> Phase {
        self.phase
    }

    /// The configuration that the run was begun with.
    pub closed spec fn configuration(&self) -> LaunchData {
        self.launch
    }

    /// A supervisor only ever holds a phase that can occur.
    pub open spec fn wf(&self) -> bool {
        valid_phase(self.spec_phase())
    }

    /// A run of `launch` that has not begun: the executable is yet to be resolved.
    pub fn new(launch: LaunchData) -> (supervisor: Supervisor)
        ensures
            supervisor.configuration() == launch,
            supervisor.spec_phase() == Phase::Resolving,
            supervisor.wf(),
    {
        Supervisor { launch, phase: Phase::Resolving }
    }

    /// The configuration that the run was begun with.
    pub fn config(&self) -> (launch: &LaunchData)
        ensures
            *launch == self.configuration(),
    {
        &self.launch
    }

    /// The phase of the run.
    #[verifier::when_used_as_spec(spec_phase)]
    pub fn phase(&self) -> (phase: Phase)
        ensures
            phase == self.spec_phase(),
    {
        self.phase
    }

    /// The action that the driver has to perform now.
    pub fn pending(&self) -> (action: Action)
        ensures
            action == pending_action(self.phase()),
    {
        action_for(self.phase)
    }

    /// Whether the run has ended.
    pub fn finished(&self) -> (done: bool)
        ensures
            done == is_terminal(self.phase()),
    {
        match self.phase {
            Phase::Stopped => true,
            Phase::Failed { .. } => true,
            _ => false,
        }
    }

    /// Takes the outcome of the pending action and answers with the next one. The
    /// configuration of the run stays what it was.
    ///
    /// The stop flag is read from `signals` as it stands at the call. `has_stopped` is
    /// raised when, and only when, the run is in `Stopped` afterwards, which it enters
    /// from `Exited` or `CooldownWait` alone: after the child's handle was released.
    pub fn step(&mut self, event: Event, signals: &mut ControlSignals) -> (action: Action)
        ensures
            final(self).phase() == next_phase(
                old(self).phase(),
                event,
                old(signals)@.stop_requested,
            ),
            action == pending_action(final(self).phase()),
            final(self).configuration() == old(self).configuration(),
            final(signals)@.stop_requested == old(signals)@.stop_requested,
            final(signals)@.has_stopped == (old(signals)@.has_stopped
                || final(self).phase() is Stopped),
            old(self).wf() ==> final(self).wf(),
    {
        let stop_requested = signals.stop_requested();
        let next = match (self.phase, event) {
            (Phase::Resolving, Event::Resolved) => Phase::Checking,
            (Phase::Resolving, Event::ResolveFailed) => Phase::Failed { reason: Failure::Metadata },
            (Phase::Checking, Event::Inspected { intact: true }) => Phase::Licensing,
            (Phase::Checking, Event::Inspected { intact: false }) => Phase::Downloading,
            (Phase::Downloading, Event::Downloaded { intact: true }) => Phase::Licensing,
            (Phase::Downloading, Event::Downloaded { intact: false }) => Phase::Failed {
                reason: Failure::ChecksumMismatch,
            },
            (Phase::Downloading, Event::DownloadFailed) => Phase::Failed {
                reason: Failure::Download,
            },
            (Phase::Licensing, Event::LicenseWritten) => Phase::Spawning,
            (Phase::Licensing, Event::LicenseFailed) => Phase::Failed { reason: Failure::License },
            (Phase::Spawning, Event::Spawned) => Phase::Running,
            (Phase::Spawning, Event::SpawnFailed) => Phase::Failed { reason: Failure::Spawn },
            (Phase::Running, Event::Tick { child_exited }) => {
                if child_exited {
                    Phase::Exited
                } else if stop_requested {
                    Phase::GracefulStop { ticks: 1 }
                } else {
                    Phase::Running
                }
            },
            (Phase::GracefulStop { ticks }, Event::Tick { child_exited }) => {
                if child_exited {
                    Phase::Exited
                } else if ticks >= GRACE_TICKS {
                    Phase::ForceKill
                } else {
                    Phase::GracefulStop { ticks: ticks + 1 }
                }
            },
            (Phase::ForceKill, Event::Tick { child_exited }) => {
                if child_exited {
                    Phase::Exited
                } else {
                    Phase::ForceKill
                }
            },
            (Phase::Running, Event::PollFailed)
            | (Phase::GracefulStop { .. }, Event::PollFailed)
            | (Phase::ForceKill, Event::PollFailed) => Phase::Failed { reason: Failure::Poll },
            (Phase::GracefulStop { .. }, Event::PipeFailed) => Phase::Failed {
                reason: Failure::Pipe,
            },
            (Phase::Exited, Event::Released) => {
                if stop_requested {
                    Phase::Stopped
                } else {
                    Phase::CooldownWait
                }
            },
            (Phase::CooldownWait, Event::CooledDown) => {
                if stop_requested {
                    Phase::Stopped
                } else {
                    Phase::Spawning
                }
            },
            (phase, _) => phase,
        };
        self.phase = next;
        if let Phase::Stopped = next {
            signals.mark_stopped();
        }
        action_for(next)
    }
}

impl Action {
    /// The seconds that the driver waits while it performs this action.
    pub fn delay_seconds(&self) -> (seconds: u64)
        ensures
            seconds == wait_seconds(*self),
    {
        match self {
            Action::Poll | Action::SendStop | Action::Kill => POLL_SECONDS,
            Action::Cooldown => RESTART_DELAY_SECONDS,
            _ => 0,
        }
    }
}

fn action_for(phase: Phase) -> (action: Action)
    ensures
        action == pending_action(phase),
{
    match phase {
        Phase::Resolving => Action::Resolve,
        Phase::Checking => Action::Inspect,
        Phase::Downloading => Action::Download,
        Phase::Licensing => Action::AcceptLicense,
        Phase::Spawning => Action::Spawn,
        Phase::Running => Action::Poll,
        Phase::GracefulStop { .. } => Action::SendStop,
        Phase::ForceKill => Action::Kill,
        Phase::Exited => Action::Release,
        Phase::CooldownWait => Action::Cooldown,
        Phase::Stopped => Action::Finish,
        Phase::Failed { reason } => Action::Abort { reason },
    }
}

/// Every observation of `trace` is a poll tick that found the child alive.
pub open spec fn child_stays_alive(trace: Seq<Observation>) -> bool {
    forall|i: int|
        0 <= i < trace.len() ==> (#[trigger] trace[i]).event == (Event::Tick {
            child_exited: false,
        })
}

/// No observation of `trace` saw a stop request.
pub open spec fn never_asked_to_stop(trace: Seq<Observation>) -> bool {
    forall|i: int| 0 <= i < trace.len() ==> !(#[trigger] trace[i]).stop_requested
}

/// No observation of `trace` reports a failure.
pub open spec fn nothing_fails(trace: Seq<Observation>) -> bool {
    forall|i: int| 0 <= i < trace.len() ==> !is_failure((#[trigger] trace[i]).event)
}

/// Whatever the driver reports, a run that starts in a phase that can occur stays in
/// phases that can occur.
pub proof fn lemma_run_keeps_phases_valid(phase: Phase, trace: Seq<Observation>)
    requires
        valid_phase(phase),
    ensures
        valid_phase(run(phase, trace)),
    decreases trace.len(),
{
    if trace.len() > 0 {
        lemma_run_keeps_phases_valid(phase, trace.drop_last());
    }
}

/// A run does not end unless a stop was requested or something failed: as long as no
/// observation saw a stop request, the run is never `Stopped`, and as long as no
/// observation reports a failure either, it has not ended at all.
pub proof fn lemma_run_ends_only_on_request_or_failure(phase: Phase, trace: Seq<Observation>)
    requires
        !is_terminal(phase),
        never_asked_to_stop(trace),
    ensures
        !(run(phase, trace) is Stopped),
        nothing_fails(trace) ==> !is_terminal(run(phase, trace)),
    decreases trace.len(),
{
    if trace.len() > 0 {
        let earlier = trace.drop_last();
        assert(never_asked_to_stop(earlier));
        lemma_run_ends_only_on_request_or_failure(phase, earlier);
        assert(!trace.last().stop_requested);
        if nothing_fails(trace) {
            assert(nothing_fails(earlier));
            assert(!is_failure(trace.last().event));
        }
    }
}

/// A run answers to its own pair of signals alone. `has_stopped` of a pair is raised when
/// the run that holds it enters `Stopped`, and a run enters `Stopped` only on an event
/// that read `stop_requested` of that same pair as true. So a stop requested on the pair
/// of one run never raises `has_stopped` on the pair of another: `other`, whatever it
/// holds, plays no part in the step.
pub proof fn lemma_stop_is_local_to_its_pair(
    phase: Phase,
    event: Event,
    own: SignalState,
    other: SignalState,
)
    requires
        !(phase is Stopped),
    ensures
        next_phase(phase, event, own.stop_requested) is Stopped ==> own.stop_requested,
        !own.stop_requested ==> (own.has_stopped || next_phase(
            phase,
            event,
            own.stop_requested,
        ) is Stopped) == own.has_stopped,
        next_phase(phase, event, own.stop_requested) is Stopped ==> phase is Exited
            || phase is CooldownWait,
{
}

/// A child that exits while no stop is requested is started again: the handle is
/// released, the restart delay of `RESTART_DELAY_SECONDS` is waited for, the child is
/// created anew, and polling resumes. `seen_at_exit` and `seen_at_spawn` are the stop flag
/// as read on the tick that found the child gone and when the new child was reported: the
/// flag is not consulted at either point.
pub proof fn lemma_unrequested_exit_restarts(phase: Phase, seen_at_exit: bool, seen_at_spawn: bool)
    requires
        phase is Running || phase is GracefulStop || phase is ForceKill,
    ensures
        ({
            let exited = next_phase(phase, Event::Tick { child_exited: true }, seen_at_exit);
            let cooling = next_phase(exited, Event::Released, false);
            let spawning = next_phase(cooling, Event::CooledDown, false);
            let running = next_phase(spawning, Event::Spawned, seen_at_spawn);
            &&& exited == Phase::Exited
            &&& pending_action(exited) == Action::Release
            &&& cooling == Phase::CooldownWait
            &&& pending_action(cooling) == Action::Cooldown
            &&& wait_seconds(pending_action(cooling)) == 5
            &&& spawning == Phase::Spawning
            &&& pending_action(spawning) == Action::Spawn
            &&& running == Phase::Running
            &&& pending_action(running) == Action::Poll
        }),
{
}

/// The grace period is bounded. A stop request seen while the child runs opens it with
/// the first stop line. From a grace period that has issued `ticks` stop lines, every
/// further tick that finds the child alive issues one more, and the tick after the
/// `GRACE_TICKS`-th line asks for the kill: `GRACE_TICKS` ticks after the period was
/// entered, whatever the stop flag reads by then.
pub proof fn lemma_grace_period_is_bounded(ticks: u32, trace: Seq<Observation>)
    requires
        1 <= ticks <= GRACE_TICKS,
        child_stays_alive(trace),
        trace.len() <= GRACE_TICKS - ticks + 1,
    ensures
        next_phase(Phase::Running, Event::Tick { child_exited: false }, true)
            == (Phase::GracefulStop { ticks: 1 }),
        trace.len() <= GRACE_TICKS - ticks ==> run(Phase::GracefulStop { ticks }, trace) == (
        Phase::GracefulStop { ticks: (ticks + trace.len()) as u32 }),
        trace.len() == GRACE_TICKS - ticks + 1 ==> run(Phase::GracefulStop { ticks }, trace)
            == Phase::ForceKill,
        pending_action(Phase::ForceKill) == Action::Kill,
    decreases trace.len(),
{
    if trace.len() > 0 {
        let earlier = trace.drop_last();
        assert(child_stays_alive(earlier));
        lemma_grace_period_is_bounded(ticks, earlier);
        assert(trace.last().event == (Event::Tick { child_exited: false }));
    }
}

/// Once the kill was asked for, the run ends as soon as the child is found gone: its
/// handle is released and, the stop request still standing, the run is `Stopped`, the
/// phase in which `Supervisor::step` raises `has_stopped`. Until the child is found gone
/// the kill is asked for again on every tick.
pub proof fn lemma_kill_leads_to_stopped(seen_on_tick: bool)
    ensures
        next_phase(Phase::ForceKill, Event::Tick { child_exited: false }, seen_on_tick)
            == Phase::ForceKill,
        next_phase(Phase::ForceKill, Event::Tick { child_exited: true }, seen_on_tick)
            == Phase::Exited,
        next_phase(Phase::Exited, Event::Released, true) == Phase::Stopped,
        pending_action(Phase::Stopped) == Action::Finish,
{
}

} // verus!
