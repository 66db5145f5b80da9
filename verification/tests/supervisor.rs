use bleedingedge::api::Version;
use bleedingedge::launch::{
    Action, Event, Failure, LaunchData, Phase, Supervisor, GRACE_TICKS, POLL_SECONDS,
    RESTART_DELAY_SECONDS,
};
use bleedingedge::signals::ControlSignals;

fn launch() -> LaunchData {
    LaunchData {
        use_aikar: true,
        working_dir: String::from("run"),
        version: Version {
            id: String::from("1.21.1"),
            version_type: String::from("release"),
            url: String::from("https://example.invalid/1.21.1.json"),
        },
    }
}

fn running() -> (Supervisor, ControlSignals) {
    let mut signals = ControlSignals::new();
    let mut supervisor = Supervisor::new(launch());
    assert_eq!(supervisor.pending(), Action::Resolve);
    assert_eq!(supervisor.step(Event::Resolved, &mut signals), Action::Inspect);
    assert_eq!(
        supervisor.step(Event::Inspected { intact: true }, &mut signals),
        Action::AcceptLicense
    );
    assert_eq!(supervisor.step(Event::LicenseWritten, &mut signals), Action::Spawn);
    assert_eq!(supervisor.step(Event::Spawned, &mut signals), Action::Poll);
    (supervisor, signals)
}

#[test]
fn start_holds_the_configuration_it_was_called_on() {
    let plain = LaunchData {
        use_aikar: false,
        working_dir: String::from("/srv/game"),
        version: Version {
            id: String::from("24w14a"),
            version_type: String::from("snapshot"),
            url: String::from("https://example.invalid/24w14a.json"),
        },
    };
    let supervisor = plain.start();
    assert_eq!(supervisor.config(), &plain);
    assert!(!supervisor.config().use_aikar);
    assert_eq!(supervisor.config().working_dir, "/srv/game");
    assert_eq!(supervisor.config().version.id, "24w14a");
    let tuned = launch().start();
    assert_eq!(tuned.config(), &launch());
    assert_eq!(Supervisor::new(launch()), tuned);
}

#[test]
fn configuration_stays_what_it_was_over_a_whole_run() {
    let (mut supervisor, mut signals) = running();
    assert_eq!(supervisor.config(), &launch());
    supervisor.step(Event::Tick { child_exited: true }, &mut signals);
    supervisor.step(Event::Released, &mut signals);
    supervisor.step(Event::CooledDown, &mut signals);
    supervisor.step(Event::Spawned, &mut signals);
    signals.request_stop();
    supervisor.step(Event::Tick { child_exited: false }, &mut signals);
    supervisor.step(Event::Tick { child_exited: true }, &mut signals);
    supervisor.step(Event::Released, &mut signals);
    assert!(supervisor.finished());
    assert_eq!(supervisor.config(), &launch());
}

#[test]
fn start_begins_with_resolving() {
    let data = launch();
    let supervisor = data.start();
    assert_eq!(supervisor.phase(), Phase::Resolving);
    assert_eq!(supervisor.pending(), Action::Resolve);
    assert!(!supervisor.finished());
}

#[test]
fn intact_executable_is_not_downloaded() {
    let mut signals = ControlSignals::new();
    let mut supervisor = Supervisor::new(launch());
    supervisor.step(Event::Resolved, &mut signals);
    let action = supervisor.step(Event::Inspected { intact: true }, &mut signals);
    assert_eq!(action, Action::AcceptLicense);
    assert_eq!(supervisor.phase(), Phase::Licensing);
}

#[test]
fn missing_executable_is_downloaded_then_licensed() {
    let mut signals = ControlSignals::new();
    let mut supervisor = Supervisor::new(launch());
    supervisor.step(Event::Resolved, &mut signals);
    assert_eq!(
        supervisor.step(Event::Inspected { intact: false }, &mut signals),
        Action::Download
    );
    assert_eq!(
        supervisor.step(Event::Downloaded { intact: true }, &mut signals),
        Action::AcceptLicense
    );
    assert_eq!(supervisor.step(Event::LicenseWritten, &mut signals), Action::Spawn);
}

#[test]
fn checksum_mismatch_after_download_is_fatal() {
    let mut signals = ControlSignals::new();
    let mut supervisor = Supervisor::new(launch());
    supervisor.step(Event::Resolved, &mut signals);
    supervisor.step(Event::Inspected { intact: false }, &mut signals);
    let action = supervisor.step(Event::Downloaded { intact: false }, &mut signals);
    assert_eq!(action, Action::Abort { reason: Failure::ChecksumMismatch });
    assert!(supervisor.finished());
    assert!(!signals.has_stopped());
}

#[test]
fn every_failure_ends_the_run_with_its_reason() {
    let mut signals = ControlSignals::new();

    let mut supervisor = Supervisor::new(launch());
    assert_eq!(
        supervisor.step(Event::ResolveFailed, &mut signals),
        Action::Abort { reason: Failure::Metadata }
    );

    let mut supervisor = Supervisor::new(launch());
    supervisor.step(Event::Resolved, &mut signals);
    supervisor.step(Event::Inspected { intact: false }, &mut signals);
    assert_eq!(
        supervisor.step(Event::DownloadFailed, &mut signals),
        Action::Abort { reason: Failure::Download }
    );

    let mut supervisor = Supervisor::new(launch());
    supervisor.step(Event::Resolved, &mut signals);
    supervisor.step(Event::Inspected { intact: true }, &mut signals);
    assert_eq!(
        supervisor.step(Event::LicenseFailed, &mut signals),
        Action::Abort { reason: Failure::License }
    );

    let mut supervisor = Supervisor::new(launch());
    supervisor.step(Event::Resolved, &mut signals);
    supervisor.step(Event::Inspected { intact: true }, &mut signals);
    supervisor.step(Event::LicenseWritten, &mut signals);
    assert_eq!(
        supervisor.step(Event::SpawnFailed, &mut signals),
        Action::Abort { reason: Failure::Spawn }
    );

    let (mut supervisor, mut signals) = running();
    assert_eq!(
        supervisor.step(Event::PollFailed, &mut signals),
        Action::Abort { reason: Failure::Poll }
    );
    assert_eq!(supervisor.phase(), Phase::Failed { reason: Failure::Poll });

    let (mut supervisor, mut signals) = running();
    signals.request_stop();
    supervisor.step(Event::Tick { child_exited: false }, &mut signals);
    assert_eq!(
        supervisor.step(Event::PipeFailed, &mut signals),
        Action::Abort { reason: Failure::Pipe }
    );
    assert!(!signals.has_stopped());
}

#[test]
fn running_child_is_polled_until_something_happens() {
    let (mut supervisor, mut signals) = running();
    for _ in 0..10 {
        assert_eq!(
            supervisor.step(Event::Tick { child_exited: false }, &mut signals),
            Action::Poll
        );
        assert_eq!(supervisor.phase(), Phase::Running);
    }
    assert_eq!(Action::Poll.delay_seconds(), POLL_SECONDS);
    assert_eq!(POLL_SECONDS, 1);
}

#[test]
fn unrequested_exit_restarts_after_the_delay() {
    let (mut supervisor, mut signals) = running();
    assert_eq!(
        supervisor.step(Event::Tick { child_exited: true }, &mut signals),
        Action::Release
    );
    assert_eq!(supervisor.phase(), Phase::Exited);
    let action = supervisor.step(Event::Released, &mut signals);
    assert_eq!(action, Action::Cooldown);
    assert_eq!(action.delay_seconds(), 5);
    assert_eq!(RESTART_DELAY_SECONDS, 5);
    assert_eq!(supervisor.phase(), Phase::CooldownWait);
    assert_eq!(supervisor.step(Event::CooledDown, &mut signals), Action::Spawn);
    assert_eq!(supervisor.step(Event::Spawned, &mut signals), Action::Poll);
    assert_eq!(supervisor.phase(), Phase::Running);
    assert!(!supervisor.finished());
    assert!(!signals.has_stopped());
}

#[test]
fn crash_loop_is_retried_without_limit() {
    let (mut supervisor, mut signals) = running();
    for _ in 0..1000 {
        supervisor.step(Event::Tick { child_exited: true }, &mut signals);
        supervisor.step(Event::Released, &mut signals);
        supervisor.step(Event::CooledDown, &mut signals);
        assert_eq!(supervisor.step(Event::Spawned, &mut signals), Action::Poll);
    }
    assert!(!supervisor.finished());
    assert!(!signals.has_stopped());
}

#[test]
fn stop_requested_during_cooldown_ends_the_run() {
    let (mut supervisor, mut signals) = running();
    supervisor.step(Event::Tick { child_exited: true }, &mut signals);
    assert_eq!(supervisor.step(Event::Released, &mut signals), Action::Cooldown);
    signals.request_stop();
    assert_eq!(supervisor.step(Event::CooledDown, &mut signals), Action::Finish);
    assert_eq!(supervisor.phase(), Phase::Stopped);
    assert!(signals.has_stopped());
}

#[test]
fn graceful_stop_sends_a_line_per_tick_and_ends_on_exit() {
    let (mut supervisor, mut signals) = running();
    signals.request_stop();
    assert_eq!(
        supervisor.step(Event::Tick { child_exited: false }, &mut signals),
        Action::SendStop
    );
    assert_eq!(supervisor.phase(), Phase::GracefulStop { ticks: 1 });
    assert_eq!(
        supervisor.step(Event::Tick { child_exited: false }, &mut signals),
        Action::SendStop
    );
    assert_eq!(supervisor.phase(), Phase::GracefulStop { ticks: 2 });
    assert!(!signals.has_stopped());
    assert_eq!(
        supervisor.step(Event::Tick { child_exited: true }, &mut signals),
        Action::Release
    );
    assert!(!signals.has_stopped());
    assert_eq!(supervisor.step(Event::Released, &mut signals), Action::Finish);
    assert!(signals.has_stopped());
    assert!(supervisor.finished());
}

#[test]
fn child_that_ignores_the_stop_is_killed_after_the_grace_period() {
    let (mut supervisor, mut signals) = running();
    signals.request_stop();
    let mut lines = 0u32;
    let mut action = supervisor.step(Event::Tick { child_exited: false }, &mut signals);
    let mut ticks_after_entering = 0u32;
    while action == Action::SendStop {
        lines += 1;
        action = supervisor.step(Event::Tick { child_exited: false }, &mut signals);
        ticks_after_entering += 1;
    }
    assert_eq!(GRACE_TICKS, 180);
    assert_eq!(lines, 180);
    assert_eq!(ticks_after_entering, 180);
    assert_eq!(action, Action::Kill);
    assert_eq!(supervisor.phase(), Phase::ForceKill);
    assert!(!signals.has_stopped());
    assert_eq!(
        supervisor.step(Event::Tick { child_exited: false }, &mut signals),
        Action::Kill
    );
    assert_eq!(
        supervisor.step(Event::Tick { child_exited: true }, &mut signals),
        Action::Release
    );
    assert_eq!(supervisor.step(Event::Released, &mut signals), Action::Finish);
    assert!(signals.has_stopped());
}

#[test]
fn last_tick_of_the_grace_period_still_sends_the_line() {
    let (mut supervisor, mut signals) = running();
    signals.request_stop();
    for expected in 1..=180u32 {
        assert_eq!(
            supervisor.step(Event::Tick { child_exited: false }, &mut signals),
            Action::SendStop
        );
        assert_eq!(supervisor.phase(), Phase::GracefulStop { ticks: expected });
    }
    assert_eq!(
        supervisor.step(Event::Tick { child_exited: false }, &mut signals),
        Action::Kill
    );
}

#[test]
fn event_that_answers_nothing_changes_nothing() {
    let (mut supervisor, mut signals) = running();
    assert_eq!(supervisor.step(Event::Released, &mut signals), Action::Poll);
    assert_eq!(supervisor.step(Event::CooledDown, &mut signals), Action::Poll);
    assert_eq!(supervisor.step(Event::Spawned, &mut signals), Action::Poll);
    assert_eq!(supervisor.phase(), Phase::Running);
    assert!(!signals.has_stopped());
}

#[test]
fn ended_run_stays_ended() {
    let (mut supervisor, mut signals) = running();
    signals.request_stop();
    supervisor.step(Event::Tick { child_exited: true }, &mut signals);
    assert_eq!(supervisor.step(Event::Released, &mut signals), Action::Finish);
    assert_eq!(supervisor.step(Event::Spawned, &mut signals), Action::Finish);
    assert_eq!(
        supervisor.step(Event::Tick { child_exited: false }, &mut signals),
        Action::Finish
    );
    assert_eq!(supervisor.phase(), Phase::Stopped);
}

#[test]
fn supervisor_never_raises_the_stop_request() {
    let (mut supervisor, mut signals) = running();
    supervisor.step(Event::Tick { child_exited: true }, &mut signals);
    supervisor.step(Event::Released, &mut signals);
    supervisor.step(Event::CooledDown, &mut signals);
    assert!(!signals.stop_requested());
}
