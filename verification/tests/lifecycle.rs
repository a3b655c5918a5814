use secure_db_bootstrap::lifecycle::Event;
use secure_db_bootstrap::lifecycle::Phase;
use secure_db_bootstrap::lifecycle::spawn_permitted;
use secure_db_bootstrap::lifecycle::step;

#[test]
fn happy_path_runs_linearly_to_driver_running() {
    let mut phase = Phase::Start;
    phase = step(phase, Event::ConfigLoaded);
    assert_eq!(phase, Phase::ConfigReady);
    phase = step(phase, Event::TlsBuilt);
    assert_eq!(phase, Phase::TlsReady);
    phase = step(phase, Event::ConnectSucceeded);
    assert_eq!(phase, Phase::Connected);
    assert!(spawn_permitted(phase));
    phase = step(phase, Event::DriverSpawned);
    assert_eq!(phase, Phase::DriverRunning);
}

#[test]
fn spawn_is_never_permitted_before_connect() {
    assert!(!spawn_permitted(Phase::Start));
    assert!(!spawn_permitted(Phase::ConfigReady));
    assert!(!spawn_permitted(Phase::TlsReady));
    assert!(!spawn_permitted(Phase::DriverRunning));
    assert!(!spawn_permitted(Phase::Failed));
    assert!(spawn_permitted(Phase::Connected));
}

#[test]
fn spawning_out_of_order_fails_the_run() {
    assert_eq!(step(Phase::Start, Event::DriverSpawned), Phase::Failed);
    assert_eq!(step(Phase::ConfigReady, Event::DriverSpawned), Phase::Failed);
    assert_eq!(step(Phase::TlsReady, Event::DriverSpawned), Phase::Failed);
}

#[test]
fn fatal_step_failures_end_the_run() {
    assert_eq!(step(Phase::Start, Event::ConfigLoadFailed), Phase::Failed);
    assert_eq!(step(Phase::ConfigReady, Event::TlsBuildFailed), Phase::Failed);
    assert_eq!(step(Phase::TlsReady, Event::ConnectFailed), Phase::Failed);
}

#[test]
fn failed_is_absorbing() {
    assert_eq!(step(Phase::Failed, Event::ConfigLoaded), Phase::Failed);
    assert_eq!(step(Phase::Failed, Event::ConnectSucceeded), Phase::Failed);
    assert_eq!(step(Phase::Failed, Event::DriverSpawned), Phase::Failed);
}

#[test]
fn out_of_order_successes_fail_the_run() {
    assert_eq!(step(Phase::Start, Event::ConnectSucceeded), Phase::Failed);
    assert_eq!(step(Phase::Start, Event::TlsBuilt), Phase::Failed);
    assert_eq!(step(Phase::Connected, Event::ConfigLoaded), Phase::Failed);
    assert_eq!(step(Phase::DriverRunning, Event::DriverSpawned), Phase::Failed);
}
