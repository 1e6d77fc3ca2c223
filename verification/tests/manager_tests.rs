use substratheus::config::{Config, Validator};
use substratheus::manager::{
    ConnectionManager, EndpointChoice, ManagerAction, ManagerEvent, ManagerPhase,
};
use substratheus::sink::{Labels, MetricName, MetricSink};

fn labels() -> Labels {
    Labels {
        network: "polkadot".to_string(),
        chain: "Polkadot".to_string(),
        validator_name: None,
        validator_address: None,
    }
}

fn config() -> Config {
    Config {
        network: substratheus::codec::Network::Polkadot,
        chain: "Polkadot".to_string(),
        rpc_url: "wss://primary.example".to_string(),
        backup_rpc_url: "wss://backup.example".to_string(),
        validators: Vec::<Validator>::new(),
    }
}

#[test]
fn starts_disconnected_on_primary() {
    let m = ConnectionManager::new();
    assert_eq!(m.phase, ManagerPhase::Disconnected);
    assert_eq!(m.selected, EndpointChoice::Primary);
    assert_eq!(m.select_url(&config()), "wss://primary.example");
}

#[test]
fn failing_primary_falls_over_to_backup_in_two_attempts() {
    let mut m = ConnectionManager::new();
    let mut sink = MetricSink::new();
    let l = labels();

    // Attempt 1: the primary refuses the connection.
    let action = m.step(ManagerEvent::ConnectFailed, &mut sink, &l);
    assert_eq!(action, ManagerAction::Backoff);
    assert_eq!(m.phase, ManagerPhase::Disconnected);
    assert_eq!(m.selected, EndpointChoice::Backup);
    assert_eq!(m.select_url(&config()), "wss://backup.example");
    assert_eq!(sink.get_gauge(MetricName::RpcHealth, &l), Some(0));

    // Attempt 2: the backup accepts; the handle is published there.
    let action = m.step(ManagerEvent::ConnectSucceeded, &mut sink, &l);
    assert_eq!(action, ManagerAction::PublishHandle);
    assert_eq!(m.phase, ManagerPhase::Connected);
    assert_eq!(m.selected, EndpointChoice::Backup);
    assert_eq!(sink.get_gauge(MetricName::RpcHealth, &l), Some(1));
}

#[test]
fn probe_failure_unpublishes_and_drops_health() {
    let mut m = ConnectionManager::new();
    let mut sink = MetricSink::new();
    let l = labels();
    m.step(ManagerEvent::ConnectSucceeded, &mut sink, &l);
    assert_eq!(m.phase, ManagerPhase::Connected);
    assert_eq!(sink.get_gauge(MetricName::RpcHealth, &l), Some(1));

    // The liveness probe fails: handle cleared, health 1 -> 0, endpoint
    // flipped, all before any further connect attempt.
    let action = m.step(ManagerEvent::ProbeFailed, &mut sink, &l);
    assert_eq!(action, ManagerAction::ClearHandleAndBackoff);
    assert_eq!(m.phase, ManagerPhase::Disconnected);
    assert_eq!(m.selected, EndpointChoice::Backup);
    assert_eq!(sink.get_gauge(MetricName::RpcHealth, &l), Some(0));
}

#[test]
fn probe_success_keeps_the_connection() {
    let mut m = ConnectionManager::new();
    let mut sink = MetricSink::new();
    let l = labels();
    m.step(ManagerEvent::ConnectSucceeded, &mut sink, &l);
    let action = m.step(ManagerEvent::ProbeSucceeded, &mut sink, &l);
    assert_eq!(action, ManagerAction::KeepGoing);
    assert_eq!(m.phase, ManagerPhase::Connected);
    assert_eq!(sink.get_gauge(MetricName::RpcHealth, &l), Some(1));
}

#[test]
fn shutdown_is_terminal_from_any_phase() {
    let mut sink = MetricSink::new();
    let l = labels();

    let mut disconnected = ConnectionManager::new();
    let action = disconnected.step(ManagerEvent::ShutdownObserved, &mut sink, &l);
    assert_eq!(action, ManagerAction::Exit);
    assert_eq!(disconnected.phase, ManagerPhase::Shutdown);

    let mut connected = ConnectionManager::new();
    connected.step(ManagerEvent::ConnectSucceeded, &mut sink, &l);
    let action = connected.step(ManagerEvent::ShutdownObserved, &mut sink, &l);
    assert_eq!(action, ManagerAction::Exit);
    assert_eq!(connected.phase, ManagerPhase::Shutdown);

    // After shutdown no event changes the phase again.
    let action = connected.step(ManagerEvent::ConnectSucceeded, &mut sink, &l);
    assert_eq!(action, ManagerAction::Exit);
    assert_eq!(connected.phase, ManagerPhase::Shutdown);
}

#[test]
fn every_failure_alternates_endpoints() {
    let mut m = ConnectionManager::new();
    let mut sink = MetricSink::new();
    let l = labels();
    assert_eq!(m.selected, EndpointChoice::Primary);
    m.step(ManagerEvent::ConnectFailed, &mut sink, &l);
    assert_eq!(m.selected, EndpointChoice::Backup);
    m.step(ManagerEvent::ConnectFailed, &mut sink, &l);
    assert_eq!(m.selected, EndpointChoice::Primary);
    m.step(ManagerEvent::ConnectFailed, &mut sink, &l);
    assert_eq!(m.selected, EndpointChoice::Backup);
}
