use ruuvi_mqtt::monitor::{ConnectionMonitor, MonitorStep, Report, RECONNECT_DELAY_SECS};

#[test]
fn connection_is_reported_once_when_it_comes_up() {
    let mut monitor = ConnectionMonitor::new();
    assert!(!monitor.is_connected());
    assert_eq!(monitor.observe(true), MonitorStep { report: Report::Connected, wait_secs: 0 });
    assert!(monitor.is_connected());
    assert_eq!(monitor.observe(true), MonitorStep { report: Report::Nothing, wait_secs: 0 });
    assert!(monitor.is_connected());
}

#[test]
fn error_is_reported_once_per_transition_and_every_failure_waits() {
    let mut monitor = ConnectionMonitor::new();
    assert_eq!(monitor.observe(false), MonitorStep { report: Report::Nothing, wait_secs: 1 });
    monitor.observe(true);
    assert_eq!(
        monitor.observe(false),
        MonitorStep { report: Report::Disconnected, wait_secs: RECONNECT_DELAY_SECS }
    );
    assert!(!monitor.is_connected());
    assert_eq!(
        monitor.observe(false),
        MonitorStep { report: Report::Nothing, wait_secs: RECONNECT_DELAY_SECS }
    );
    assert_eq!(monitor.observe(true).report, Report::Connected);
}
