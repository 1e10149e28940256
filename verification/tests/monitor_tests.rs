use ephemeral_vault::monitor::VaultMonitor;

const NOW: i64 = 1_700_000_000;

#[test]
fn test_monitor_tracks_in_order() {
    let mut monitor = VaultMonitor::new();
    monitor.add_vault("m1".to_string(), "s1".to_string(), 10, NOW);
    monitor.add_vault("m2".to_string(), "s2".to_string(), 20, NOW);
    monitor.add_vault("m3".to_string(), "s3".to_string(), 30, NOW);
    assert_eq!(monitor.get_active_vaults(), vec!["m1", "m2", "m3"]);
}

#[test]
fn test_monitor_re_adding_refreshes() {
    let mut monitor = VaultMonitor::new();
    monitor.add_vault("m1".to_string(), "s1".to_string(), 10, NOW);
    monitor.add_vault("m1".to_string(), "s1b".to_string(), 99, NOW + 5);
    assert_eq!(monitor.get_balance("m1"), Some(99));
    assert_eq!(monitor.get_active_vaults().len(), 1);
}

#[test]
fn test_monitor_update_unknown_is_noop() {
    let mut monitor = VaultMonitor::new();
    monitor.update_balance("ghostly", 5, NOW).unwrap();
    assert_eq!(monitor.get_balance("ghostly"), None);
    monitor.remove_vault("ghostly").unwrap();
}

#[test]
fn test_monitor_abandoned_selection() {
    let mut monitor = VaultMonitor::new();
    monitor.add_vault("old".to_string(), "s1".to_string(), 1, NOW - 100);
    monitor.add_vault("fresh".to_string(), "s2".to_string(), 2, NOW);
    let abandoned = monitor.detect_abandoned_vaults(60, NOW);
    assert_eq!(abandoned, vec!["old"]);
    // activity on the stale vault rescues it
    monitor.update_balance("old", 3, NOW).unwrap();
    assert!(monitor.detect_abandoned_vaults(60, NOW).is_empty());
}

#[test]
fn test_monitor_abandoned_boundary() {
    let mut monitor = VaultMonitor::new();
    monitor.add_vault("edge".to_string(), "s".to_string(), 1, NOW - 60);
    // exactly at the threshold is not yet abandoned; one second more is
    assert!(monitor.detect_abandoned_vaults(60, NOW).is_empty());
    assert_eq!(monitor.detect_abandoned_vaults(60, NOW + 1), vec!["edge"]);
}
