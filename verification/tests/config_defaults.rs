use race_probe::config::MountParams;

#[test]
fn mount_params_defaults_describe_the_target() {
    let p = MountParams::default();
    assert_eq!(p.node_id, "ME_CLI");
    assert_eq!(p.server_host, "localhost");
    assert_eq!(p.server_port, 8181);
    assert_eq!(p.server_username, "admin");
    assert_eq!(p.server_password, "admin");
    assert_eq!(p.device_host, "192.168.1.223");
    assert_eq!(p.device_port, 23);
    assert_eq!(p.transport_type, "telnet");
    assert_eq!(p.device_type, "ios xr");
    assert_eq!(p.device_version, "6.6.1");
    assert_eq!(p.device_username, "cisco");
    assert_eq!(p.device_password, "ciscocisco");
    assert!(!p.reconcile);
    assert_eq!(p.journal_size, 150);
    assert_eq!(p.dry_run_journal_size, 150);
    assert_eq!(p.keepalive_timeout_s, 180);
    assert_eq!(p.log_path, "data/log/karaf.log");
}
