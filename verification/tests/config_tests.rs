use osc_obs_bridge::config::{
    default_localhost, default_log_file, default_obs_password, default_obs_port,
    default_osc_listen_host, default_osc_listen_port, default_osc_send_host,
    default_osc_send_port, Config,
};

fn with_hosts(listen: &str, send: &str) -> Config {
    let mut c = Config::default();
    c.osc_listen_host = listen.to_string();
    c.osc_send_host = send.to_string();
    c
}

#[test]
fn defaults_match_documentation() {
    let c = Config::default();
    assert_eq!(c.obs_host, "127.0.0.1");
    assert_eq!(c.obs_port, 4455);
    assert_eq!(c.obs_password, "secret");
    assert_eq!(c.osc_listen_host, "auto");
    assert_eq!(c.osc_listen_port, 9000);
    assert_eq!(c.osc_send_host, "broadcast");
    assert_eq!(c.osc_send_port, 8000);
    assert_eq!(c.log_file, "osc-obs-bridge.log");
    assert_eq!(default_localhost(), "127.0.0.1");
    assert_eq!(default_obs_port(), 4455);
    assert_eq!(default_obs_password(), "secret");
    assert_eq!(default_osc_listen_host(), "auto");
    assert_eq!(default_osc_listen_port(), 9000);
    assert_eq!(default_osc_send_host(), "broadcast");
    assert_eq!(default_osc_send_port(), 8000);
    assert_eq!(default_log_file(), "osc-obs-bridge.log");
}

#[test]
fn broadcast_replaces_last_octet() {
    assert_eq!(with_hosts("192.168.1.42", "broadcast").resolved_osc_send_host(), "192.168.1.255");
    assert_eq!(with_hosts("10.0.0.7", "BroadCast").resolved_osc_send_host(), "10.0.0.255");
}

#[test]
fn broadcast_without_dot_falls_back() {
    assert_eq!(with_hosts("localhost", "broadcast").resolved_osc_send_host(), "255.255.255.255");
    assert_eq!(with_hosts("", "BROADCAST").resolved_osc_send_host(), "255.255.255.255");
}

#[test]
fn explicit_send_host_is_kept() {
    assert_eq!(with_hosts("192.168.1.42", "192.168.1.77").resolved_osc_send_host(), "192.168.1.77");
    assert_eq!(with_hosts("192.168.1.42", "broadcasts").resolved_osc_send_host(), "broadcasts");
    assert_eq!(with_hosts("192.168.1.42", "").resolved_osc_send_host(), "");
}

#[test]
fn broadcast_with_non_ascii_listen_host() {
    assert_eq!(with_hosts("hôte.lan", "broadcast").resolved_osc_send_host(), "hôte.255");
}

#[test]
fn default_listen_host_is_auto() {
    let c = Config::default();
    assert!(c.listen_host_is_auto());
    assert_eq!(c.resolved_osc_listen_host(Some("192.168.1.42".to_string())), "192.168.1.42");
    assert_eq!(c.resolved_osc_listen_host(None), "0.0.0.0");
    let listen = c.resolved_osc_listen_host(Some("192.168.1.42".to_string()));
    assert_eq!(c.osc_send_host_for(&listen), "192.168.1.255");
    assert_eq!(c.resolved_osc_send_host(), "255.255.255.255");
}

#[test]
fn explicit_listen_host_is_kept() {
    let c = with_hosts("10.1.2.3", "broadcast");
    assert!(!c.listen_host_is_auto());
    assert_eq!(c.resolved_osc_listen_host(Some("192.168.1.42".to_string())), "10.1.2.3");
    assert!(with_hosts("AUTO", "broadcast").listen_host_is_auto());
    assert_eq!(with_hosts("0.0.0.0", "broadcast").resolved_osc_listen_host(None), "0.0.0.0");
    assert_eq!(with_hosts("0.0.0.0", "broadcast").resolved_osc_send_host(), "0.0.0.255");
}
