use osc_obs_bridge::bridge::{AppStatus, BridgeResponse};
use osc_obs_bridge::tray::IconColor;

fn err(s: &str) -> AppStatus {
    AppStatus::Error(s.to_string())
}

#[test]
fn osc_status_of_plain_states() {
    assert_eq!(AppStatus::Starting.osc_status(), "starting");
    assert_eq!(AppStatus::OscListening.osc_status(), "obs_disconnected");
    assert_eq!(AppStatus::ObsDisconnected.osc_status(), "obs_disconnected");
    assert_eq!(
        AppStatus::Connected { scene: "Band Logo".to_string() }.osc_status(),
        "connected"
    );
}

#[test]
fn osc_status_of_errors() {
    assert_eq!(err("OBS password not set in config").osc_status(), "obs_password_not_set");
    assert_eq!(err("OBS password incorrect").osc_status(), "obs_password_incorrect");
    assert_eq!(err("password not set and password incorrect").osc_status(), "obs_password_not_set");
    assert_eq!(err("Password Not Set").osc_status(), "error");
    assert_eq!(err("").osc_status(), "error");
    assert_eq!(err("failed to bind socket").osc_status(), "error");
}

#[test]
fn status_text_matches_display_wording() {
    assert_eq!(AppStatus::Starting.status_text(), "Starting...");
    assert_eq!(AppStatus::OscListening.status_text(), "OSC listening, waiting for OBS...");
    assert_eq!(AppStatus::ObsDisconnected.status_text(), "OBS disconnected, reconnecting...");
    assert_eq!(
        AppStatus::Connected { scene: "Camera 1".to_string() }.status_text(),
        "Connected — Scene: Camera 1"
    );
    assert_eq!(err("boom").status_text(), "Error: boom");
}

#[test]
fn tray_tooltip_and_icon() {
    let s = AppStatus::Connected { scene: "Intermission".to_string() };
    assert_eq!(s.tray_tooltip(), "osc-obs-bridge: Connected — Scene: Intermission");
    assert_eq!(s.icon_color(), IconColor::Green);
    assert_eq!(err("x").icon_color(), IconColor::Red);
    assert_eq!(AppStatus::Starting.icon_color(), IconColor::Grey);
    assert_eq!(AppStatus::OscListening.icon_color(), IconColor::Grey);
    assert_eq!(AppStatus::ObsDisconnected.icon_color(), IconColor::Grey);
    assert_eq!(AppStatus::Starting.tray_tooltip(), "osc-obs-bridge: Starting...");
}

#[test]
fn icon_rgb_values() {
    assert_eq!(IconColor::Green.rgb(), (0x2E, 0xCC, 0x40));
    assert_eq!(IconColor::Grey.rgb(), (0x99, 0x99, 0x99));
    assert_eq!(IconColor::Red.rgb(), (0xE7, 0x4C, 0x3C));
}

#[test]
fn osc_listening_only_replaces_starting() {
    let mut s = AppStatus::Starting;
    assert!(s.on_osc_listening());
    assert!(matches!(s, AppStatus::OscListening));
    assert!(!s.on_osc_listening());
    assert!(matches!(s, AppStatus::OscListening));

    let mut e = err("OBS password not set");
    assert!(!e.on_osc_listening());
    assert!(matches!(e, AppStatus::Error(ref m) if m == "OBS password not set"));

    let mut c = AppStatus::Connected { scene: "A".to_string() };
    assert!(!c.on_osc_listening());
    assert!(matches!(c, AppStatus::Connected { .. }));
}

#[test]
fn responses_clone() {
    let r = BridgeResponse::ActiveScene { index: 1, name: "B".to_string() };
    let c = r.clone();
    assert!(matches!(c, BridgeResponse::ActiveScene { index: 1, ref name } if name == "B"));
}
