//! Message types shared between the OSC side and the OBS side of the bridge,
//! and the application status with its short and long descriptions.

use vstd::prelude::*;
use vstd::string::*;
use crate::text::{contains_str, has_substring};

verus! {

/// Commands sent from the OSC listener to the OBS client.
#[derive(Debug)]
pub enum BridgeCommand {
    /// Request the list of all scene names.
    GetSceneList,
    /// Request the currently active scene (index + name).
    GetActiveScene,
    /// Switch to a scene by name.
    SetSceneByName(String),
    /// Switch to a scene by 1-based index.
    SetSceneByIndex(i32),
}

/// Responses sent from the OBS client back to the OSC sender.
#[derive(Debug, Clone)]
pub enum BridgeResponse {
    /// Full list of scene names.
    SceneList(Vec<String>),
    /// Currently active scene: 0-based index and name.
    ActiveScene { index: usize, name: String },
    /// Bridge status string for diagnostics.
    Status(String),
}

/// Application status, watched by the tray icon.
#[derive(Debug, Clone)]
pub enum AppStatus {
    Starting,
    OscListening,
    ObsDisconnected,
    Connected { scene: String },
    Error(String),
}

/// The short status word of a status, as a character sequence.
pub open spec fn osc_status_word(status: AppStatus) -> Seq<char> {
    match status {
        AppStatus::Starting => "starting"@,
        AppStatus::OscListening => "obs_disconnected"@,
        AppStatus::ObsDisconnected => "obs_disconnected"@,
        AppStatus::Connected { .. } => "connected"@,
        AppStatus::Error(e) => if has_substring(e@, "password not set"@) {
            "obs_password_not_set"@
        } else if has_substring(e@, "password incorrect"@) {
            "obs_password_incorrect"@
        } else {
            "error"@
        },
    }
}

impl AppStatus {
    /// Convert to a short status string for the `/bridgeStatus` OSC message.
    pub fn osc_status(&self) -> (r: &str)
        ensures
            r@ == osc_status_word(*self),
    {
        match self {
            AppStatus::Starting => "starting",
            AppStatus::OscListening => "obs_disconnected",
            AppStatus::ObsDisconnected => "obs_disconnected",
            AppStatus::Connected { .. } => "connected",
            AppStatus::Error(e) => {
                if contains_str(e.as_str(), "password not set") {
                    "obs_password_not_set"
                } else if contains_str(e.as_str(), "password incorrect") {
                    "obs_password_incorrect"
                } else {
                    "error"
                }
            },
        }
    }
}

/// The long, human-readable description of a status.
pub open spec fn status_description(status: AppStatus) -> Seq<char> {
    match status {
        AppStatus::Starting => "Starting..."@,
        AppStatus::OscListening => "OSC listening, waiting for OBS..."@,
        AppStatus::ObsDisconnected => "OBS disconnected, reconnecting..."@,
        AppStatus::Connected { scene } => "Connected — Scene: "@ + scene@,
        AppStatus::Error(e) => "Error: "@ + e@,
    }
}

impl AppStatus {
    /// The human-readable description of the status, as shown in the tray
    /// (what `Display` writes for it).
    pub fn status_text(&self) -> (r: String)
        ensures
            r@ == status_description(*self),
    {
        match self {
            AppStatus::Starting => String::from_str("Starting..."),
            AppStatus::OscListening => String::from_str("OSC listening, waiting for OBS..."),
            AppStatus::ObsDisconnected => String::from_str("OBS disconnected, reconnecting..."),
            AppStatus::Connected { scene } => String::from_str("Connected — Scene: ").concat(
                scene.as_str(),
            ),
            AppStatus::Error(e) => String::from_str("Error: ").concat(e.as_str()),
        }
    }

    /// Record that the OSC socket is listening: a status still at `Starting`
    /// becomes `OscListening`, any other status (such as an error already
    /// reported by the OBS side) is kept. Returns whether it changed.
    pub fn on_osc_listening(&mut self) -> (changed: bool)
        ensures
            changed == (*old(self) is Starting),
            changed ==> *final(self) is OscListening,
            !changed ==> *final(self) == *old(self),
    {
        if let AppStatus::Starting = self {
            *self = AppStatus::OscListening;
            true
        } else {
            false
        }
    }
}

} // verus!
