//! Verified core of a bridge between OSC controllers (such as TouchOSC) and
//! OBS Studio's WebSocket interface: the message types, the configuration,
//! the OSC message translation, the OBS command and event decisions, and the
//! tray status presentation.

pub mod text;
pub mod bridge;
pub mod config;
pub mod obs;
pub mod osc;
pub mod tray;
pub mod supervisor;
pub mod laws;
