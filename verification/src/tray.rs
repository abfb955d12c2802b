//! How the tray icon presents the application status.

use vstd::prelude::*;
use vstd::string::*;
use crate::bridge::{AppStatus, status_description};

verus! {

/// Colour of the tray dot.
#[derive(Debug, Clone, Copy, PartialEq, Eq, Structural)]
pub enum IconColor {
    Green,
    Grey,
    Red,
}

/// The colour that shows a status: green when connected to OBS, red on an
/// error, grey while starting or waiting for OBS.
pub open spec fn status_color(status: AppStatus) -> IconColor {
    match status {
        AppStatus::Connected { .. } => IconColor::Green,
        AppStatus::Error(_) => IconColor::Red,
        _ => IconColor::Grey,
    }
}

impl IconColor {
    /// Red, green and blue components of the dot.
    pub fn rgb(self) -> (r: (u8, u8, u8))
        ensures
            self == IconColor::Green ==> r == (0x2Eu8, 0xCCu8, 0x40u8),
            self == IconColor::Grey ==> r == (0x99u8, 0x99u8, 0x99u8),
            self == IconColor::Red ==> r == (0xE7u8, 0x4Cu8, 0x3Cu8),
    {
        match self {
            IconColor::Green => (0x2E, 0xCC, 0x40),
            IconColor::Grey => (0x99, 0x99, 0x99),
            IconColor::Red => (0xE7, 0x4C, 0x3C),
        }
    }
}

impl AppStatus {
    /// The colour of the tray dot for this status.
    pub fn icon_color(&self) -> (r: IconColor)
        ensures
            r == status_color(*self),
    {
        match self {
            AppStatus::Connected { .. } => IconColor::Green,
            AppStatus::Error(_) => IconColor::Red,
            _ => IconColor::Grey,
        }
    }

    /// The tray tooltip (also the status line of the tray menu).
    pub fn tray_tooltip(&self) -> (r: String)
        ensures
            r@ == "osc-obs-bridge: "@ + status_description(*self),
    {
        let text = self.status_text();
        String::from_str("osc-obs-bridge: ").concat(text.as_str())
    }
}

} // verus!
