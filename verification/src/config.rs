//! The bridge configuration, its defaults, and the resolution of the OSC
//! reply address.

use vstd::prelude::*;
use vstd::string::*;
use crate::text::{
    eq_ignoring_ascii_case, last_index_of, rfind_char, str_eq_ignore_ascii_case,
};

verus! {

/// Settings of the bridge, read from `config.json` next to the executable.
#[derive(Debug, Clone)]
pub struct Config {
    /// OBS WebSocket host (default: 127.0.0.1)
    pub obs_host: String,
    /// OBS WebSocket port (default: 4455)
    pub obs_port: u16,
    /// OBS WebSocket password (default: "secret")
    pub obs_password: String,
    /// OSC listen host (default: "auto", which detects the machine's local
    /// network IP; "0.0.0.0" accepts from every interface)
    pub osc_listen_host: String,
    /// OSC listen port (default: 9000)
    pub osc_listen_port: u16,
    /// OSC send host for responses (default: "broadcast", which derives the
    /// broadcast address from `osc_listen_host`)
    pub osc_send_host: String,
    /// OSC send port for responses (default: 8000)
    pub osc_send_port: u16,
    /// Log file path (default: osc-obs-bridge.log next to the binary)
    pub log_file: String,
}

/// Default OBS host.
pub fn default_localhost() -> (r: String)
    ensures
        r@ == "127.0.0.1"@,
{
    String::from_str("127.0.0.1")
}

/// Default OBS WebSocket port.
pub fn default_obs_port() -> (r: u16)
    ensures
        r == 4455,
{
    4455
}

/// Default OBS WebSocket password.
pub fn default_obs_password() -> (r: String)
    ensures
        r@ == "secret"@,
{
    String::from_str("secret")
}

/// Default OSC listen host: detect the local network IP.
pub fn default_osc_listen_host() -> (r: String)
    ensures
        r@ == "auto"@,
{
    String::from_str("auto")
}

/// Default OSC listen port (TouchOSC's default send port).
pub fn default_osc_listen_port() -> (r: u16)
    ensures
        r == 9000,
{
    9000
}

/// Default OSC send host: the broadcast address of the listen network.
pub fn default_osc_send_host() -> (r: String)
    ensures
        r@ == "broadcast"@,
{
    String::from_str("broadcast")
}

/// Default OSC send port (TouchOSC's default receive port).
pub fn default_osc_send_port() -> (r: u16)
    ensures
        r == 8000,
{
    8000
}

/// Default log file name.
pub fn default_log_file() -> (r: String)
    ensures
        r@ == "osc-obs-bridge.log"@,
{
    String::from_str("osc-obs-bridge.log")
}

/// The configuration holds the default value in every field.
pub open spec fn is_default_config(c: Config) -> bool {
    &&& c.obs_host@ == "127.0.0.1"@
    &&& c.obs_port == 4455
    &&& c.obs_password@ == "secret"@
    &&& c.osc_listen_host@ == "auto"@
    &&& c.osc_listen_port == 9000
    &&& c.osc_send_host@ == "broadcast"@
    &&& c.osc_send_port == 8000
    &&& c.log_file@ == "osc-obs-bridge.log"@
}

impl Default for Config {
    fn default() -> (r: Self)
        ensures
            is_default_config(r),
    {
        Config {
            obs_host: default_localhost(),
            obs_port: default_obs_port(),
            obs_password: default_obs_password(),
            osc_listen_host: default_osc_listen_host(),
            osc_listen_port: default_osc_listen_port(),
            osc_send_host: default_osc_send_host(),
            osc_send_port: default_osc_send_port(),
            log_file: default_log_file(),
        }
    }
}

/// The host that OSC responses go to, given the listen host and the
/// configured send host: the configured host itself, unless it is
/// `broadcast` (in any ASCII case), in which case the listen host with
/// everything after its last `.` replaced by `255`, or the limited broadcast
/// address when the listen host holds no `.`.
pub open spec fn resolved_send_host(listen_host: Seq<char>, send_host: Seq<char>) -> Seq<char> {
    if eq_ignoring_ascii_case(send_host, "broadcast"@) {
        match last_index_of(listen_host, '.') {
            Some(p) => listen_host.take(p) + ".255"@,
            None => "255.255.255.255"@,
        }
    } else {
        send_host
    }
}

/// The host the OSC socket listens on: for `auto` (in any ASCII case) the
/// detected local IP, or every interface (`0.0.0.0`) when none was
/// detected; otherwise the configured host.
pub open spec fn resolved_listen_host(listen_host: Seq<char>, detected_ip: Option<Seq<char>>) -> Seq<char> {
    if eq_ignoring_ascii_case(listen_host, "auto"@) {
        match detected_ip {
            Some(ip) => ip,
            None => "0.0.0.0"@,
        }
    } else {
        listen_host
    }
}

impl Config {
    /// Whether the listen host asks for the local IP to be detected (`auto`,
    /// in any ASCII case).
    pub fn listen_host_is_auto(&self) -> (r: bool)
        ensures
            r == eq_ignoring_ascii_case(self.osc_listen_host@, "auto"@),
    {
        str_eq_ignore_ascii_case(self.osc_listen_host.as_str(), "auto")
    }

    /// Resolve the OSC listen host, given the local IP that was detected for
    /// `auto` (`None` when detection failed or was not asked for).
    pub fn resolved_osc_listen_host(&self, detected_ip: Option<String>) -> (r: String)
        ensures
            r@ == resolved_listen_host(
                self.osc_listen_host@,
                match detected_ip {
                    Some(ip) => Some(ip@),
                    None => None,
                },
            ),
    {
        if self.listen_host_is_auto() {
            match detected_ip {
                Some(ip) => ip,
                None => String::from_str("0.0.0.0"),
            }
        } else {
            self.osc_listen_host.clone()
        }
    }

    /// Resolve the OSC send host for the given (resolved) listen host. If set
    /// to "broadcast", derives the broadcast address from `listen_host` by
    /// replacing the last octet with 255.
    pub fn osc_send_host_for(&self, listen_host: &str) -> (r: String)
        ensures
            r@ == resolved_send_host(listen_host@, self.osc_send_host@),
    {
        if str_eq_ignore_ascii_case(self.osc_send_host.as_str(), "broadcast") {
            match rfind_char(listen_host, '.') {
                Some(pos) => {
                    let prefix = listen_host.substring_char(0, pos);
                    String::from_str(prefix).concat(".255")
                },
                None => String::from_str("255.255.255.255"),
            }
        } else {
            self.osc_send_host.clone()
        }
    }

    /// Resolve the OSC send host. If set to "broadcast", derives the broadcast
    /// address from `osc_listen_host` by replacing the last octet with 255.
    pub fn resolved_osc_send_host(&self) -> (r: String)
        ensures
            r@ == resolved_send_host(self.osc_listen_host@, self.osc_send_host@),
    {
        self.osc_send_host_for(self.osc_listen_host.as_str())
    }
}

} // verus!
