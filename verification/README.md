# osc_obs_bridge

A bridge between OSC controllers (such as TouchOSC) and OBS Studio's
WebSocket interface, with its decision logic verified by Verus.

Layout:

- `src/` — the verified library:
  - `bridge.rs`: the command, response and status types; the short status
    word sent as `/bridgeStatus` and the long status description.
  - `config.rs`: the configuration, its defaults, and the resolution of the
    OSC listen host (`auto` → the detected local IP) and reply host
    (`broadcast` → the listen network's broadcast address).
  - `osc.rs`: datagram → commands (decoding with `rosc`, bundles walked in
    order, `/sceneList`, `/activeScene`, `/scene`), and responses →
    datagrams (encoding with `rosc`, the OSC 1.0 layout stated exactly);
    the addresses a response goes to; the mDNS advertisement (built with
    `mdns-sd`).
  - `obs.rs`: how commands are answered from the scene list, what OBS
    events cause, the scene-list poll that detects reordering, and which
    errors mean the OBS connection is lost, when a session is left, and
    the status after a connection ends (a rejected password is an error).
  - `tray.rs`: icon colour and tooltip for a status.
  - `supervisor.rs`: what a reload request or the end of a task leads to.
  - `text.rs`: string helpers with exact specifications.
  - `laws.rs`: properties that span several functions.
- `app/` — the program: configuration file, logging, the UDP socket and
  mDNS advertisement, the OBS WebSocket client, and the Windows tray.
- `tests/` — tests of the library on concrete values.
