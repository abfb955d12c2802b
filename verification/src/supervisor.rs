//! Supervision of the OSC and OBS tasks: a reload request restarts them with
//! the reloaded configuration, and the end of either task stops the bridge.

use vstd::prelude::*;
use crate::config::Config;

verus! {

/// Milliseconds to wait after stopping the tasks before restarting them, so
/// that their sockets close.
pub const RESTART_SETTLE_MILLIS: u64 = 500;

/// What the supervisor is woken by.
#[derive(Debug)]
pub enum SupervisorEvent {
    /// "Reload Config" was chosen in the tray menu.
    ReloadRequested,
    /// The OSC task ended on its own.
    OscTaskEnded,
    /// The OBS task ended on its own.
    ObsTaskEnded,
}

/// What the supervisor does next.
#[derive(Debug)]
pub enum SupervisorStep {
    /// Stop both tasks, set the status back to `Starting`, and start them
    /// again with this configuration.
    Restart(Config),
    /// Stop the bridge: the runtime is marked as no longer running.
    Stop,
}

/// Decide what happens after an event, given the configuration in use and
/// the configuration read back from disk on a reload (`None` when reading
/// or parsing it failed, in which case the current settings are kept).
pub fn supervise(current: Config, ev: SupervisorEvent, reloaded: Option<Config>) -> (r:
    SupervisorStep)
    ensures
        ev is ReloadRequested && reloaded is Some ==> r == SupervisorStep::Restart(reloaded->0),
        ev is ReloadRequested && reloaded is None ==> r == SupervisorStep::Restart(current),
        !(ev is ReloadRequested) ==> r is Stop,
{
    match ev {
        SupervisorEvent::ReloadRequested => match reloaded {
            Some(c) => SupervisorStep::Restart(c),
            None => SupervisorStep::Restart(current),
        },
        SupervisorEvent::OscTaskEnded => SupervisorStep::Stop,
        SupervisorEvent::ObsTaskEnded => SupervisorStep::Stop,
    }
}

} // verus!
