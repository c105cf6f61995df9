use vstd::prelude::*;

verus! {

/// The one shared mutable value of the daemon: the firewall flag. There
/// is exactly one instance per running daemon; every concurrently served
/// connection reaches it behind one mutual-exclusion lock, so reads and
/// writes never interleave.
#[derive(Debug)]
pub struct DaemonState {
    pub firewall_active: bool,
}

/// What one toggle does to the state: only a command the external tool
/// reported successful moves the flag, and then exactly to the requested
/// value; a failed command leaves the prior value in place.
pub open spec fn spec_toggle(s: DaemonState, enable: bool, command_ok: bool) -> DaemonState {
    if command_ok {
        DaemonState { firewall_active: enable }
    } else {
        s
    }
}

impl DaemonState {
    /// The state the daemon starts with.
    pub fn new() -> (s: DaemonState)
        ensures
            s.firewall_active == true,
    {
        DaemonState { firewall_active: true }
    }

    /// Record the outcome of the external enable/disable command, never
    /// speculatively: the flag moves only on success.
    pub fn apply_toggle(&mut self, enable: bool, command_ok: bool)
        ensures
            *final(self) == spec_toggle(*old(self), enable, command_ok),
    {
        if command_ok {
            self.firewall_active = enable;
        }
    }

    /// Store the flag re-derived from the external tool's live output;
    /// the status query refreshes the shared value as a side effect.
    pub fn refresh(&mut self, active: bool)
        ensures
            final(self).firewall_active == active,
    {
        self.firewall_active = active;
    }
}

/// Two toggles serialized by the lock, in either order, leave the flag at
/// exactly the value the later one requested — always one of the two
/// requested states, never a torn or intermediate value.
pub proof fn lemma_toggles_serialize(s0: DaemonState, a: bool, b: bool)
    ensures
        spec_toggle(spec_toggle(s0, a, true), b, true).firewall_active == b,
        spec_toggle(spec_toggle(s0, b, true), a, true).firewall_active == a,
{
}

/// A failed toggle leaves the prior value in place, whatever was asked.
pub proof fn lemma_failed_toggle_keeps_state(s0: DaemonState, a: bool)
    ensures
        spec_toggle(s0, a, false) == s0,
{
}

} // verus!
