//! Inbound mailbox for the two cross-boundary commands: "replace script"
//! and "reset". Last write wins; the simulation drains it once per tick.

use vstd::prelude::*;

verus! {

/// Holds at most one pending script text and one pending reset flag; newer
/// writes overwrite older unconsumed ones.
pub struct CommandQueue {
    /// Script source handed in by the external caller, not yet consumed.
    pub pending_script: Option<String>,
    /// Whether a reset was requested and not yet consumed.
    pub pending_reset: bool,
}

impl CommandQueue {
    /// An empty mailbox.
    pub fn new() -> (q: CommandQueue)
        ensures
            q.pending_script is None,
            !q.pending_reset,
    {
        CommandQueue { pending_script: None, pending_reset: false }
    }

    /// Enqueues new script source, overwriting any unconsumed pending one.
    pub fn set_agent_code(&mut self, code: &str)
        ensures
            final(self).pending_script matches Some(s) && s@ == code@,
            final(self).pending_reset == old(self).pending_reset,
    {
        self.pending_script = Some(code.to_owned());
    }

    /// Enqueues a reset command; idempotent.
    pub fn request_reset(&mut self)
        ensures
            final(self).pending_reset,
            final(self).pending_script == old(self).pending_script,
    {
        self.pending_reset = true;
    }

    /// Removes and returns the pending script text, if any.
    pub fn take_script(&mut self) -> (r: Option<String>)
        ensures
            r == old(self).pending_script,
            final(self).pending_script is None,
            final(self).pending_reset == old(self).pending_reset,
    {
        self.pending_script.take()
    }

    /// Consumes the reset flag, reporting whether a reset was pending.
    pub fn take_reset(&mut self) -> (r: bool)
        ensures
            r == old(self).pending_reset,
            !final(self).pending_reset,
            final(self).pending_script == old(self).pending_script,
    {
        let r = self.pending_reset;
        self.pending_reset = false;
        r
    }
}

} // verus!
