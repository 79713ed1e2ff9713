//! The handle guard: scoped ownership of one OS process handle.
//!
//! A handle is valid only until it is released, and releasing it twice is
//! a defect, not a recoverable error. The guard records the acquisition
//! and makes the single-release discipline a verified obligation: every
//! release requires the guard to still be open, so a scope that released
//! a guard twice — or used it after release — would not verify.

use vstd::prelude::*;

verus! {

/// Records one acquired process handle: the PID it grants access to, the
/// access mask it was opened with, and whether it has been released.
pub struct HandleGuard {
    pid: u32,
    access: u32,
    released: bool,
}

impl HandleGuard {
    /// The PID this guard's handle is bound to.
    pub closed spec fn spec_pid(self) -> u32 {
        self.pid
    }

    /// The access mask the handle was opened with.
    pub closed spec fn spec_access(self) -> u32 {
        self.access
    }

    /// The guard still owns its handle: it has not been released.
    pub closed spec fn is_open(self) -> bool {
        !self.released
    }

    /// Records the acquisition of a handle to `pid` with the given access
    /// mask. The fresh guard is open.
    pub fn acquire(pid: u32, access: u32) -> (g: HandleGuard)
        ensures
            g.is_open(),
            g.spec_pid() == pid,
            g.spec_access() == access,
    {
        HandleGuard { pid, access, released: false }
    }

    /// The PID this guard's handle is bound to.
    pub fn pid(&self) -> (p: u32)
        ensures
            p == self.spec_pid(),
    {
        self.pid
    }

    /// The access mask the handle was opened with.
    pub fn access(&self) -> (a: u32)
        ensures
            a == self.spec_access(),
    {
        self.access
    }

    /// Marks the handle released. A guard is released at most once: a
    /// second release fails verification rather than reaching the OS.
    pub fn release(&mut self)
        requires
            old(self).is_open(),
        ensures
            !final(self).is_open(),
            final(self).spec_pid() == old(self).spec_pid(),
            final(self).spec_access() == old(self).spec_access(),
    {
        self.released = true;
    }
}

} // verus!
