use vstd::prelude::*;

verus! {

/// Access to the host's service manager; remembers whether privileged
/// commands can run without a password prompt.
pub struct SystemManager {
    has_sudo: bool,
}

impl SystemManager {
    /// Whether privileged commands can run.
    pub closed spec fn can_sudo(&self) -> bool {
        self.has_sudo
    }

    /// A manager; `has_sudo` is the outcome of a non-interactive sudo probe.
    pub fn new(has_sudo: bool) -> (r: SystemManager)
        ensures
            r.can_sudo() == has_sudo,
    {
        SystemManager { has_sudo }
    }

    /// Whether privileged commands can run.
    pub fn has_sudo_privileges(&self) -> (r: bool)
        ensures
            r == self.can_sudo(),
    {
        self.has_sudo
    }
}

} // verus!
