//! Choosing the TCP port the backend is told to listen on.

use vstd::prelude::*;

verus! {

/// The port the backend binds to unless a different policy is configured.
pub const DEFAULT_PORT: u16 = 8000;

/// How the backend's port is chosen.
///
/// Only a fixed port is offered. The enum leaves room for a policy that asks
/// the host for a free port.
#[derive(Clone, Copy, Debug, PartialEq, Eq, Structural)]
pub enum PortPolicy {
    /// Always the given port, whether or not something else already holds it.
    Fixed(u16),
}

impl PortPolicy {
    /// The port this policy yields.
    pub open spec fn port(self) -> u16 {
        match self {
            PortPolicy::Fixed(p) => p,
        }
    }

    /// The policy in force when nothing else is configured.
    pub fn standard() -> (policy: PortPolicy)
        ensures
            policy == PortPolicy::Fixed(DEFAULT_PORT),
    {
        PortPolicy::Fixed(DEFAULT_PORT)
    }

    /// Decides the backend's port. The answer depends on the policy alone.
    pub fn allocate(&self) -> (port: u16)
        ensures
            port == self.port(),
    {
        match self {
            PortPolicy::Fixed(p) => *p,
        }
    }
}

/// The port for the backend under the standard policy.
pub fn find_available_port() -> (port: u16)
    ensures
        port == DEFAULT_PORT,
        port == 8000,
{
    PortPolicy::standard().allocate()
}

} // verus!
