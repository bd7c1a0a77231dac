//! When the templates are compiled: for every request, so that what is on
//! disk is what is rendered, or only when their sources have changed.

use vstd::prelude::*;

verus! {

/// When the templates are compiled.
#[derive(Clone, Copy, Debug, PartialEq, Eq, Structural)]
pub enum ReloadPolicy {
    /// For every request.
    EveryRequest,
    /// When the sources differ from those that were compiled last.
    WhenChanged,
}

impl ReloadPolicy {
    /// Tells whether compiled templates are kept from one request to the
    /// next, so that a fingerprint of their sources is needed.
    pub fn keeps_templates(&self) -> (keeps: bool)
        ensures
            keeps == (*self == ReloadPolicy::WhenChanged),
    {
        match self {
            ReloadPolicy::EveryRequest => false,
            ReloadPolicy::WhenChanged => true,
        }
    }
}

/// The templates are to be compiled. `compiled` is the fingerprint of the
/// sources that were compiled last, `None` where none were; `current` is the
/// fingerprint of the sources as they are.
pub open spec fn compiles(policy: ReloadPolicy, compiled: Option<u64>, current: u64) -> bool {
    policy == ReloadPolicy::EveryRequest || compiled != Some(current)
}

/// Decides whether the templates are to be compiled for a request, or the
/// templates that were compiled last serve it.
pub fn must_compile(policy: ReloadPolicy, compiled: Option<u64>, current: u64) -> (compile: bool)
    ensures
        compile == compiles(policy, compiled, current),
{
    match policy {
        ReloadPolicy::EveryRequest => true,
        ReloadPolicy::WhenChanged => match compiled {
            None => true,
            Some(fingerprint) => fingerprint != current,
        },
    }
}

/// Compiled templates are used again only under the policy that allows it,
/// and only for the sources that they were compiled from.
pub proof fn law_reuse(policy: ReloadPolicy, compiled: Option<u64>, current: u64)
    ensures
        !compiles(policy, compiled, current) <==> policy == ReloadPolicy::WhenChanged && compiled
            == Some(current),
{
}

} // verus!
