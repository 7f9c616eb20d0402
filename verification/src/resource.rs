//! Resource policy: given the VM's requested memory and the host's total
//! memory, choose between a direct hypervisor launch and a sandboxed launch
//! under a memory ceiling.

use vstd::prelude::*;

verus! {

/// Outcome of the resource policy, produced once per launch.
pub struct ResourceDecision {
    /// True: launch the hypervisor directly.  False: wrap it in a
    /// resource-scoping sandbox.
    pub direct: bool,
    /// The sandbox's enforced memory-high watermark, present exactly when the
    /// launch is sandboxed.
    pub memory_ceiling_mb: Option<u64>,
}

impl ResourceDecision {
    /// A ceiling is recorded if and only if the launch is sandboxed.
    pub open spec fn well_formed(self) -> bool {
        self.direct <==> self.memory_ceiling_mb is None
    }
}

/// The sandbox memory ceiling: half the host's memory, less 1024 MB.
pub open spec fn spec_memory_ceiling(total_host_mb: u64) -> int {
    total_host_mb as int / 2 - 1024
}

/// Decide between a direct and a sandboxed launch.  A request that fits under
/// the ceiling launches directly; anything larger is sandboxed with the
/// ceiling as its memory-high watermark.
pub fn decide(requested_mb: u64, total_host_mb: u64) -> (r: ResourceDecision)
    requires
        total_host_mb / 2 >= 1024,
    ensures
        r.well_formed(),
        r.direct <==> requested_mb <= spec_memory_ceiling(total_host_mb),
        !r.direct ==> r.memory_ceiling_mb == Some(spec_memory_ceiling(total_host_mb) as u64),
{
    let ceiling: u64 = total_host_mb / 2 - 1024;
    if requested_mb <= ceiling {
        ResourceDecision { direct: true, memory_ceiling_mb: None }
    } else {
        ResourceDecision { direct: false, memory_ceiling_mb: Some(ceiling) }
    }
}

} // verus!
