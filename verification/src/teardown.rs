//! Reverse-order resource teardown.
//!
//! Setup acquires its resources one after another — instance, surface, debug
//! callback, logical device, swapchain, image views — and at shutdown every
//! acquired resource is released in strict reverse order of acquisition. The
//! stack here records acquisitions and yields that release order.

use vstd::prelude::*;

verus! {

/// The kinds of resource the walkthrough acquires and must release. The
/// swapchain's image views are released as one batch, so they count as one
/// entry here.
#[derive(Clone, Copy, PartialEq, Eq, Structural, Debug)]
pub enum ResourceKind {
    Instance,
    Surface,
    DebugCallback,
    Device,
    Swapchain,
    ImageViews,
}

/// Records resources in the order they were acquired and hands back the order
/// in which to release them: the exact reverse.
#[derive(Clone, Debug)]
pub struct TeardownStack {
    log: Vec<ResourceKind>,
}

impl TeardownStack {
    /// The resources acquired so far, oldest first.
    pub closed spec fn acquired(self) -> Seq<ResourceKind> {
        self.log@
    }

    /// An empty record: nothing acquired yet.
    pub fn new() -> (s: TeardownStack)
        ensures
            s.acquired() == Seq::<ResourceKind>::empty(),
    {
        TeardownStack { log: Vec::new() }
    }

    /// How many resources have been acquired.
    pub fn len(&self) -> (n: usize)
        ensures
            n == self.acquired().len(),
    {
        self.log.len()
    }

    /// Record that `resource` was acquired, after everything recorded so far.
    pub fn acquire(&mut self, resource: ResourceKind)
        ensures
            final(self).acquired() == old(self).acquired().push(resource),
    {
        self.log.push(resource);
    }

    /// The order in which to release what was acquired: the strict reverse of
    /// the acquisition order.
    pub fn release_order(&self) -> (r: Vec<ResourceKind>)
        ensures
            r@ == self.acquired().reverse(),
    {
        let ghost log = self.log@;
        let mut order: Vec<ResourceKind> = Vec::new();
        let mut remaining: usize = self.log.len();
        while remaining > 0
            invariant
                log == self.log@,
                0 <= remaining <= log.len(),
                order@.len() == log.len() - remaining,
                forall|j: int| 0 <= j < order@.len() ==> order@[j] == log[log.len() - 1 - j],
            decreases remaining,
        {
            remaining = remaining - 1;
            order.push(self.log[remaining]);
        }
        proof {
            assert(order@ =~= log.reverse());
        }
        order
    }
}

/// The teardown law: the release order a teardown stack yields holds every
/// acquired resource exactly once, the resource acquired at position `k`
/// stands at position `len - 1 - k` of the release order — so a resource
/// acquired later is released strictly earlier — and the last resource
/// acquired is the first released.
pub proof fn lemma_release_reverses_acquisition(acquired: Seq<ResourceKind>, released: Seq<ResourceKind>)
    requires
        released == acquired.reverse(),
    ensures
        released.len() == acquired.len(),
        forall|k: int| 0 <= k < acquired.len() ==> released[acquired.len() - 1 - k] == acquired[k],
        acquired.len() > 0 ==> released[0] == acquired.last() && released.last() == acquired[0],
{
}

} // verus!
