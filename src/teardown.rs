//! The ledger of created GPU objects and the order in which they are
//! destroyed: the exact reverse of creation, after the device has gone idle.
use vstd::prelude::*;

verus! {

#[derive(Clone, Copy, Debug, PartialEq, Eq, Structural)]
pub enum Resource {
    Instance,
    DebugMessenger,
    Surface,
    Device,
    Swapchain,
    ImageViews,
    RenderPass,
    PipelineLayout,
    Pipeline,
    Framebuffers,
    CommandPool,
    SyncObjects,
}

#[derive(Clone, Copy, Debug, PartialEq, Eq, Structural)]
pub enum TeardownStep {
    /// Block until all queued work on the device is complete.
    WaitDeviceIdle,
    Destroy(Resource),
}

/// The objects created so far, in creation order.
pub struct ResourceLedger {
    created: Vec<Resource>,
}

impl View for ResourceLedger {
    type V = Seq<Resource>;

    closed spec fn view(&self) -> Seq<Resource> {
        self.created@
    }
}

/// The destroy steps for `created`, last created first.
pub open spec fn reverse_destroys(created: Seq<Resource>) -> Seq<TeardownStep> {
    Seq::new(created.len(), |i: int| TeardownStep::Destroy(created[created.len() - 1 - i]))
}

/// Wait for the device to go idle when one exists, then destroy in reverse.
pub open spec fn teardown_steps(created: Seq<Resource>) -> Seq<TeardownStep> {
    if created.contains(Resource::Device) {
        seq![TeardownStep::WaitDeviceIdle] + reverse_destroys(created)
    } else {
        reverse_destroys(created)
    }
}

impl ResourceLedger {
    pub fn new() -> (r: Self)
        ensures
            r@ == Seq::<Resource>::empty(),
    {
        ResourceLedger { created: Vec::new() }
    }

    /// Notes that `resource` has just been created.
    pub fn record(&mut self, resource: Resource)
        ensures
            final(self)@ == old(self)@.push(resource),
    {
        self.created.push(resource);
    }

    pub fn len(&self) -> (r: usize)
        ensures
            r == self@.len(),
    {
        self.created.len()
    }

    pub fn contains(&self, resource: Resource) -> (r: bool)
        ensures
            r == self@.contains(resource),
    {
        let mut i: usize = 0;
        while i < self.created.len()
            invariant
                0 <= i <= self@.len(),
                forall|j: int| 0 <= j < i ==> self@[j] != resource,
            decreases self@.len() - i,
        {
            if self.created[i] == resource {
                assert(self@[i as int] == resource);
                return true;
            }
            i = i + 1;
        }
        false
    }

    /// The single teardown sequence, used both at shutdown and to roll back a
    /// setup that failed part way.
    pub fn teardown(&self) -> (r: Vec<TeardownStep>)
        ensures
            r@ == teardown_steps(self@),
    {
        let mut steps: Vec<TeardownStep> = Vec::new();
        let has_device = self.contains(Resource::Device);
        if has_device {
            steps.push(TeardownStep::WaitDeviceIdle);
        }
        let ghost head = steps@;
        let n = self.created.len();
        let mut i: usize = 0;
        while i < n
            invariant
                n == self@.len(),
                0 <= i <= n,
                steps@ =~= head + reverse_destroys(self@).take(i as int),
            decreases n - i,
        {
            steps.push(TeardownStep::Destroy(self.created[n - 1 - i]));
            i = i + 1;
        }
        proof {
            assert(reverse_destroys(self@).take(n as int) =~= reverse_destroys(self@));
            if has_device {
                assert(head =~= seq![TeardownStep::WaitDeviceIdle]);
            } else {
                assert(head =~= Seq::<TeardownStep>::empty());
            }
        }
        steps
    }
}

/// Teardown is the exact reverse of creation, preceded by a wait for the
/// device to go idle whenever a device was created, so that no object the
/// device may still use is destroyed while work is queued.
pub proof fn lemma_teardown_reverses_creation(created: Seq<Resource>)
    ensures
        ({
            let steps = teardown_steps(created);
            let off: int = if created.contains(Resource::Device) { 1 } else { 0 };
            &&& steps.len() == created.len() + off
            &&& created.contains(Resource::Device) ==> steps[0] == TeardownStep::WaitDeviceIdle
            &&& forall|i: int|
                0 <= i < created.len() ==> #[trigger] steps[i + off] == TeardownStep::Destroy(
                    created[created.len() - 1 - i],
                )
        }),
{
    let steps = teardown_steps(created);
    let off: int = if created.contains(Resource::Device) { 1 } else { 0 };
    assert forall|i: int| 0 <= i < created.len() implies #[trigger] steps[i + off]
        == TeardownStep::Destroy(created[created.len() - 1 - i]) by {
        assert(steps[i + off] == reverse_destroys(created)[i]);
    }
}

} // verus!
