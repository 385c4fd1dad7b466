//! The frames-in-flight protocol. The scheduler decides, for each frame, which
//! fence to wait on, which image fence must also be waited on, and which slot's
//! semaphores, fence and command buffer to submit with; the embedding program
//! performs those waits and submissions and reports the acquired image.
use vstd::prelude::*;

verus! {

/// How many frames may have GPU work outstanding at once.
pub const MAX_FRAMES_IN_FLIGHT: usize = 2;

/// What the host knows about a fence.
#[derive(Clone, Copy, Debug, PartialEq, Eq, Structural)]
pub enum FenceState {
    /// Created signaled, or observed signaled by a wait.
    Signaled,
    /// Reset, not yet attached to a submission.
    Unsignaled,
    /// Attached to a submission that the host has not waited for.
    Pending,
}

/// The abstract state of the scheduler.
pub struct SchedulerState {
    /// The frame slot in use, below `MAX_FRAMES_IN_FLIGHT`.
    pub slot: usize,
    /// The slot's fence has been waited on and an image is being acquired.
    pub acquiring: bool,
    /// One fence per slot.
    pub fences: Seq<FenceState>,
    /// For each swapchain image, the slot whose fence last claimed it.
    pub images_in_flight: Seq<Option<usize>>,
}

/// The work of one frame, to be carried out in this order: wait on
/// `wait_fence` if there is one, reset the fence of `slot`, submit the command
/// buffer of `image_index` (waiting on the slot's image-available semaphore,
/// signaling its render-finished semaphore and its fence), then present
/// `image_index` after the render-finished semaphore.
#[derive(Clone, Copy, Debug, PartialEq, Eq)]
pub struct FrameSubmit {
    pub slot: usize,
    pub image_index: usize,
    pub wait_fence: Option<usize>,
}

pub struct FrameScheduler {
    slot: usize,
    acquiring: bool,
    fences: Vec<FenceState>,
    images_in_flight: Vec<Option<usize>>,
}

impl SchedulerState {
    pub open spec fn wf(&self) -> bool {
        &&& self.slot < MAX_FRAMES_IN_FLIGHT
        &&& self.fences.len() == MAX_FRAMES_IN_FLIGHT
        &&& forall|i: int|
            0 <= i < self.images_in_flight.len() ==> match #[trigger] self.images_in_flight[i] {
                Some(k) => k < MAX_FRAMES_IN_FLIGHT,
                None => true,
            }
        &&& self.acquiring ==> self.fences[self.slot as int] == FenceState::Signaled
    }

    /// No fence is attached to work that the host has not waited for.
    pub open spec fn no_pending(&self) -> bool {
        forall|k: int| 0 <= k < self.fences.len() ==> #[trigger] self.fences[k] != FenceState::Pending
    }
}

/// Every fence created signaled, no image claimed, slot 0.
pub open spec fn initial_state(image_count: nat) -> SchedulerState {
    SchedulerState {
        slot: 0,
        acquiring: false,
        fences: Seq::new(MAX_FRAMES_IN_FLIGHT as nat, |k: int| FenceState::Signaled),
        images_in_flight: Seq::new(image_count, |i: int| None),
    }
}

/// The host has waited on the slot's fence and goes on to acquire an image.
pub open spec fn begin_spec(s: SchedulerState) -> SchedulerState {
    SchedulerState {
        acquiring: true,
        fences: s.fences.update(s.slot as int, FenceState::Signaled),
        ..s
    }
}

/// Image `image` was acquired: wait on the fence that claimed it, claim it for
/// this slot, reset and resubmit the slot's fence, move to the next slot.
pub open spec fn finish_spec(s: SchedulerState, image: int) -> SchedulerState {
    let waited = match s.images_in_flight[image] {
        Some(j) => s.fences.update(j as int, FenceState::Signaled),
        None => s.fences,
    };
    SchedulerState {
        slot: ((s.slot + 1) % (MAX_FRAMES_IN_FLIGHT as int)) as usize,
        acquiring: false,
        fences: waited.update(s.slot as int, FenceState::Pending),
        images_in_flight: s.images_in_flight.update(image, Some(s.slot)),
    }
}

pub open spec fn tick_spec(s: SchedulerState, image: int) -> SchedulerState {
    finish_spec(begin_spec(s), image)
}

/// The state after one frame for each acquired image in `images`.
pub open spec fn run_ticks(s: SchedulerState, images: Seq<int>) -> SchedulerState
    decreases images.len(),
{
    if images.len() == 0 {
        s
    } else {
        tick_spec(run_ticks(s, images.drop_last()), images.last())
    }
}

/// The device has gone idle: every submitted fence has signaled.
pub open spec fn idle_spec(s: SchedulerState) -> SchedulerState {
    SchedulerState {
        fences: Seq::new(MAX_FRAMES_IN_FLIGHT as nat, |k: int| FenceState::Signaled),
        ..s
    }
}

impl View for FrameScheduler {
    type V = SchedulerState;

    closed spec fn view(&self) -> SchedulerState {
        SchedulerState {
            slot: self.slot,
            acquiring: self.acquiring,
            fences: self.fences@,
            images_in_flight: self.images_in_flight@,
        }
    }
}

impl FrameScheduler {
    /// A scheduler for a swapchain of `image_count` images, with its fences
    /// created signaled so that the first wait on each returns at once.
    pub fn new(image_count: usize) -> (r: Self)
        ensures
            r@ == initial_state(image_count as nat),
            r@.wf(),
    {
        let mut fences: Vec<FenceState> = Vec::new();
        let mut k: usize = 0;
        while k < MAX_FRAMES_IN_FLIGHT
            invariant
                0 <= k <= MAX_FRAMES_IN_FLIGHT,
                fences@ =~= Seq::new(k as nat, |j: int| FenceState::Signaled),
            decreases MAX_FRAMES_IN_FLIGHT - k,
        {
            fences.push(FenceState::Signaled);
            k = k + 1;
        }
        let mut images_in_flight: Vec<Option<usize>> = Vec::new();
        let mut i: usize = 0;
        while i < image_count
            invariant
                0 <= i <= image_count,
                images_in_flight@ =~= Seq::new(i as nat, |j: int| None),
            decreases image_count - i,
        {
            images_in_flight.push(None);
            i = i + 1;
        }
        let r = FrameScheduler { slot: 0, acquiring: false, fences, images_in_flight };
        assert(r@ =~= initial_state(image_count as nat));
        r
    }

    pub fn current_slot(&self) -> (r: usize)
        ensures
            r == self@.slot,
    {
        self.slot
    }

    pub fn image_count(&self) -> (r: usize)
        ensures
            r == self@.images_in_flight.len(),
    {
        self.images_in_flight.len()
    }

    pub fn fence_state(&self, slot: usize) -> (r: FenceState)
        requires
            slot < self@.fences.len(),
        ensures
            r == self@.fences[slot as int],
    {
        self.fences[slot]
    }

    pub fn image_in_flight(&self, image_index: usize) -> (r: Option<usize>)
        requires
            image_index < self@.images_in_flight.len(),
        ensures
            r == self@.images_in_flight[image_index as int],
    {
        self.images_in_flight[image_index]
    }

    /// Whether some fence is attached to work that the host has not waited for.
    pub fn has_pending_work(&self) -> (r: bool)
        ensures
            r == !self@.no_pending(),
    {
        let mut k: usize = 0;
        while k < self.fences.len()
            invariant
                0 <= k <= self@.fences.len(),
                forall|j: int| 0 <= j < k ==> self@.fences[j] != FenceState::Pending,
            decreases self@.fences.len() - k,
        {
            if self.fences[k] == FenceState::Pending {
                return true;
            }
            k = k + 1;
        }
        false
    }

    /// Starts a frame. Returns the slot whose fence the host must wait on
    /// (without timeout) before acquiring an image with the slot's
    /// image-available semaphore.
    pub fn begin_frame(&mut self) -> (r: usize)
        requires
            old(self)@.wf(),
            !old(self)@.acquiring,
        ensures
            r == old(self)@.slot,
            final(self)@ == begin_spec(old(self)@),
            final(self)@.wf(),
    {
        let k = self.slot;
        self.fences.set(k, FenceState::Signaled);
        self.acquiring = true;
        assert(self@ =~= begin_spec(old(self)@));
        k
    }

    fn reset_fence(&mut self, k: usize)
        requires
            k < old(self).fences@.len(),
            old(self).fences@[k as int] == FenceState::Signaled,
        ensures
            final(self).fences@ == old(self).fences@.update(k as int, FenceState::Unsignaled),
            final(self).slot == old(self).slot,
            final(self).acquiring == old(self).acquiring,
            final(self).images_in_flight@ == old(self).images_in_flight@,
    {
        self.fences.set(k, FenceState::Unsignaled);
    }

    fn attach_submission(&mut self, k: usize)
        requires
            k < old(self).fences@.len(),
            old(self).fences@[k as int] == FenceState::Unsignaled,
        ensures
            final(self).fences@ == old(self).fences@.update(k as int, FenceState::Pending),
            final(self).slot == old(self).slot,
            final(self).acquiring == old(self).acquiring,
            final(self).images_in_flight@ == old(self).images_in_flight@,
    {
        self.fences.set(k, FenceState::Pending);
    }

    /// Finishes the frame begun last, now that `image_index` was acquired.
    pub fn finish_frame(&mut self, image_index: usize) -> (r: FrameSubmit)
        requires
            old(self)@.wf(),
            old(self)@.acquiring,
            image_index < old(self)@.images_in_flight.len(),
        ensures
            r == (FrameSubmit {
                slot: old(self)@.slot,
                image_index,
                wait_fence: old(self)@.images_in_flight[image_index as int],
            }),
            final(self)@ == finish_spec(old(self)@, image_index as int),
            final(self)@.wf(),
    {
        let k = self.slot;
        let wait_fence = self.images_in_flight[image_index];
        if let Some(j) = wait_fence {
            self.fences.set(j, FenceState::Signaled);
        }
        self.images_in_flight.set(image_index, Some(k));
        self.reset_fence(k);
        self.attach_submission(k);
        self.slot = (k + 1) % MAX_FRAMES_IN_FLIGHT;
        self.acquiring = false;
        proof {
            let s = finish_spec(old(self)@, image_index as int);
            assert(self@.fences =~= s.fences);
            assert(self@.images_in_flight =~= s.images_in_flight);
        }
        FrameSubmit { slot: k, image_index, wait_fence }
    }

    /// Records that the device has gone idle: every fence has signaled.
    pub fn device_idle(&mut self)
        requires
            old(self)@.wf(),
        ensures
            final(self)@ == idle_spec(old(self)@),
            final(self)@.wf(),
            final(self)@.no_pending(),
    {
        let mut k: usize = 0;
        while k < self.fences.len()
            invariant
                0 <= k <= self@.fences.len(),
                self@.fences.len() == MAX_FRAMES_IN_FLIGHT,
                self.slot == old(self).slot,
                self.acquiring == old(self).acquiring,
                self.images_in_flight@ == old(self).images_in_flight@,
                forall|j: int| 0 <= j < k ==> self@.fences[j] == FenceState::Signaled,
            decreases self@.fences.len() - k,
        {
            self.fences.set(k, FenceState::Signaled);
            k = k + 1;
        }
        assert(self@.fences =~= idle_spec(old(self)@).fences);
        assert(self@ =~= idle_spec(old(self)@));
    }
}

pub open spec fn images_in_range(s: SchedulerState, images: Seq<int>) -> bool {
    forall|i: int| 0 <= i < images.len() ==> 0 <= #[trigger] images[i] < s.images_in_flight.len()
}

/// One frame keeps the state well formed and moves to the next slot.
pub proof fn lemma_tick(s: SchedulerState, image: int)
    requires
        s.wf(),
        !s.acquiring,
        0 <= image < s.images_in_flight.len(),
    ensures
        tick_spec(s, image).wf(),
        !tick_spec(s, image).acquiring,
        tick_spec(s, image).slot == (s.slot + 1) % (MAX_FRAMES_IN_FLIGHT as int),
        tick_spec(s, image).images_in_flight.len() == s.images_in_flight.len(),
        begin_spec(s).fences[s.slot as int] == FenceState::Signaled,
{
    let b = begin_spec(s);
    let t = tick_spec(s, image);
    assert forall|i: int| 0 <= i < t.images_in_flight.len() implies match #[trigger] t.images_in_flight[i] {
        Some(k) => k < MAX_FRAMES_IN_FLIGHT,
        None => true,
    } by {
        if i != image {
            assert(t.images_in_flight[i] == b.images_in_flight[i]);
        }
    }
}

/// Every frame moves to the next slot, so after `n` frames the slot has
/// advanced by `n` modulo the number of frames in flight.
pub proof fn lemma_run_ticks(s: SchedulerState, images: Seq<int>)
    requires
        s.wf(),
        !s.acquiring,
        images_in_range(s, images),
    ensures
        run_ticks(s, images).wf(),
        !run_ticks(s, images).acquiring,
        run_ticks(s, images).slot == (s.slot + images.len()) % (MAX_FRAMES_IN_FLIGHT as int),
        run_ticks(s, images).images_in_flight.len() == s.images_in_flight.len(),
    decreases images.len(),
{
    if images.len() > 0 {
        let rest = images.drop_last();
        assert(images_in_range(s, rest)) by {
            assert forall|i: int| 0 <= i < rest.len() implies 0 <= #[trigger] rest[i]
                < s.images_in_flight.len() by {
                assert(rest[i] == images[i]);
            }
        }
        lemma_run_ticks(s, rest);
        let before = run_ticks(s, rest);
        assert(0 <= images.last() < s.images_in_flight.len()) by {
            assert(images.last() == images[images.len() - 1]);
        }
        lemma_tick(before, images.last());
    }
}

/// After exactly `MAX_FRAMES_IN_FLIGHT` frames from slot 0 the scheduler is
/// back at slot 0, and the next frame waits on slot 0's fence (it is signaled
/// before the reset that precedes its next submission).
pub proof fn lemma_slots_cycle(s: SchedulerState, images: Seq<int>)
    requires
        s.wf(),
        !s.acquiring,
        s.slot == 0,
        images.len() == MAX_FRAMES_IN_FLIGHT,
        images_in_range(s, images),
    ensures
        run_ticks(s, images).slot == 0,
        begin_spec(run_ticks(s, images)).fences[0] == FenceState::Signaled,
        begin_spec(run_ticks(s, images)).wf(),
{
    lemma_run_ticks(s, images);
}

/// With no frame run, every fence is still in its created, signaled state:
/// the device-idle wait that starts teardown has nothing to wait for and
/// changes nothing.
pub proof fn lemma_teardown_without_frames(image_count: nat)
    ensures
        initial_state(image_count).wf(),
        initial_state(image_count).no_pending(),
        idle_spec(initial_state(image_count)) == initial_state(image_count),
{
    let s = initial_state(image_count);
    assert(idle_spec(s).fences =~= s.fences);
    assert(idle_spec(s) =~= s);
}

} // verus!
