use vulkan_setup::error::SetupError;
use vulkan_setup::frame::{FenceState, FrameScheduler, FrameSubmit, MAX_FRAMES_IN_FLIGHT};
use vulkan_setup::pipeline::single_pipeline;
use vulkan_setup::shader::shader_words;
use vulkan_setup::teardown::{Resource, ResourceLedger, TeardownStep};

#[test]
fn new_scheduler_has_signaled_fences() {
    let s = FrameScheduler::new(3);
    assert_eq!(s.current_slot(), 0);
    assert_eq!(s.image_count(), 3);
    for k in 0..MAX_FRAMES_IN_FLIGHT {
        assert_eq!(s.fence_state(k), FenceState::Signaled);
    }
    for i in 0..3 {
        assert_eq!(s.image_in_flight(i), None);
    }
    assert!(!s.has_pending_work());
}

#[test]
fn slot_returns_to_zero_after_max_frames() {
    let mut s = FrameScheduler::new(3);
    for tick in 0..MAX_FRAMES_IN_FLIGHT {
        let slot = s.begin_frame();
        assert_eq!(slot, tick);
        assert_eq!(s.fence_state(slot), FenceState::Signaled);
        let submit = s.finish_frame(tick);
        assert_eq!(submit, FrameSubmit { slot: tick, image_index: tick, wait_fence: None });
        assert_eq!(s.fence_state(slot), FenceState::Pending);
    }
    assert_eq!(s.current_slot(), 0);
    assert_eq!(s.fence_state(0), FenceState::Pending);
    let slot = s.begin_frame();
    assert_eq!(slot, 0);
    assert_eq!(s.fence_state(0), FenceState::Signaled);
}

#[test]
fn image_claimed_by_other_slot_is_waited_on() {
    let mut s = FrameScheduler::new(2);
    s.begin_frame();
    s.finish_frame(1);
    assert_eq!(s.image_in_flight(1), Some(0));
    let slot = s.begin_frame();
    assert_eq!(slot, 1);
    let submit = s.finish_frame(1);
    assert_eq!(submit, FrameSubmit { slot: 1, image_index: 1, wait_fence: Some(0) });
    assert_eq!(s.image_in_flight(1), Some(1));
    assert_eq!(s.fence_state(0), FenceState::Signaled);
    assert_eq!(s.fence_state(1), FenceState::Pending);
}

#[test]
fn device_idle_clears_pending_work() {
    let mut s = FrameScheduler::new(2);
    s.begin_frame();
    s.finish_frame(0);
    assert!(s.has_pending_work());
    s.device_idle();
    assert!(!s.has_pending_work());
    assert_eq!(s.current_slot(), 1);
    assert_eq!(s.image_in_flight(0), Some(0));
}

#[test]
fn teardown_without_frames_waits_on_nothing() {
    let mut s = FrameScheduler::new(3);
    assert!(!s.has_pending_work());
    s.device_idle();
    assert!(!s.has_pending_work());
    assert_eq!(s.current_slot(), 0);
    assert_eq!(s.fence_state(0), FenceState::Signaled);
    assert_eq!(s.fence_state(1), FenceState::Signaled);
}

#[test]
fn teardown_reverses_creation_after_idle() {
    let mut ledger = ResourceLedger::new();
    ledger.record(Resource::Instance);
    ledger.record(Resource::DebugMessenger);
    ledger.record(Resource::Surface);
    ledger.record(Resource::Device);
    ledger.record(Resource::Swapchain);
    ledger.record(Resource::ImageViews);
    assert_eq!(ledger.len(), 6);
    assert_eq!(
        ledger.teardown(),
        vec![
            TeardownStep::WaitDeviceIdle,
            TeardownStep::Destroy(Resource::ImageViews),
            TeardownStep::Destroy(Resource::Swapchain),
            TeardownStep::Destroy(Resource::Device),
            TeardownStep::Destroy(Resource::Surface),
            TeardownStep::Destroy(Resource::DebugMessenger),
            TeardownStep::Destroy(Resource::Instance),
        ]
    );
}

#[test]
fn partial_setup_rolls_back_without_idle_wait() {
    let mut ledger = ResourceLedger::new();
    assert!(ledger.teardown().is_empty());
    ledger.record(Resource::Instance);
    ledger.record(Resource::Surface);
    assert!(!ledger.contains(Resource::Device));
    assert_eq!(
        ledger.teardown(),
        vec![
            TeardownStep::Destroy(Resource::Surface),
            TeardownStep::Destroy(Resource::Instance),
        ]
    );
}

#[test]
fn shader_words_little_endian() {
    let bytes = vec![0x03, 0x02, 0x23, 0x07, 0x01, 0x00, 0x00, 0x00, 0xff, 0xff, 0xff, 0xff];
    assert_eq!(shader_words(&bytes), Ok(vec![0x07230203, 1, u32::MAX]));
    assert_eq!(shader_words(&vec![]), Ok(vec![]));
}

#[test]
fn shader_words_reject_ragged_length() {
    assert_eq!(shader_words(&vec![1, 2, 3, 4, 5]), Err(SetupError::ShaderLoad));
    assert_eq!(shader_words(&vec![1, 2, 3]), Err(SetupError::ShaderLoad));
}

#[test]
fn exactly_one_pipeline_expected() {
    assert_eq!(single_pipeline(&vec![0xabc]), Ok(0xabc));
    assert_eq!(single_pipeline(&vec![]), Err(SetupError::PipelineCreation));
    assert_eq!(single_pipeline(&vec![1, 2]), Err(SetupError::PipelineCreation));
}
