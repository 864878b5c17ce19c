use vki::device::{
    select_queue_family_index, CommandPoolAndBuffer, DeviceState, FenceStatus, QueueFamilyProperties,
};
use vki::fence::Fence;
use vki::fenced_deleter::Resource;
use vki::resources::{Adapter, DeviceDescriptor, Surface};
use vki::serial::Serial;
use vki::types::Extensions;
use vki::vk;

/// Submits the pending commands the way a queue does: the pool recorded into,
/// a fence (a reusable one if there is one), the next serial.
fn submit(state: &mut DeviceState, new_fence: u64) -> Option<(u64, Serial)> {
    let commands = state.take_pending_commands()?;
    let fence = state.take_unused_fence().unwrap_or(new_fence);
    let serial = state.increment_submitted_serial();
    state.submitted(commands, fence, serial);
    Some((fence, serial))
}

fn record_something(state: &mut DeviceState, pool: u64) {
    if state.pending_command_buffer().is_none() {
        let commands = state
            .take_unused_commands()
            .unwrap_or(CommandPoolAndBuffer { pool, command_buffer: pool + 1000 });
        state.set_pending_commands(commands);
    }
}

/// Lets the queue finish everything submitted so far.
fn complete_all(state: &mut DeviceState) -> Vec<u64> {
    let statuses = vec![FenceStatus::Signaled; state.fences_in_flight().len()];
    let (recycled, failure) = state.check_passed_fences(&statuses);
    assert_eq!(failure, None);
    recycled
}

#[test]
fn new_state_has_completed_nothing() {
    let state = DeviceState::new();
    assert_eq!(state.get_last_completed_serial(), Serial(0));
    assert_eq!(state.get_last_submitted_serial(), Serial(1));
    assert_eq!(state.get_next_pending_serial(), Serial(2));
    assert!(state.get_wait_semaphores().is_empty());
}

#[test]
fn is_not_signaled() {
    let state = DeviceState::new();
    let fence = Fence::new(&state);
    assert_eq!(false, fence.is_signaled(&state));
}

#[test]
fn is_signaled_after_wait() {
    let mut state = DeviceState::new();
    let fence1 = Fence::new(&state);
    assert_eq!(false, fence1.is_signaled(&state));

    record_something(&mut state, 100);
    submit(&mut state, 200).unwrap();

    let fence2 = Fence::new(&state);

    complete_all(&mut state);
    assert_eq!(true, fence1.is_signaled(&state));
    // the second fence waits for a submission that has not been made yet
    assert_eq!(false, fence2.is_signaled(&state));

    record_something(&mut state, 101);
    submit(&mut state, 201).unwrap();
    complete_all(&mut state);
    assert_eq!(true, fence2.is_signaled(&state));
}

#[test]
fn is_not_signaled_after_reset() {
    let mut state = DeviceState::new();
    record_something(&mut state, 100);
    submit(&mut state, 200).unwrap();

    let mut fence = Fence::new(&state);
    assert_eq!(false, fence.is_signaled(&state), "fence should not be siganled after create");

    record_something(&mut state, 101);
    submit(&mut state, 201).unwrap();
    complete_all(&mut state);
    assert_eq!(true, fence.is_signaled(&state), "fence should be signaled after wait");

    fence.reset(&state).unwrap();
    assert_eq!(false, fence.is_signaled(&state), "fence should not be signaled after reset");

    record_something(&mut state, 102);
    submit(&mut state, 202).unwrap();
    complete_all(&mut state);
    assert_eq!(true, fence.is_signaled(&state), "fence should be signaled after wait");
}

#[test]
fn timeout() {
    let mut state = DeviceState::new();
    let fence = Fence::new(&state);
    assert_eq!(false, fence.is_signaled(&state));
    // nothing pending: submitting does nothing
    assert!(submit(&mut state, 200).is_none());
    let (recycled, failure) = state.check_passed_fences(&[]);
    assert!(recycled.is_empty() && failure.is_none());
    assert_eq!(false, fence.is_signaled(&state));
}

#[test]
fn fences_and_pools_are_recycled_in_order() {
    let mut state = DeviceState::new();
    record_something(&mut state, 100);
    submit(&mut state, 200).unwrap();
    record_something(&mut state, 101);
    submit(&mut state, 201).unwrap();
    record_something(&mut state, 102);
    submit(&mut state, 202).unwrap();

    // the first two completed, the third failed to report
    let statuses = [FenceStatus::Signaled, FenceStatus::Signaled, FenceStatus::Failed(-4)];
    let (recycled, failure) = state.check_passed_fences(&statuses);
    assert_eq!(recycled, vec![200, 201]);
    assert_eq!(failure, Some(-4));
    assert_eq!(state.get_last_completed_serial(), Serial(3));

    let pools = state.recycle_completed_commands();
    assert_eq!(pools.iter().map(|p| p.pool).collect::<Vec<_>>(), vec![100, 101]);

    // a NOT_READY failure only means the fence is not signaled yet
    let (recycled, failure) = state.check_passed_fences(&[FenceStatus::Failed(vk::RESULT_NOT_READY)]);
    assert!(recycled.is_empty() && failure.is_none());

    // the reusable fence and pool are taken before new ones
    assert_eq!(state.take_unused_fence(), Some(201));
    assert_eq!(state.take_unused_commands().map(|c| c.pool), Some(101));
}

#[test]
fn wait_semaphores_are_destroyed_after_the_next_submission() {
    let mut state = DeviceState::new();
    state.add_wait_semaphore(7);
    state.add_wait_semaphore(8);
    record_something(&mut state, 100);
    let (_, serial) = submit(&mut state, 200).unwrap();
    assert_eq!(serial, Serial(2));
    assert!(state.get_wait_semaphores().is_empty());

    // nothing is released before the submission after the one that waited completes
    complete_all(&mut state);
    assert!(state.tick_fenced_deleter().is_empty());
    record_something(&mut state, 101);
    submit(&mut state, 201).unwrap();
    complete_all(&mut state);
    assert_eq!(state.tick_fenced_deleter(), vec![Resource::Semaphore(7), Resource::Semaphore(8)]);
}

#[test]
fn teardown_releases_everything() {
    let mut state = DeviceState::new();
    state.delete_when_unused(Resource::Buffer { buffer: 1, allocation: 2 });
    state.delete_when_unused(Resource::Sampler(3));
    state.add_wait_semaphore(9);
    record_something(&mut state, 100);
    submit(&mut state, 200).unwrap();
    record_something(&mut state, 101);
    complete_all(&mut state);
    let teardown = state.teardown();
    assert_eq!(teardown.resources, vec![Resource::Semaphore(9), Resource::Buffer { buffer: 1, allocation: 2 }, Resource::Sampler(3)]);
    assert_eq!(teardown.fences, vec![200]);
    assert_eq!(teardown.command_pools, vec![100, 101]);
    assert!(teardown.semaphores.is_empty());
}

fn family(queue_flags: u32, queue_count: u32) -> QueueFamilyProperties {
    QueueFamilyProperties { queue_flags, queue_count }
}

#[test]
fn queue_family_is_the_first_that_fits() {
    let all = vk::QUEUE_GRAPHICS | vk::QUEUE_COMPUTE | vk::QUEUE_TRANSFER;
    let families = [family(vk::QUEUE_TRANSFER, 1), family(all, 0), family(all, 2), family(all, 1)];
    assert_eq!(select_queue_family_index(&families, all, None).unwrap(), 2);
    let support = [Ok(true), Ok(true), Ok(false), Ok(true)];
    assert_eq!(select_queue_family_index(&families, all, Some(&support)).unwrap(), 3);
    let failing = [Ok(true), Err(-3), Ok(true), Ok(true)];
    assert_eq!(select_queue_family_index(&families, all, Some(&failing)).unwrap_err().to_code(), -3);
    let none = [Ok(false), Ok(false), Ok(false), Ok(false)];
    assert_eq!(
        select_queue_family_index(&families, all, Some(&none)).unwrap_err().to_code(),
        vk::RESULT_ERROR_INCOMPATIBLE_DISPLAY_KHR
    );
}

#[test]
fn create_device_enables_swapchain_for_surfaces() {
    let all = vk::QUEUE_GRAPHICS | vk::QUEUE_COMPUTE | vk::QUEUE_TRANSFER;
    let families = [family(all, 1)];
    let adapter = Adapter {
        physical_device: 5,
        name: String::from("gpu"),
        extensions: Extensions { anisotropic_filtering: false },
        device_type: vk::PHYSICAL_DEVICE_TYPE_DISCRETE_GPU,
    };
    let with_surface = DeviceDescriptor {
        extensions: Extensions { anisotropic_filtering: false },
        surface_support: Some(Surface { handle: 3 }),
    };
    let headless = DeviceDescriptor { extensions: Extensions { anisotropic_filtering: false }, surface_support: None };
    let plan = adapter.create_device(&with_surface, &families, Some(&[Ok(true)]), 1).unwrap();
    assert!(plan.enable_swapchain && plan.fill_mode_non_solid);
    assert_eq!(plan.queue_family_index, 0);
    let plan = adapter.create_device(&headless, &families, None, 0).unwrap();
    assert!(!plan.enable_swapchain && !plan.fill_mode_non_solid);
}
