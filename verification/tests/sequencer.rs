//! The FIFO acquire/release sequencer.
use compat_layer::records::{Runtime, SessionGraphics, SwapchainGraphics};
use compat_layer::registry::LayerContext;
use compat_layer::LayerError;

fn context_with_swapchain() -> LayerContext {
    let mut ctx = LayerContext::new();
    ctx.register_instance(1, true, Runtime::Monado);
    ctx.register_session(1, 2, SessionGraphics::Direct).unwrap();
    ctx.register_swapchain(2, 3, 256, 256, 1, SwapchainGraphics::Direct)
        .unwrap();
    ctx
}

#[test]
fn releases_come_back_in_acquire_order() {
    let mut ctx = context_with_swapchain();
    for index in [4u32, 1, 2] {
        ctx.record_acquire(3, index).unwrap();
    }
    assert_eq!(ctx.front_to_release(3), Ok(4));
    assert_eq!(ctx.commit_release(3), Ok(4));
    assert_eq!(ctx.front_to_release(3), Ok(1));
    assert_eq!(ctx.commit_release(3), Ok(1));
    assert_eq!(ctx.commit_release(3), Ok(2));
}

#[test]
fn release_with_nothing_outstanding_is_rejected() {
    let mut ctx = context_with_swapchain();
    assert_eq!(ctx.front_to_release(3), Err(LayerError::CallOrderInvalid));
    assert_eq!(ctx.commit_release(3), Err(LayerError::CallOrderInvalid));
    ctx.record_acquire(3, 0).unwrap();
    assert_eq!(ctx.commit_release(3), Ok(0));
    assert_eq!(ctx.commit_release(3), Err(LayerError::CallOrderInvalid));
}

#[test]
fn peeking_the_front_does_not_pop() {
    let mut ctx = context_with_swapchain();
    ctx.record_acquire(3, 7).unwrap();
    assert_eq!(ctx.front_to_release(3), Ok(7));
    assert_eq!(ctx.front_to_release(3), Ok(7));
    assert_eq!(ctx.commit_release(3), Ok(7));
}

#[test]
fn interleaved_acquires_and_releases_stay_fifo() {
    let mut ctx = context_with_swapchain();
    ctx.record_acquire(3, 0).unwrap();
    ctx.record_acquire(3, 1).unwrap();
    assert_eq!(ctx.commit_release(3), Ok(0));
    ctx.record_acquire(3, 2).unwrap();
    assert_eq!(ctx.commit_release(3), Ok(1));
    assert_eq!(ctx.commit_release(3), Ok(2));
    assert_eq!(ctx.commit_release(3), Err(LayerError::CallOrderInvalid));
}

#[test]
fn sequencer_rejects_unknown_swapchains() {
    let mut ctx = context_with_swapchain();
    assert_eq!(ctx.record_acquire(99, 0), Err(LayerError::HandleInvalid));
    assert_eq!(ctx.front_to_release(99), Err(LayerError::HandleInvalid));
    assert_eq!(ctx.commit_release(99), Err(LayerError::HandleInvalid));
}

#[test]
fn queues_are_independent_per_swapchain() {
    let mut ctx = context_with_swapchain();
    ctx.register_swapchain(2, 4, 256, 256, 1, SwapchainGraphics::Direct)
        .unwrap();
    ctx.record_acquire(3, 5).unwrap();
    ctx.record_acquire(4, 6).unwrap();
    assert_eq!(ctx.commit_release(4), Ok(6));
    assert_eq!(ctx.commit_release(3), Ok(5));
}
