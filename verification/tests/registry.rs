//! The handle wrapper registry and the poison boundary.
use compat_layer::records::{Runtime, SessionGraphics, SwapchainGraphics};
use compat_layer::registry::LayerContext;
use compat_layer::LayerError;
use compat_layer::ToResult;

fn context_with_tree() -> LayerContext {
    let mut ctx = LayerContext::new();
    ctx.register_instance(1, true, Runtime::Monado);
    ctx.register_session(1, 2, SessionGraphics::Direct).unwrap();
    ctx.register_swapchain(2, 3, 800, 600, 1, SwapchainGraphics::Direct)
        .unwrap();
    ctx
}

#[test]
fn lookup_returns_what_was_registered() {
    let ctx = context_with_tree();
    let inst = ctx.get_instance(1).expect("instance record exists");
    assert_eq!(inst.handle, 1);
    assert!(!inst.poison);
    assert!(inst.supports_vulkan_enable2);
    assert!(matches!(inst.runtime, Runtime::Monado));
    assert_eq!(inst.sessions, vec![2]);
    let sess = ctx.get_session(2).expect("session record exists");
    assert_eq!(sess.instance, 1);
    assert_eq!(sess.swapchains, vec![3]);
    let swap = ctx.get_swapchain(3).expect("swapchain record exists");
    assert_eq!(swap.session, 2);
    assert_eq!(swap.instance, 1);
    assert_eq!((swap.width, swap.height, swap.layers), (800, 600, 1));
}

#[test]
fn unknown_handles_are_invalid() {
    let ctx = context_with_tree();
    assert_eq!(ctx.check_instance_call(99), Err(LayerError::HandleInvalid));
    assert_eq!(ctx.check_session_call(99), Err(LayerError::HandleInvalid));
    assert_eq!(ctx.check_swapchain_call(99), Err(LayerError::HandleInvalid));
}

#[test]
fn live_unpoisoned_handles_pass_the_gate() {
    let ctx = context_with_tree();
    assert_eq!(ctx.check_instance_call(1), Ok(()));
    assert_eq!(ctx.check_session_call(2), Ok(()));
    assert_eq!(ctx.check_swapchain_call(3), Ok(()));
}

#[test]
fn fault_on_swapchain_poisons_the_whole_instance_tree() {
    let mut ctx = context_with_tree();
    ctx.poison_swapchain_owner(3);
    assert_eq!(ctx.check_instance_call(1), Err(LayerError::InstanceLost));
    assert_eq!(ctx.check_session_call(2), Err(LayerError::InstanceLost));
    assert_eq!(ctx.check_swapchain_call(3), Err(LayerError::InstanceLost));
}

#[test]
fn fault_on_session_poisons_the_whole_instance_tree() {
    let mut ctx = context_with_tree();
    ctx.poison_session_owner(2);
    assert_eq!(ctx.check_instance_call(1), Err(LayerError::InstanceLost));
    assert_eq!(ctx.check_session_call(2), Err(LayerError::InstanceLost));
    assert_eq!(ctx.check_swapchain_call(3), Err(LayerError::InstanceLost));
}

#[test]
fn fault_on_instance_poisons_it_permanently() {
    let mut ctx = context_with_tree();
    ctx.poison_instance(1);
    assert_eq!(ctx.check_instance_call(1), Err(LayerError::InstanceLost));
    // Poisoning again changes nothing; the flag never clears.
    ctx.poison_instance(1);
    assert_eq!(ctx.check_instance_call(1), Err(LayerError::InstanceLost));
}

#[test]
fn poison_does_not_leak_to_other_instances() {
    let mut ctx = context_with_tree();
    ctx.register_instance(10, false, Runtime::SteamVR);
    ctx.poison_instance(1);
    assert_eq!(ctx.check_instance_call(10), Ok(()));
}

#[test]
fn poisoning_unknown_handles_changes_nothing() {
    let mut ctx = context_with_tree();
    ctx.poison_instance(99);
    ctx.poison_session_owner(99);
    ctx.poison_swapchain_owner(99);
    assert_eq!(ctx.check_instance_call(1), Ok(()));
    assert_eq!(ctx.check_session_call(2), Ok(()));
    assert_eq!(ctx.check_swapchain_call(3), Ok(()));
}

#[test]
fn removal_invalidates_the_handle() {
    let mut ctx = context_with_tree();
    let removed = ctx.remove_swapchain(3).expect("record was present");
    assert_eq!(removed.handle, 3);
    assert_eq!(ctx.check_swapchain_call(3), Err(LayerError::HandleInvalid));
    assert!(ctx.remove_swapchain(3).is_none());
    let removed = ctx.remove_instance(1).expect("record was present");
    assert_eq!(removed.handle, 1);
    assert_eq!(ctx.check_instance_call(1), Err(LayerError::HandleInvalid));
    // The session's owning instance is gone, so its chain is broken.
    assert_eq!(ctx.check_session_call(2), Err(LayerError::HandleInvalid));
}

#[test]
fn error_codes_match_the_abi() {
    assert_eq!(LayerError::ValidationFailure.code(), -1);
    assert_eq!(LayerError::RuntimeFailure.code(), -2);
    assert_eq!(LayerError::InitializationFailed.code(), -6);
    assert_eq!(LayerError::SizeInsufficient.code(), -11);
    assert_eq!(LayerError::HandleInvalid.code(), -12);
    assert_eq!(LayerError::InstanceLost.code(), -13);
    assert_eq!(LayerError::SystemInvalid.code(), -18);
    assert_eq!(LayerError::SwapchainFormatUnsupported.code(), -26);
    assert_eq!(LayerError::CallOrderInvalid.code(), -37);
    assert_eq!(LayerError::GraphicsRequirementsCallMissing.code(), -50);
    assert_eq!(LayerError::Raw(-9).code(), -9);
}

#[test]
fn to_result_splits_codes_at_zero() {
    assert_eq!(0i32.result(), Ok(0));
    assert_eq!(3i32.result(), Ok(3));
    assert_eq!((-2i32).result(), Err(-2));
    assert_eq!(0i32.result2("value"), Ok("value"));
    assert_eq!((-12i32).result2("value"), Err(-12));
}

#[test]
fn destroying_and_recreating_an_instance_clears_the_poison() {
    let mut ctx = context_with_tree();
    ctx.poison_instance(1);
    assert_eq!(ctx.check_instance_call(1), Err(LayerError::InstanceLost));
    // The user-visible remedy: destroy the instance and create a new one,
    // even if the runtime hands out the same handle value again.
    ctx.remove_instance(1).expect("record was present");
    ctx.register_instance(1, true, Runtime::Monado);
    assert_eq!(ctx.check_instance_call(1), Ok(()));
}

#[test]
fn registering_a_handle_again_replaces_its_record() {
    let mut ctx = context_with_tree();
    ctx.register_instance(1, false, Runtime::SteamVR);
    let inst = ctx.get_instance(1).expect("instance record exists");
    assert!(!inst.supports_vulkan_enable2);
    assert!(matches!(inst.runtime, Runtime::SteamVR));
    assert!(inst.sessions.is_empty());
}
