//! End to end: create an instance, query a system, query the OpenGL
//! requirements, create a bridged session, create a bridged swapchain with
//! three images, then acquire and release the first image. The inner
//! runtime and both native graphics APIs are played by this test, which
//! feeds their results into the library exactly where the layer's entry
//! points would.
use compat_layer::bridge::{
    advertised_formats, binding_type_from_raw, session_mode, BindingType, BridgePolicy,
    SessionMode,
};
use compat_layer::formats::ImageFormat;
use compat_layer::interceptors::enumerate_into;
use compat_layer::records::{Runtime, SessionGraphics, SwapchainGraphics};
use compat_layer::registry::LayerContext;
use compat_layer::swapchain::SwapchainCreateParams;
use compat_layer::LayerError;

const INSTANCE: u64 = 0x100;
const SYSTEM: u64 = 7;
const SESSION: u64 = 0x200;
const SWAPCHAIN: u64 = 0x300;
const HEAD_MOUNTED_DISPLAY: i32 = 1;

#[test]
fn end_to_end_bridged_session() {
    let mut ctx = LayerContext::new();

    // Instance creation: the runtime reported Monado and the bridging
    // extension was negotiated.
    ctx.register_instance(INSTANCE, true, Runtime::Monado);
    assert_eq!(ctx.check_instance_call(INSTANCE), Ok(()));

    // xrGetSystem: the runtime resolved the head-mounted system.
    ctx.record_system(INSTANCE, SYSTEM, HEAD_MOUNTED_DISPLAY).unwrap();

    // Creating a bridged session before the requirements query must fail.
    assert_eq!(
        ctx.check_bridging_precondition(INSTANCE, SYSTEM),
        Err(LayerError::GraphicsRequirementsCallMissing)
    );

    // xrGetOpenGLGraphicsRequirementsKHR sets the OPENGL_GL bit.
    let (min_gl, max_gl) = ctx.note_opengl_requirements(INSTANCE, SYSTEM).unwrap();
    assert_eq!(min_gl >> 48, 4);
    assert_eq!((min_gl >> 32) & 0xFFFF, 5);
    assert_eq!(max_gl >> 48, 4);
    assert_eq!((max_gl >> 32) & 0xFFFF, 6);
    assert_eq!(ctx.check_bridging_precondition(INSTANCE, SYSTEM), Ok(()));

    // xrCreateSession arrives with an Xlib OpenGL binding; under the
    // always-bridge policy the session is Compat.
    let binding = binding_type_from_raw(1000023001);
    assert_eq!(binding, BindingType::OpenGlXlib);
    let mode = session_mode(Some(binding), BridgePolicy::AlwaysBridgeOpenGl);
    assert_eq!(mode, SessionMode::Compat);

    // The runtime supports these Vulkan formats; the session advertises
    // exactly the table entries, as OpenGL values.
    let runtime_formats = vec![43i64, 37, 97, 126, 109];
    let advertised = advertised_formats(&runtime_formats);
    assert_eq!(advertised, vec![0x8058i64, 0x881A, 0x8CAC, 0x8814]);
    ctx.register_session(
        INSTANCE,
        SESSION,
        SessionGraphics::Compat { swapchain_formats: advertised.clone() },
    )
    .unwrap();

    // xrEnumerateSwapchainFormats answers from the stored list through the
    // two-call protocol.
    let stored = ctx
        .swapchain_formats_answer(SESSION)
        .unwrap()
        .expect("a bridged session answers locally");
    let mut buffer: Vec<i64> = Vec::new();
    assert_eq!(enumerate_into(&stored, 0, &mut buffer), Ok(4));
    assert_eq!(enumerate_into(&stored, 4, &mut buffer), Ok(4));
    assert_eq!(buffer, advertised);

    // xrCreateSwapchain with the first advertised format and 3 images.
    let request = SwapchainCreateParams {
        create_flags: 0,
        usage_flags: 0x20,
        format: advertised[0],
        sample_count: 1,
        width: 1600,
        height: 900,
        face_count: 1,
        array_size: 2,
        mip_count: 1,
    };
    let (to_runtime, image_info) =
        compat_layer::swapchain::bridge_swapchain_create(&request).unwrap();
    assert_eq!(to_runtime.format, 37); // the table's Vulkan value
    assert_eq!(to_runtime.usage_flags, 0x1); // color attachment only
    assert_eq!(to_runtime.create_flags, 0);
    assert_eq!((to_runtime.width, to_runtime.height), (1600, 900));
    assert_eq!(to_runtime.array_size, 2);
    assert_eq!(image_info.format, ImageFormat::Rgba8Unorm);
    assert_eq!(image_info.layers, 2);

    // The runtime enumerated 3 images; one export image, memory handle,
    // GL memory object and GL texture exists per image.
    let graphics = SwapchainGraphics::Compat {
        interop: vec![(11, 4096), (12, 4096), (13, 4096)],
        gl_memory_objects: vec![31, 32, 33],
        gl_textures: vec![41, 42, 43],
    };
    ctx.register_swapchain(SESSION, SWAPCHAIN, 1600, 900, 2, graphics)
        .unwrap();

    // xrEnumerateSwapchainImages: 3 images on the OpenGL side too.
    let textures = ctx
        .swapchain_images_answer(SWAPCHAIN)
        .unwrap()
        .expect("a bridged swapchain answers locally");
    assert_eq!(textures.len(), 3);
    let mut out: Vec<u32> = Vec::new();
    assert_eq!(enumerate_into(&textures, 3, &mut out), Ok(3));
    assert_eq!(out, vec![41, 42, 43]);

    // xrAcquireSwapchainImage: the runtime returned index 0.
    ctx.record_acquire(SWAPCHAIN, 0).unwrap();

    // xrReleaseSwapchainImage: the front index drives the blit, then the
    // runtime's own release is called exactly once, then the pop commits.
    let mut runtime_release_calls = 0;
    let index = ctx.front_to_release(SWAPCHAIN).unwrap();
    assert_eq!(index, 0);
    runtime_release_calls += 1; // the runtime accepted the release
    assert_eq!(ctx.commit_release(SWAPCHAIN), Ok(0));
    assert_eq!(runtime_release_calls, 1);

    // The queue is empty again; another release is rejected.
    assert_eq!(
        ctx.front_to_release(SWAPCHAIN),
        Err(LayerError::CallOrderInvalid)
    );
}

#[test]
fn unsupported_swapchain_format_fails_before_any_resource() {
    let request = SwapchainCreateParams {
        create_flags: 0,
        usage_flags: 0x20,
        format: 0x1234, // not a table entry
        sample_count: 1,
        width: 64,
        height: 64,
        face_count: 1,
        array_size: 1,
        mip_count: 1,
    };
    assert_eq!(
        compat_layer::swapchain::bridge_swapchain_create(&request),
        Err(LayerError::SwapchainFormatUnsupported)
    );
    let request = SwapchainCreateParams { format: -5, ..request };
    assert_eq!(
        compat_layer::swapchain::bridge_swapchain_create(&request),
        Err(LayerError::SwapchainFormatUnsupported)
    );
}

#[test]
fn mismatched_import_lists_are_rejected() {
    let mut ctx = LayerContext::new();
    ctx.register_instance(INSTANCE, true, Runtime::Monado);
    ctx.register_session(INSTANCE, SESSION, SessionGraphics::Direct)
        .unwrap();
    let graphics = SwapchainGraphics::Compat {
        interop: vec![(11, 4096), (12, 4096)],
        gl_memory_objects: vec![31, 32],
        gl_textures: vec![41],
    };
    assert_eq!(
        ctx.register_swapchain(SESSION, SWAPCHAIN, 64, 64, 1, graphics),
        Err(LayerError::ValidationFailure)
    );
}

#[test]
fn direct_sessions_forward_their_enumerations() {
    let mut ctx = LayerContext::new();
    ctx.register_instance(INSTANCE, true, Runtime::SteamVR);
    ctx.register_session(INSTANCE, SESSION, SessionGraphics::Direct)
        .unwrap();
    ctx.register_swapchain(SESSION, SWAPCHAIN, 64, 64, 1, SwapchainGraphics::Direct)
        .unwrap();
    assert_eq!(ctx.swapchain_formats_answer(SESSION), Ok(None));
    assert_eq!(ctx.swapchain_images_answer(SWAPCHAIN), Ok(None));
}

#[test]
fn system_bookkeeping_gates_bridging() {
    let mut ctx = LayerContext::new();
    ctx.register_instance(INSTANCE, true, Runtime::Monado);
    // Unknown system: the requirements query itself is rejected.
    assert_eq!(
        ctx.note_opengl_requirements(INSTANCE, SYSTEM),
        Err(LayerError::SystemInvalid)
    );
    ctx.record_system(INSTANCE, SYSTEM, HEAD_MOUNTED_DISPLAY).unwrap();
    ctx.note_opengl_requirements(INSTANCE, SYSTEM).unwrap();
    assert_eq!(ctx.check_bridging_precondition(INSTANCE, SYSTEM), Ok(()));
    // Re-querying the system clears the requirements set.
    ctx.record_system(INSTANCE, SYSTEM, HEAD_MOUNTED_DISPLAY).unwrap();
    assert_eq!(
        ctx.check_bridging_precondition(INSTANCE, SYSTEM),
        Err(LayerError::GraphicsRequirementsCallMissing)
    );
    // Unknown instance handles fail first.
    assert_eq!(
        ctx.check_bridging_precondition(0xDEAD, SYSTEM),
        Err(LayerError::HandleInvalid)
    );
}

#[test]
fn bridging_without_the_vulkan_extension_is_fatal() {
    let mut ctx = LayerContext::new();
    ctx.register_instance(INSTANCE, false, Runtime::SteamVR);
    assert_eq!(
        ctx.check_bridging_support(INSTANCE),
        Err(LayerError::InitializationFailed)
    );
    ctx.register_instance(INSTANCE, true, Runtime::SteamVR);
    assert_eq!(ctx.check_bridging_support(INSTANCE), Ok(()));
    assert_eq!(
        ctx.check_bridging_support(0xBEEF),
        Err(LayerError::HandleInvalid)
    );
}
