//! An OpenXR API-layer core that bridges OpenGL-binding sessions onto a
//! Vulkan backend: a fixed bidirectional pixel-format table, a process-wide
//! registry of handle wrapper records with a poison-based fault boundary,
//! an ordered proc-address interceptor chain, the session-bridging decision
//! logic, and a strict FIFO acquire/release sequencer per swapchain.
//!
//! The native graphics calls themselves (OpenXR runtime, Vulkan, OpenGL)
//! happen outside this crate; every decision about them, and all record
//! bookkeeping, is made here.
use vstd::prelude::*;

pub mod formats;
pub mod records;
pub mod registry;
pub mod sequencer;
pub mod text;
pub mod interceptors;
pub mod negotiate;
pub mod bridge;
pub mod swapchain;
pub mod vulkan;

verus! {

/// Result code a runtime hands back: zero or positive on success.
pub const XR_SUCCESS: i32 = 0;

/// Raw OpenXR result codes for the errors this layer itself raises.
/// The values are fixed by the OpenXR ABI.
pub const XR_ERROR_VALIDATION_FAILURE: i32 = -1;

pub const XR_ERROR_RUNTIME_FAILURE: i32 = -2;

pub const XR_ERROR_INITIALIZATION_FAILED: i32 = -6;

pub const XR_ERROR_SIZE_INSUFFICIENT: i32 = -11;

pub const XR_ERROR_HANDLE_INVALID: i32 = -12;

pub const XR_ERROR_INSTANCE_LOST: i32 = -13;

pub const XR_ERROR_SYSTEM_INVALID: i32 = -18;

pub const XR_ERROR_SWAPCHAIN_FORMAT_UNSUPPORTED: i32 = -26;

pub const XR_ERROR_CALL_ORDER_INVALID: i32 = -37;

pub const XR_ERROR_GRAPHICS_REQUIREMENTS_CALL_MISSING: i32 = -50;

/// Every failure a layer entry point can report. `Raw` carries a negative
/// result code returned verbatim by the inner runtime or a native driver.
#[derive(Clone, Copy, Debug, PartialEq, Eq, Structural)]
pub enum LayerError {
    ValidationFailure,
    RuntimeFailure,
    InitializationFailed,
    SizeInsufficient,
    HandleInvalid,
    InstanceLost,
    SystemInvalid,
    SwapchainFormatUnsupported,
    CallOrderInvalid,
    GraphicsRequirementsCallMissing,
    Raw(i32),
}

/// The ABI result code each error is reported as.
pub open spec fn spec_error_code(e: LayerError) -> i32 {
    match e {
        LayerError::ValidationFailure => XR_ERROR_VALIDATION_FAILURE,
        LayerError::RuntimeFailure => XR_ERROR_RUNTIME_FAILURE,
        LayerError::InitializationFailed => XR_ERROR_INITIALIZATION_FAILED,
        LayerError::SizeInsufficient => XR_ERROR_SIZE_INSUFFICIENT,
        LayerError::HandleInvalid => XR_ERROR_HANDLE_INVALID,
        LayerError::InstanceLost => XR_ERROR_INSTANCE_LOST,
        LayerError::SystemInvalid => XR_ERROR_SYSTEM_INVALID,
        LayerError::SwapchainFormatUnsupported => XR_ERROR_SWAPCHAIN_FORMAT_UNSUPPORTED,
        LayerError::CallOrderInvalid => XR_ERROR_CALL_ORDER_INVALID,
        LayerError::GraphicsRequirementsCallMissing => XR_ERROR_GRAPHICS_REQUIREMENTS_CALL_MISSING,
        LayerError::Raw(code) => code,
    }
}

impl LayerError {
    /// The ABI result code this error is reported as.
    pub fn code(&self) -> (r: i32)
        ensures
            r == spec_error_code(*self),
    {
        match *self {
            LayerError::ValidationFailure => XR_ERROR_VALIDATION_FAILURE,
            LayerError::RuntimeFailure => XR_ERROR_RUNTIME_FAILURE,
            LayerError::InitializationFailed => XR_ERROR_INITIALIZATION_FAILED,
            LayerError::SizeInsufficient => XR_ERROR_SIZE_INSUFFICIENT,
            LayerError::HandleInvalid => XR_ERROR_HANDLE_INVALID,
            LayerError::InstanceLost => XR_ERROR_INSTANCE_LOST,
            LayerError::SystemInvalid => XR_ERROR_SYSTEM_INVALID,
            LayerError::SwapchainFormatUnsupported => XR_ERROR_SWAPCHAIN_FORMAT_UNSUPPORTED,
            LayerError::CallOrderInvalid => XR_ERROR_CALL_ORDER_INVALID,
            LayerError::GraphicsRequirementsCallMissing => {
                XR_ERROR_GRAPHICS_REQUIREMENTS_CALL_MISSING
            },
            LayerError::Raw(code) => code,
        }
    }
}

/// Splits a raw result code into success and failure, keeping the code.
pub trait ToResult: Sized {
    /// Whether this code means the call succeeded.
    spec fn spec_is_success(self) -> bool;

    fn result2<T>(self, ok: T) -> (r: Result<T, Self>)
        ensures
            self.spec_is_success() ==> (r matches Ok(v) && v == ok),
            !self.spec_is_success() ==> (r matches Err(e) && e == self),
    ;

    fn result(self) -> (r: Result<Self, Self>)
        where Self: Copy
        ensures
            self.spec_is_success() ==> (r matches Ok(v) && v == self),
            !self.spec_is_success() ==> (r matches Err(e) && e == self),
    {
        self.result2(self)
    }
}

impl ToResult for i32 {
    /// An OpenXR result code is a success when it is not negative.
    open spec fn spec_is_success(self) -> bool {
        self >= 0
    }

    fn result2<T>(self, ok: T) -> (r: Result<T, Self>) {
        if self >= 0 {
            Ok(ok)
        } else {
            Err(self)
        }
    }
}

} // verus!
