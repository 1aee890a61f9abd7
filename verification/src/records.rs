//! The wrapper records the layer keeps for every live OpenXR handle, and
//! the per-system bookkeeping that gates session bridging. Native resources
//! (function tables, GPU objects, GL contexts) live outside the library and
//! are found by the same handle keys; the records hold everything the
//! layer's decisions read or write.
use vstd::prelude::*;

use std::collections::HashMap;
use std::collections::VecDeque;
use std::string::String;
use std::vec::Vec;

verus! {

/// Bits of the per-system "graphics requirements queried" set.
pub const GRAPHICS_OPENGL_GL: u8 = 0x01;

pub const GRAPHICS_VULKAN: u8 = 0x02;

pub const GRAPHICS_VULKAN2: u8 = 0x04;

pub const GRAPHICS_D3D11: u8 = 0x08;

pub const GRAPHICS_D3D12: u8 = 0x10;

/// The runtime underneath the layer, classified by its reported name.
#[derive(Clone, Debug)]
pub enum Runtime {
    SteamVR,
    Oculus,
    WMR,
    Monado,
    Other(String),
}

/// Per-system state: the form factor it was queried with, and the set of
/// graphics-API requirement queries made for it so far. Querying the
/// OpenGL requirements is a precondition for bridging a session on this
/// system.
#[derive(Clone, Copy, Debug, PartialEq, Eq, Structural)]
pub struct SystemMeta {
    pub form_factor: i32,
    pub requirements_called: u8,
}

/// The record kept for one live instance handle: the permanent poison flag,
/// what the inner runtime supports and is, and the systems and sessions
/// that belong to the instance. Sessions are kept as handle keys, never as
/// owned children, so no ownership cycle can form.
#[derive(Clone, Debug)]
pub struct InstanceRecord {
    pub handle: u64,
    pub poison: bool,
    pub supports_vulkan_enable2: bool,
    pub runtime: Runtime,
    pub systems: HashMap<u64, SystemMeta>,
    pub sessions: Vec<u64>,
}

/// A session's graphics mode: `Direct` passes every call straight through;
/// `Compat` is the bridged mode and carries the abstract-format-derived
/// list of swapchain formats advertised to the application.
#[derive(Clone, Debug)]
pub enum SessionGraphics {
    Direct,
    Compat { swapchain_formats: Vec<i64> },
}

/// The record kept for one live session handle. `instance` is the owning
/// instance's handle, a non-owning lookup key.
#[derive(Clone, Debug)]
pub struct SessionRecord {
    pub handle: u64,
    pub instance: u64,
    pub graphics: SessionGraphics,
    pub swapchains: Vec<u64>,
}

/// A bridged swapchain's per-image state: the exported OS memory handles
/// with their allocation sizes, and the OpenGL memory objects and textures
/// imported from them, one of each per runtime image.
#[derive(Clone, Debug)]
pub enum SwapchainGraphics {
    Direct,
    Compat {
        interop: Vec<(i64, u64)>,
        gl_memory_objects: Vec<u32>,
        gl_textures: Vec<u32>,
    },
}

/// The record kept for one live swapchain handle. `session` and `instance`
/// are the owning handles as lookup keys; `acquired` is the FIFO queue of
/// acquired-but-unreleased image indices.
#[derive(Clone, Debug)]
pub struct SwapchainRecord {
    pub handle: u64,
    pub session: u64,
    pub instance: u64,
    pub width: u32,
    pub height: u32,
    pub layers: u32,
    pub graphics: SwapchainGraphics,
    pub acquired: VecDeque<u32>,
}

impl SwapchainRecord {
    /// In `Compat` mode the three per-image lists pair up one to one:
    /// one OS handle, one GL memory object and one GL texture per image.
    pub open spec fn images_well_formed(&self) -> bool {
        match self.graphics {
            SwapchainGraphics::Direct => true,
            SwapchainGraphics::Compat { interop, gl_memory_objects, gl_textures } => {
                &&& interop@.len() == gl_memory_objects@.len()
                &&& interop@.len() == gl_textures@.len()
            },
        }
    }

    /// The number of bridged images, in `Compat` mode.
    pub open spec fn spec_image_count(&self) -> nat {
        match self.graphics {
            SwapchainGraphics::Direct => 0,
            SwapchainGraphics::Compat { gl_textures, .. } => gl_textures@.len(),
        }
    }
}

} // verus!
