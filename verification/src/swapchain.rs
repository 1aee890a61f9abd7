//! The Swapchain Bridge: translating a bridged swapchain-creation request
//! through the Format Table, keeping the per-swapchain record with its
//! imported OpenGL objects and exported OS handles, and answering the
//! format and image enumerations for bridged sessions.
use vstd::prelude::*;

use crate::formats::{spec_from_gl, spec_to_vk, ImageCreateInfo, ImageFormat};
use crate::records::{SessionGraphics, SessionRecord, SwapchainGraphics, SwapchainRecord};
use crate::registry::LayerContext;
use crate::LayerError;
use std::collections::VecDeque;
use std::vec::Vec;

verus! {

/// The one swapchain usage bit the bridge requests from the inner runtime:
/// its images are only ever a color attachment of the blit pass.
pub const XR_SWAPCHAIN_USAGE_COLOR_ATTACHMENT: u64 = 0x1;

/// The plain content of a swapchain-creation request.
#[derive(Clone, Copy, Debug, PartialEq, Eq, Structural)]
pub struct SwapchainCreateParams {
    pub create_flags: u64,
    pub usage_flags: u64,
    pub format: i64,
    pub sample_count: u32,
    pub width: u32,
    pub height: u32,
    pub face_count: u32,
    pub array_size: u32,
    pub mip_count: u32,
}

/// The abstract format behind a requested swapchain format value, which an
/// application of a bridged session states as an OpenGL internal format.
pub open spec fn spec_format_from_request(v: i64) -> Option<ImageFormat> {
    if 0 <= v <= u32::MAX {
        spec_from_gl(v as u32)
    } else {
        None
    }
}

/// What a bridged swapchain creation sends to the inner runtime and keeps
/// for itself: "swapchain format unsupported" exactly when the requested
/// format is outside the Format Table; otherwise the same request with the
/// format translated to Vulkan and the usage fixed to color-attachment,
/// and the image layout the export images are created with.
pub open spec fn spec_bridge_swapchain_create(info: SwapchainCreateParams) -> Result<
    (SwapchainCreateParams, ImageCreateInfo),
    LayerError,
> {
    match spec_format_from_request(info.format) {
        None => Err(LayerError::SwapchainFormatUnsupported),
        Some(f) => Ok(
            (
                SwapchainCreateParams {
                    create_flags: 0,
                    usage_flags: XR_SWAPCHAIN_USAGE_COLOR_ATTACHMENT,
                    format: spec_to_vk(f) as i64,
                    sample_count: info.sample_count,
                    width: info.width,
                    height: info.height,
                    face_count: info.face_count,
                    array_size: info.array_size,
                    mip_count: info.mip_count,
                },
                ImageCreateInfo {
                    width: info.width,
                    height: info.height,
                    layers: info.array_size,
                    mip_count: info.mip_count,
                    sample_count: info.sample_count,
                    format: f,
                },
            ),
        ),
    }
}

/// Translates a bridged swapchain-creation request, failing before any
/// resource is created when the format is unsupported.
pub fn bridge_swapchain_create(info: &SwapchainCreateParams) -> (r: Result<
    (SwapchainCreateParams, ImageCreateInfo),
    LayerError,
>)
    ensures
        r == spec_bridge_swapchain_create(*info),
{
    let f = if info.format >= 0 && info.format <= (u32::MAX as i64) {
        ImageFormat::from_gl(info.format as u32)
    } else {
        None
    };
    match f {
        None => Err(LayerError::SwapchainFormatUnsupported),
        Some(f) => {
            let vk = match f.to_vk() {
                Some(vk) => vk,
                None => {
                    return Err(LayerError::SwapchainFormatUnsupported);
                },
            };
            Ok(
                (
                    SwapchainCreateParams {
                        create_flags: 0,
                        usage_flags: XR_SWAPCHAIN_USAGE_COLOR_ATTACHMENT,
                        format: vk as i64,
                        sample_count: info.sample_count,
                        width: info.width,
                        height: info.height,
                        face_count: info.face_count,
                        array_size: info.array_size,
                        mip_count: info.mip_count,
                    },
                    ImageCreateInfo {
                        width: info.width,
                        height: info.height,
                        layers: info.array_size,
                        mip_count: info.mip_count,
                        sample_count: info.sample_count,
                        format: f,
                    },
                ),
            )
        },
    }
}

/// Whether a swapchain's per-image lists pair up one to one: one exported
/// OS handle, one GL memory object and one GL texture per runtime image.
pub open spec fn spec_images_paired(g: SwapchainGraphics) -> bool {
    match g {
        SwapchainGraphics::Direct => true,
        SwapchainGraphics::Compat { interop, gl_memory_objects, gl_textures } => {
            &&& interop@.len() == gl_memory_objects@.len()
            &&& interop@.len() == gl_textures@.len()
        },
    }
}

/// Two session records that agree on everything but hold the given
/// swapchain-handle list.
pub open spec fn spec_with_swapchains(a: SessionRecord, b: SessionRecord, s: Seq<u64>) -> bool {
    &&& b.handle == a.handle
    &&& b.instance == a.instance
    &&& b.graphics == a.graphics
    &&& b.swapchains@ == s
}

impl LayerContext {
    /// Stores the record of a swapchain the inner runtime created, with an
    /// empty acquire queue, and lists it under its owning session. A
    /// bridged record whose per-image lists do not pair up is rejected as
    /// a validation failure: a cross-API import must match its export one
    /// to one.
    pub fn register_swapchain(
        &mut self,
        session: u64,
        swapchain: u64,
        width: u32,
        height: u32,
        layers: u32,
        graphics: SwapchainGraphics,
    ) -> (r: Result<(), LayerError>)
        ensures
            final(self).insts() == old(self).insts(),
            !old(self).sess().dom().contains(session) ==> r == Err::<(), LayerError>(
                LayerError::HandleInvalid,
            ) && final(self).sess() == old(self).sess() && final(self).swaps() == old(self).swaps(),
            old(self).sess().dom().contains(session) && !spec_images_paired(graphics) ==> r == Err::<
                (),
                LayerError,
            >(LayerError::ValidationFailure) && final(self).sess() == old(self).sess()
                && final(self).swaps() == old(self).swaps(),
            old(self).sess().dom().contains(session) && spec_images_paired(graphics) ==> {
                &&& r == Ok::<(), LayerError>(())
                &&& ({
                    let rec = final(self).swaps()[swapchain];
                    &&& rec.handle == swapchain
                    &&& rec.session == session
                    &&& rec.instance == old(self).sess()[session].instance
                    &&& rec.width == width
                    &&& rec.height == height
                    &&& rec.layers == layers
                    &&& rec.graphics == graphics
                    &&& rec.acquired@ == Seq::<u32>::empty()
                })
                &&& final(self).swaps() == old(self).swaps().insert(
                    swapchain,
                    final(self).swaps()[swapchain],
                )
                &&& spec_with_swapchains(
                    old(self).sess()[session],
                    final(self).sess()[session],
                    old(self).sess()[session].swapchains@.push(swapchain),
                )
                &&& final(self).sess() == old(self).sess().insert(
                    session,
                    final(self).sess()[session],
                )
            },
    {
        match self.get_session(session) {
            None => Err(LayerError::HandleInvalid),
            Some(srec) => {
                let paired = match &graphics {
                    SwapchainGraphics::Direct => true,
                    SwapchainGraphics::Compat { interop, gl_memory_objects, gl_textures } => {
                        interop.len() == gl_memory_objects.len() && interop.len()
                            == gl_textures.len()
                    },
                };
                if !paired {
                    return Err(LayerError::ValidationFailure);
                }
                let mut srec = srec;
                srec.swapchains.push(swapchain);
                let rec = SwapchainRecord {
                    handle: swapchain,
                    session,
                    instance: srec.instance,
                    width,
                    height,
                    layers,
                    graphics,
                    acquired: VecDeque::new(),
                };
                self.put_swapchain(swapchain, rec);
                self.put_session(session, srec);
                Ok(())
            },
        }
    }

    /// How the layer answers `xrEnumerateSwapchainFormats` on a session:
    /// a bridged session is answered from its advertised list, a direct
    /// session's request is forwarded (`None`) to the inner runtime.
    pub fn swapchain_formats_answer(&self, session: u64) -> (r: Result<Option<Vec<i64>>, LayerError>)
        ensures
            !self.sess().dom().contains(session) ==> r == Err::<Option<Vec<i64>>, LayerError>(
                LayerError::HandleInvalid,
            ),
            self.sess().dom().contains(session) ==> match self.sess()[session].graphics {
                SessionGraphics::Direct => r == Ok::<Option<Vec<i64>>, LayerError>(None),
                SessionGraphics::Compat { swapchain_formats } => {
                    r matches Ok(Some(v)) && v@ == swapchain_formats@
                },
            },
    {
        match self.get_session(session) {
            None => Err(LayerError::HandleInvalid),
            Some(rec) => {
                match rec.graphics {
                    SessionGraphics::Direct => Ok(None),
                    SessionGraphics::Compat { swapchain_formats } => Ok(Some(swapchain_formats)),
                }
            },
        }
    }

    /// How the layer answers `xrEnumerateSwapchainImages` on a swapchain:
    /// a bridged swapchain is answered with its imported OpenGL textures,
    /// one per runtime image and in the runtime's index order; a direct
    /// swapchain's request is forwarded (`None`).
    pub fn swapchain_images_answer(&self, swapchain: u64) -> (r: Result<Option<Vec<u32>>, LayerError>)
        ensures
            !self.swaps().dom().contains(swapchain) ==> r == Err::<Option<Vec<u32>>, LayerError>(
                LayerError::HandleInvalid,
            ),
            self.swaps().dom().contains(swapchain) ==> match self.swaps()[swapchain].graphics {
                SwapchainGraphics::Direct => r == Ok::<Option<Vec<u32>>, LayerError>(None),
                SwapchainGraphics::Compat { gl_textures, .. } => {
                    r matches Ok(Some(v)) && v@ == gl_textures@
                },
            },
    {
        match self.get_swapchain(swapchain) {
            None => Err(LayerError::HandleInvalid),
            Some(rec) => {
                match rec.graphics {
                    SwapchainGraphics::Direct => Ok(None),
                    SwapchainGraphics::Compat { gl_textures, .. } => Ok(Some(gl_textures)),
                }
            },
        }
    }
}

} // verus!
