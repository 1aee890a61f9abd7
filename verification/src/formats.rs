//! The Format Table: the fixed bidirectional mapping between the abstract
//! image formats the bridge supports and the native OpenGL and Vulkan
//! format enumerations. The mapping is exhaustive over the eight supported
//! formats and injective in both directions; any native value outside it is
//! unsupported.
use vstd::prelude::*;

verus! {

/// OpenGL sized internal formats, as fixed by the OpenGL registry.
pub const GL_RGBA8: u32 = 0x8058;

pub const GL_SRGB8_ALPHA8: u32 = 0x8C43;

pub const GL_RGB10_A2: u32 = 0x8059;

pub const GL_RGBA16F: u32 = 0x881A;

pub const GL_RGBA32F: u32 = 0x8814;

pub const GL_DEPTH_COMPONENT32F: u32 = 0x8CAC;

pub const GL_DEPTH24_STENCIL8: u32 = 0x88F0;

pub const GL_DEPTH_COMPONENT16: u32 = 0x81A5;

/// Vulkan `VkFormat` values, as fixed by the Vulkan registry.
pub const VK_R8G8B8A8_UNORM: i32 = 37;

pub const VK_R8G8B8_SRGB: i32 = 29;

pub const VK_A2R10G10B10_UNORM_PACK32: i32 = 58;

pub const VK_R16G16B16A16_SFLOAT: i32 = 97;

pub const VK_R32G32B32A32_SFLOAT: i32 = 109;

pub const VK_D32_SFLOAT: i32 = 126;

pub const VK_D24_UNORM_S8_UINT: i32 = 129;

pub const VK_D16_UNORM: i32 = 124;

/// The abstract pixel and depth formats the bridge supports: four color
/// formats (one sRGB, one packed 10-bit), a 64-bit float format, a 128-bit
/// float format, and three depth / depth-stencil variants.
#[derive(Clone, Copy, Debug, Hash, PartialEq, Eq, Structural)]
pub enum ImageFormat {
    Rgba8Unorm,
    Rgba8UnormSrgb,
    Rgb10a2Unorm,
    Rgba16Float,
    Rgba32Float,
    Depth32Float,
    Depth24PlusStencil8,
    Depth16Unorm,
}

/// Dimensions and layout of one bridged image.
#[derive(Clone, Copy, Debug, PartialEq, Eq, Structural)]
pub struct ImageCreateInfo {
    pub width: u32,
    pub height: u32,
    pub layers: u32,
    pub mip_count: u32,
    pub sample_count: u32,
    pub format: ImageFormat,
}

/// The OpenGL internal format each abstract format maps to.
pub open spec fn spec_to_gl(f: ImageFormat) -> u32 {
    match f {
        ImageFormat::Rgba8Unorm => GL_RGBA8,
        ImageFormat::Rgba8UnormSrgb => GL_SRGB8_ALPHA8,
        ImageFormat::Rgb10a2Unorm => GL_RGB10_A2,
        ImageFormat::Rgba16Float => GL_RGBA16F,
        ImageFormat::Rgba32Float => GL_RGBA32F,
        ImageFormat::Depth32Float => GL_DEPTH_COMPONENT32F,
        ImageFormat::Depth24PlusStencil8 => GL_DEPTH24_STENCIL8,
        ImageFormat::Depth16Unorm => GL_DEPTH_COMPONENT16,
    }
}

/// The abstract format an OpenGL internal format maps back to; `None` for
/// every value outside the table.
pub open spec fn spec_from_gl(v: u32) -> Option<ImageFormat> {
    if v == GL_RGBA8 {
        Some(ImageFormat::Rgba8Unorm)
    } else if v == GL_SRGB8_ALPHA8 {
        Some(ImageFormat::Rgba8UnormSrgb)
    } else if v == GL_RGB10_A2 {
        Some(ImageFormat::Rgb10a2Unorm)
    } else if v == GL_RGBA16F {
        Some(ImageFormat::Rgba16Float)
    } else if v == GL_RGBA32F {
        Some(ImageFormat::Rgba32Float)
    } else if v == GL_DEPTH_COMPONENT32F {
        Some(ImageFormat::Depth32Float)
    } else if v == GL_DEPTH24_STENCIL8 {
        Some(ImageFormat::Depth24PlusStencil8)
    } else if v == GL_DEPTH_COMPONENT16 {
        Some(ImageFormat::Depth16Unorm)
    } else {
        None
    }
}

/// The Vulkan format each abstract format maps to.
pub open spec fn spec_to_vk(f: ImageFormat) -> i32 {
    match f {
        ImageFormat::Rgba8Unorm => VK_R8G8B8A8_UNORM,
        ImageFormat::Rgba8UnormSrgb => VK_R8G8B8_SRGB,
        ImageFormat::Rgb10a2Unorm => VK_A2R10G10B10_UNORM_PACK32,
        ImageFormat::Rgba16Float => VK_R16G16B16A16_SFLOAT,
        ImageFormat::Rgba32Float => VK_R32G32B32A32_SFLOAT,
        ImageFormat::Depth32Float => VK_D32_SFLOAT,
        ImageFormat::Depth24PlusStencil8 => VK_D24_UNORM_S8_UINT,
        ImageFormat::Depth16Unorm => VK_D16_UNORM,
    }
}

/// The abstract format a Vulkan format maps back to; `None` for every value
/// outside the table.
pub open spec fn spec_from_vk(v: i32) -> Option<ImageFormat> {
    if v == VK_R8G8B8A8_UNORM {
        Some(ImageFormat::Rgba8Unorm)
    } else if v == VK_R8G8B8_SRGB {
        Some(ImageFormat::Rgba8UnormSrgb)
    } else if v == VK_A2R10G10B10_UNORM_PACK32 {
        Some(ImageFormat::Rgb10a2Unorm)
    } else if v == VK_R16G16B16A16_SFLOAT {
        Some(ImageFormat::Rgba16Float)
    } else if v == VK_R32G32B32A32_SFLOAT {
        Some(ImageFormat::Rgba32Float)
    } else if v == VK_D32_SFLOAT {
        Some(ImageFormat::Depth32Float)
    } else if v == VK_D24_UNORM_S8_UINT {
        Some(ImageFormat::Depth24PlusStencil8)
    } else if v == VK_D16_UNORM {
        Some(ImageFormat::Depth16Unorm)
    } else {
        None
    }
}

impl ImageFormat {
    /// The OpenGL internal format for this abstract format. Every supported
    /// format has one, so this never returns `None`.
    pub fn to_gl(&self) -> (r: Option<u32>)
        ensures
            r == Some(spec_to_gl(*self)),
    {
        Some(
            match *self {
                ImageFormat::Rgba8Unorm => GL_RGBA8,
                ImageFormat::Rgba8UnormSrgb => GL_SRGB8_ALPHA8,
                ImageFormat::Rgb10a2Unorm => GL_RGB10_A2,
                ImageFormat::Rgba16Float => GL_RGBA16F,
                ImageFormat::Rgba32Float => GL_RGBA32F,
                ImageFormat::Depth32Float => GL_DEPTH_COMPONENT32F,
                ImageFormat::Depth24PlusStencil8 => GL_DEPTH24_STENCIL8,
                ImageFormat::Depth16Unorm => GL_DEPTH_COMPONENT16,
            },
        )
    }

    /// The abstract format for an OpenGL internal format, if the table has it.
    pub fn from_gl(gl_format: u32) -> (r: Option<ImageFormat>)
        ensures
            r == spec_from_gl(gl_format),
    {
        if gl_format == GL_RGBA8 {
            Some(ImageFormat::Rgba8Unorm)
        } else if gl_format == GL_SRGB8_ALPHA8 {
            Some(ImageFormat::Rgba8UnormSrgb)
        } else if gl_format == GL_RGB10_A2 {
            Some(ImageFormat::Rgb10a2Unorm)
        } else if gl_format == GL_RGBA16F {
            Some(ImageFormat::Rgba16Float)
        } else if gl_format == GL_RGBA32F {
            Some(ImageFormat::Rgba32Float)
        } else if gl_format == GL_DEPTH_COMPONENT32F {
            Some(ImageFormat::Depth32Float)
        } else if gl_format == GL_DEPTH24_STENCIL8 {
            Some(ImageFormat::Depth24PlusStencil8)
        } else if gl_format == GL_DEPTH_COMPONENT16 {
            Some(ImageFormat::Depth16Unorm)
        } else {
            None
        }
    }

    /// The Vulkan format for this abstract format. Every supported format
    /// has one, so this never returns `None`.
    pub fn to_vk(&self) -> (r: Option<i32>)
        ensures
            r == Some(spec_to_vk(*self)),
    {
        Some(
            match *self {
                ImageFormat::Rgba8Unorm => VK_R8G8B8A8_UNORM,
                ImageFormat::Rgba8UnormSrgb => VK_R8G8B8_SRGB,
                ImageFormat::Rgb10a2Unorm => VK_A2R10G10B10_UNORM_PACK32,
                ImageFormat::Rgba16Float => VK_R16G16B16A16_SFLOAT,
                ImageFormat::Rgba32Float => VK_R32G32B32A32_SFLOAT,
                ImageFormat::Depth32Float => VK_D32_SFLOAT,
                ImageFormat::Depth24PlusStencil8 => VK_D24_UNORM_S8_UINT,
                ImageFormat::Depth16Unorm => VK_D16_UNORM,
            },
        )
    }

    /// The abstract format for a Vulkan format, if the table has it.
    pub fn from_vk(vk_format: i32) -> (r: Option<ImageFormat>)
        ensures
            r == spec_from_vk(vk_format),
    {
        if vk_format == VK_R8G8B8A8_UNORM {
            Some(ImageFormat::Rgba8Unorm)
        } else if vk_format == VK_R8G8B8_SRGB {
            Some(ImageFormat::Rgba8UnormSrgb)
        } else if vk_format == VK_A2R10G10B10_UNORM_PACK32 {
            Some(ImageFormat::Rgb10a2Unorm)
        } else if vk_format == VK_R16G16B16A16_SFLOAT {
            Some(ImageFormat::Rgba16Float)
        } else if vk_format == VK_R32G32B32A32_SFLOAT {
            Some(ImageFormat::Rgba32Float)
        } else if vk_format == VK_D32_SFLOAT {
            Some(ImageFormat::Depth32Float)
        } else if vk_format == VK_D24_UNORM_S8_UINT {
            Some(ImageFormat::Depth24PlusStencil8)
        } else if vk_format == VK_D16_UNORM {
            Some(ImageFormat::Depth16Unorm)
        } else {
            None
        }
    }
}

/// Mapping any abstract format to OpenGL and back is the identity.
pub proof fn lemma_gl_round_trip(f: ImageFormat)
    ensures
        spec_from_gl(spec_to_gl(f)) == Some(f),
{
}

/// Mapping any abstract format to Vulkan and back is the identity.
pub proof fn lemma_vk_round_trip(f: ImageFormat)
    ensures
        spec_from_vk(spec_to_vk(f)) == Some(f),
{
}

/// Mapping a recognized OpenGL value back to its abstract format and out
/// again returns the same value: the table is injective in both directions.
pub proof fn lemma_gl_inverse(v: u32, f: ImageFormat)
    requires
        spec_from_gl(v) == Some(f),
    ensures
        spec_to_gl(f) == v,
{
}

/// Mapping a recognized Vulkan value back to its abstract format and out
/// again returns the same value: the table is injective in both directions.
pub proof fn lemma_vk_inverse(v: i32, f: ImageFormat)
    requires
        spec_from_vk(v) == Some(f),
    ensures
        spec_to_vk(f) == v,
{
}

} // verus!
