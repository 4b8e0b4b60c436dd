//! Pixel formats of the frames the engine hands over.

use vstd::prelude::*;

use crate::outside::{dma_buf_force_opaque, dma_buf_from_fourcc, dma_buf_texture_format};

verus! {

/// `DRM_FORMAT_ARGB8888`: the code `AR24`, first character in the low byte.
pub const DRM_FORMAT_ARGB8888: u32 = 0x3432_5241;

/// `DRM_FORMAT_XRGB8888`: the code `XR24`.
pub const DRM_FORMAT_XRGB8888: u32 = 0x3432_5258;

/// `DRM_FORMAT_ABGR8888`: the code `AB24`.
pub const DRM_FORMAT_ABGR8888: u32 = 0x3432_4241;

/// `DRM_FORMAT_XBGR8888`: the code `XB24`.
pub const DRM_FORMAT_XBGR8888: u32 = 0x3432_4258;

/// `WPE_PIXEL_FORMAT_ARGB8888`, the only value `WPEPixelFormat` defines.
pub const WPE_PIXEL_FORMAT_ARGB8888: u32 = 0;

/// The packed 32-bit formats a frame can carry.
#[derive(Debug, Clone, Copy, PartialEq, Eq, Structural)]
pub enum PackedFormat {
    /// Little-endian BGRA with meaningful alpha.
    Bgra8,
    /// Little-endian BGRX; consumers must force alpha to one.
    Bgrx8,
    /// Little-endian RGBA with meaningful alpha.
    Rgba8,
    /// Little-endian RGBX; consumers must force alpha to one.
    Rgbx8,
}

/// The formats of the texture a frame lands in.
#[derive(Debug, Clone, Copy, PartialEq, Eq, Structural)]
pub enum TexelFormat {
    /// `wgpu::TextureFormat::Bgra8Unorm`.
    Bgra8Unorm,
    /// `wgpu::TextureFormat::Rgba8Unorm`.
    Rgba8Unorm,
}

/// Whether a DRM code names one of the packed formats.
pub open spec fn is_packed_fourcc(value: u32) -> bool {
    ||| value == DRM_FORMAT_ARGB8888
    ||| value == DRM_FORMAT_XRGB8888
    ||| value == DRM_FORMAT_ABGR8888
    ||| value == DRM_FORMAT_XBGR8888
}

/// The packed format that a DRM code names.
pub open spec fn packed_from_fourcc(value: u32) -> PackedFormat
    recommends
        is_packed_fourcc(value),
{
    if value == DRM_FORMAT_ARGB8888 {
        PackedFormat::Bgra8
    } else if value == DRM_FORMAT_XRGB8888 {
        PackedFormat::Bgrx8
    } else if value == DRM_FORMAT_ABGR8888 {
        PackedFormat::Rgba8
    } else {
        PackedFormat::Rgbx8
    }
}

/// The texture format a packed format lands in: the channel order alone decides.
pub open spec fn packed_texture_format(format: PackedFormat) -> TexelFormat {
    match format {
        PackedFormat::Bgra8 | PackedFormat::Bgrx8 => TexelFormat::Bgra8Unorm,
        PackedFormat::Rgba8 | PackedFormat::Rgbx8 => TexelFormat::Rgba8Unorm,
    }
}

/// Whether a packed format has no alpha of its own.
pub open spec fn packed_force_opaque(format: PackedFormat) -> bool {
    format is Bgrx8 || format is Rgbx8
}

impl PackedFormat {
    /// The format that a DRM `fourcc` code names, for the four packed codes.
    #[must_use]
    pub fn from_fourcc(value: u32) -> (format: Option<Self>)
        ensures
            format == (if is_packed_fourcc(value) {
                Some(packed_from_fourcc(value))
            } else {
                None
            }),
    {
        if value == DRM_FORMAT_ARGB8888 || value == DRM_FORMAT_XRGB8888 || value
            == DRM_FORMAT_ABGR8888 || value == DRM_FORMAT_XBGR8888 {
            Some(dma_buf_from_fourcc(value))
        } else {
            None
        }
    }

    /// The format of the texture that an imported frame of this format lands in.
    #[must_use]
    pub fn texture_format(self) -> (texture: TexelFormat)
        ensures
            texture == packed_texture_format(self),
    {
        dma_buf_texture_format(self).unwrap()
    }

    /// Whether a consumer must ignore the alpha channel and treat the frame as
    /// opaque.
    #[must_use]
    pub fn force_opaque(self) -> (opaque: bool)
        ensures
            opaque == packed_force_opaque(self),
    {
        dma_buf_force_opaque(self)
    }
}

/// The pixel format of a shared-memory frame, as `WPEPixelFormat` reports it.
#[derive(Debug, Clone, Copy, PartialEq, Eq, Structural)]
pub enum ShmFormat {
    /// `WPE_PIXEL_FORMAT_ARGB8888`: 32 bits per pixel with the blue byte first
    /// in memory, which is the packing `DRM_FORMAT_ARGB8888` names.
    Argb8888,
}

/// The packed format that a shared-memory format is.
pub open spec fn shm_packed(format: ShmFormat) -> PackedFormat {
    match format {
        ShmFormat::Argb8888 => PackedFormat::Bgra8,
    }
}

impl ShmFormat {
    /// The packed 32-bit format this one is, so both buffer kinds answer the
    /// texture questions from one place.
    #[must_use]
    pub fn packed(self) -> (packed: PackedFormat)
        ensures
            packed == shm_packed(self),
    {
        match self {
            ShmFormat::Argb8888 => PackedFormat::Bgra8,
        }
    }

    /// The format of the texture holding these pixels.
    #[must_use]
    pub fn texture_format(self) -> (texture: TexelFormat)
        ensures
            texture == packed_texture_format(shm_packed(self)),
    {
        self.packed().texture_format()
    }

    /// Whether a consumer must ignore the alpha channel and treat the frame as
    /// opaque.
    #[must_use]
    pub fn force_opaque(self) -> (opaque: bool)
        ensures
            opaque == packed_force_opaque(shm_packed(self)),
    {
        self.packed().force_opaque()
    }
}

/// Reads a `WPEPixelFormat` value; `None` for any value WPE Platform's
/// enumeration does not define.
#[must_use]
pub fn shm_format_from_abi(value: u32) -> (format: Option<ShmFormat>)
    ensures
        format == (if value == WPE_PIXEL_FORMAT_ARGB8888 {
            Some(ShmFormat::Argb8888)
        } else {
            None
        }),
{
    if value == WPE_PIXEL_FORMAT_ARGB8888 {
        Some(ShmFormat::Argb8888)
    } else {
        None
    }
}

/// A shared-memory frame lands in the texture that a dma-buf of the packing it
/// names (`DRM_FORMAT_ARGB8888`) lands in, with the same say on its alpha.
pub proof fn both_buffer_kinds_share_one_texture_contract(format: ShmFormat)
    ensures
        packed_texture_format(shm_packed(format)) == packed_texture_format(
            packed_from_fourcc(DRM_FORMAT_ARGB8888),
        ),
        packed_force_opaque(shm_packed(format)) == packed_force_opaque(
            packed_from_fourcc(DRM_FORMAT_ARGB8888),
        ),
{
}

} // verus!
