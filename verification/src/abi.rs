//! Frames as the bridge reports them, and what becomes of each.
//!
//! The bridge fills one record per frame, whatever buffer kind it is in. Reading
//! one takes over the buffer behind its token, so a record that cannot be
//! described still has to give its buffer back: the refusal carries the lease.

use vstd::prelude::*;
use vstd::string::StringExecFns;

use crate::format::{
    PackedFormat, ShmFormat, WPE_PIXEL_FORMAT_ARGB8888, is_packed_fourcc, packed_from_fourcc,
    shm_format_from_abi,
};
use crate::frame::{
    BrowserFrame, ShmFrame, ShmFrameFault, ShmFrameView,
    a_frame_is_accepted_exactly_where_its_mapping_covers_it, mapping_covers, shm_fault,
};
use crate::lease::{BridgeCall, NO_FENCE, WpeFrameLease, fresh_lease, owed_calls};
use crate::text::{
    append_decimal, append_hexadecimal, decimal, decimal_text, hexadecimal, unequal, unequal_text,
};

verus! {

/// The version of the bridge interface this library speaks.
pub const ABI_VERSION: u32 = 1;

/// The frame kind of a dma-buf.
pub const FRAME_KIND_DMA_BUF: u32 = 0;

/// The frame kind of a shared-memory mapping.
pub const FRAME_KIND_SHM: u32 = 1;

/// How many planes a frame record has room for.
pub const MAX_PLANES: usize = 4;

/// The modifier of a dma-buf whose rows follow each other in memory.
pub const DRM_FORMAT_MOD_LINEAR: u64 = 0;

/// One frame as the bridge reports it.
#[derive(Debug, Clone, Copy)]
pub struct WaterWpeFrame<'a> {
    /// The buffer kind.
    pub kind: u32,
    /// Width in pixels.
    pub width: u32,
    /// Height in pixels.
    pub height: u32,
    /// The bridge's token for the buffer.
    pub token: usize,
    /// The DRM `fourcc` code of a dma-buf.
    pub format: u32,
    /// The DRM format modifier of a dma-buf.
    pub modifier: u64,
    /// How many planes of a dma-buf are filled in.
    pub n_planes: u32,
    /// The descriptors of a dma-buf's planes.
    pub fds: [i32; MAX_PLANES],
    /// The byte offsets of a dma-buf's planes.
    pub offsets: [u32; MAX_PLANES],
    /// The row distances of a dma-buf's planes.
    pub strides: [u32; MAX_PLANES],
    /// The rendering fence of a dma-buf, negative when there is none.
    pub rendering_fence_fd: i32,
    /// The row distance of a shared-memory mapping.
    pub stride: u32,
    /// The `WPEPixelFormat` of a shared-memory mapping.
    pub pixel_format: u32,
    /// The shared-memory mapping, `None` for a null address.
    pub data: Option<&'a [u8]>,
}

/// One plane of a dma-buf.
#[derive(Debug, Clone, Copy, PartialEq, Eq)]
pub struct DmaBufPlane {
    /// The descriptor of the plane, owned by the frame.
    pub fd: i32,
    /// Byte offset of the plane.
    pub offset: u32,
    /// Bytes between adjacent rows.
    pub stride: u32,
}

/// One dma-buf frame: its single packed plane, its fence and its lease.
#[derive(Debug, PartialEq, Eq)]
pub struct DmaBufDescription {
    /// Width in pixels.
    pub width: u32,
    /// Height in pixels.
    pub height: u32,
    /// Pixel format.
    pub format: PackedFormat,
    /// DRM format modifier.
    pub modifier: u64,
    /// The plane.
    pub plane: DmaBufPlane,
    /// The descriptor of the rendering fence, owned by the frame.
    pub rendering_fence: Option<i32>,
    /// The lease on the buffer.
    pub lease: WpeFrameLease,
}

/// What makes a frame record one that this library cannot describe.
#[derive(Debug, Clone, Copy, PartialEq, Eq)]
pub enum FrameFault {
    /// The frame has no pixels in one direction.
    ZeroSized,
    /// The buffer kind is neither of the two.
    UnknownKind(u32),
    /// The dma-buf is not laid out linearly but by this modifier.
    NonLinearModifier(u64),
    /// No dma-buf has this many planes.
    PlaneCount(usize),
    /// The dma-buf has this many planes, not the one packed plane.
    NotOnePlane(usize),
    /// The plane has no descriptor.
    InvalidPlaneDescriptor,
    /// The `fourcc` code names none of the packed formats.
    UnsupportedFourcc(u32),
    /// The pixel format is none that `WPEPixelFormat` defines.
    UnsupportedPixelFormat(u32),
    /// The description of the shared-memory mapping contradicts itself.
    Shm(ShmFrameFault),
}

impl FrameFault {
    /// What the fault says to a reader.
    pub open spec fn spec_message(self) -> Seq<char> {
        match self {
            FrameFault::ZeroSized => "WPE returned a zero-sized frame"@,
            FrameFault::UnknownKind(kind) => "bundled WPE returned unknown frame kind "@ + decimal(
                kind as nat,
            ),
            FrameFault::NonLinearModifier(modifier) => unequal(
                "bundled WPE must negotiate DRM_FORMAT_MOD_LINEAR"@,
                decimal(modifier as nat),
                decimal(DRM_FORMAT_MOD_LINEAR as nat),
            ),
            FrameFault::PlaneCount(count) => "WPE returned invalid DMA-BUF plane count "@ + decimal(
                count as nat,
            ),
            FrameFault::NotOnePlane(count) => unequal(
                "WaterUI's WPE output contract requires one packed 32-bit plane"@,
                decimal(count as nat),
                decimal(1),
            ),
            FrameFault::InvalidPlaneDescriptor => "WPE DMA-BUF plane fd is invalid"@,
            FrameFault::UnsupportedFourcc(value) => "unsupported DMA-BUF DRM fourcc 0x"@
                + hexadecimal(value as nat, 8),
            FrameFault::UnsupportedPixelFormat(value) =>
                "unsupported WPE shared-memory pixel format "@ + decimal(value as nat)
                + "; the bridge carries WPE_PIXEL_FORMAT_ARGB8888"@,
            FrameFault::Shm(fault) => fault.spec_message(),
        }
    }

    /// The fault in words.
    #[must_use]
    pub fn message(self) -> (text: String)
        ensures
            text@ == self.spec_message(),
    {
        match self {
            FrameFault::ZeroSized => String::from_str("WPE returned a zero-sized frame"),
            FrameFault::UnknownKind(kind) => {
                let mut text = String::from_str("bundled WPE returned unknown frame kind ");
                append_decimal(&mut text, kind as u64);
                text
            },
            FrameFault::NonLinearModifier(modifier) => unequal_text(
                "bundled WPE must negotiate DRM_FORMAT_MOD_LINEAR",
                decimal_text(modifier).as_str(),
                decimal_text(DRM_FORMAT_MOD_LINEAR).as_str(),
            ),
            FrameFault::PlaneCount(count) => {
                let mut text = String::from_str("WPE returned invalid DMA-BUF plane count ");
                append_decimal(&mut text, count as u64);
                text
            },
            FrameFault::NotOnePlane(count) => unequal_text(
                "WaterUI's WPE output contract requires one packed 32-bit plane",
                decimal_text(count as u64).as_str(),
                decimal_text(1).as_str(),
            ),
            FrameFault::InvalidPlaneDescriptor => String::from_str(
                "WPE DMA-BUF plane fd is invalid",
            ),
            FrameFault::UnsupportedFourcc(value) => {
                let mut text = String::from_str("unsupported DMA-BUF DRM fourcc 0x");
                append_hexadecimal(&mut text, value, 8);
                text
            },
            FrameFault::UnsupportedPixelFormat(value) => {
                let mut text = String::from_str("unsupported WPE shared-memory pixel format ");
                append_decimal(&mut text, value as u64);
                text.append("; the bridge carries WPE_PIXEL_FORMAT_ARGB8888");
                text
            },
            FrameFault::Shm(fault) => fault.message(),
        }
    }
}

/// A frame record that could not be described, with everything of it that was
/// taken over and has to be given back.
#[derive(Debug, PartialEq, Eq)]
pub struct FrameRefusal {
    /// What is wrong with the record.
    pub fault: FrameFault,
    /// Descriptors that were taken over, in the order to close them.
    pub descriptors: Vec<i32>,
    /// The lease on the buffer.
    pub lease: WpeFrameLease,
}

/// The first thing wrong with a record as a dma-buf.
pub open spec fn dma_buf_fault(frame: &WaterWpeFrame) -> Option<FrameFault> {
    if frame.modifier != DRM_FORMAT_MOD_LINEAR {
        Some(FrameFault::NonLinearModifier(frame.modifier))
    } else if frame.n_planes < 1 || frame.n_planes > MAX_PLANES {
        Some(FrameFault::PlaneCount(frame.n_planes as usize))
    } else if frame.n_planes != 1 {
        Some(FrameFault::NotOnePlane(frame.n_planes as usize))
    } else if frame.fds@[0] < 0 {
        Some(FrameFault::InvalidPlaneDescriptor)
    } else if !is_packed_fourcc(frame.format) {
        Some(FrameFault::UnsupportedFourcc(frame.format))
    } else {
        None
    }
}

/// The size of the mapping behind a record.
pub open spec fn mapping_len(frame: &WaterWpeFrame) -> Option<usize> {
    match frame.data {
        Some(data) => Some(data@.len() as usize),
        None => None,
    }
}

/// The first thing wrong with a record as a shared-memory mapping.
pub open spec fn shm_record_fault(frame: &WaterWpeFrame) -> Option<FrameFault> {
    if frame.pixel_format != WPE_PIXEL_FORMAT_ARGB8888 {
        Some(FrameFault::UnsupportedPixelFormat(frame.pixel_format))
    } else {
        match shm_fault(frame.width, frame.height, frame.stride, mapping_len(frame)) {
            Some(fault) => Some(FrameFault::Shm(fault)),
            None => None,
        }
    }
}

/// The first thing wrong with a record.
pub open spec fn frame_fault(frame: &WaterWpeFrame) -> Option<FrameFault> {
    if frame.width == 0 || frame.height == 0 {
        Some(FrameFault::ZeroSized)
    } else if frame.kind == FRAME_KIND_DMA_BUF {
        dma_buf_fault(frame)
    } else if frame.kind == FRAME_KIND_SHM {
        shm_record_fault(frame)
    } else {
        Some(FrameFault::UnknownKind(frame.kind))
    }
}

/// The fence of a dma-buf record.
pub open spec fn record_fence(frame: &WaterWpeFrame) -> Option<i32> {
    if frame.rendering_fence_fd >= 0 {
        Some(frame.rendering_fence_fd)
    } else {
        None
    }
}

/// The descriptors of a record that a refusal with `fault` has taken over: all
/// of them where only the format was left to read, else none.
pub open spec fn taken_descriptors(frame: &WaterWpeFrame, fault: FrameFault) -> Seq<i32> {
    if fault is UnsupportedFourcc {
        match record_fence(frame) {
            Some(fence) => seq![fence, frame.fds@[0]],
            None => seq![frame.fds@[0]],
        }
    } else {
        seq![]
    }
}

/// Whether `described` is the dma-buf that the record says.
pub open spec fn describes_dma_buf(described: DmaBufDescription, frame: &WaterWpeFrame) -> bool {
    &&& described.width == frame.width
    &&& described.height == frame.height
    &&& described.format == packed_from_fourcc(frame.format)
    &&& described.modifier == frame.modifier
    &&& described.plane == (DmaBufPlane {
        fd: frame.fds@[0],
        offset: frame.offsets@[0],
        stride: frame.strides@[0],
    })
    &&& described.rendering_fence == record_fence(frame)
}

/// The shared-memory frame that the record says, leased by its token.
pub open spec fn described_shm(frame: &WaterWpeFrame) -> ShmFrameView {
    ShmFrameView {
        width: frame.width,
        height: frame.height,
        stride: frame.stride,
        format: ShmFormat::Argb8888,
        pixels: frame.data->0@,
        lease: fresh_lease(frame.token),
    }
}

/// Whether `refusal` is what becomes of a record that cannot be described: the
/// first thing wrong with it, and what was taken over by then.
pub open spec fn refuses(refusal: FrameRefusal, frame: &WaterWpeFrame) -> bool {
    &&& frame_fault(frame) == Some(refusal.fault)
    &&& refusal.descriptors@ == taken_descriptors(frame, refusal.fault)
    &&& refusal.lease@ == fresh_lease(frame.token)
}

/// Builds an owned frame from a WPE bridge frame, taking over its descriptors
/// and its token.
///
/// A record that cannot be described is refused: a zero-sized one, an unknown
/// buffer kind, or a buffer whose own fields contradict each other. The lease is
/// taken before anything is examined, so that every refusal carries the buffer to
/// give back.
pub fn frame_from_abi<'a>(frame: &WaterWpeFrame<'a>) -> (described: Result<
    BrowserFrame<DmaBufDescription, ShmFrame<'a>>,
    FrameRefusal,
>)
    ensures
        match described {
            Ok(BrowserFrame::DmaBuf(dma_buf)) => {
                &&& frame_fault(frame) is None
                &&& frame.kind == FRAME_KIND_DMA_BUF
                &&& describes_dma_buf(dma_buf, frame)
                &&& dma_buf.lease@ == fresh_lease(frame.token)
            },
            Ok(BrowserFrame::Shm(shm)) => {
                &&& frame_fault(frame) is None
                &&& frame.kind == FRAME_KIND_SHM
                &&& shm@ == described_shm(frame)
                &&& shm@.wf()
            },
            Err(refusal) => refuses(refusal, frame),
        },
{
    let lease = WpeFrameLease::new(frame.token);
    if frame.width == 0 || frame.height == 0 {
        return Err(refused(FrameFault::ZeroSized, lease));
    }
    if frame.kind == FRAME_KIND_DMA_BUF {
        match dma_buf_from_abi(frame, lease) {
            Ok(dma_buf) => Ok(BrowserFrame::DmaBuf(dma_buf)),
            Err(refusal) => Err(refusal),
        }
    } else if frame.kind == FRAME_KIND_SHM {
        match shm_from_abi(frame, lease) {
            Ok(shm) => Ok(BrowserFrame::Shm(shm)),
            Err(refusal) => Err(refusal),
        }
    } else {
        Err(refused(FrameFault::UnknownKind(frame.kind), lease))
    }
}

/// A refusal that took over nothing but the lease.
fn refused(fault: FrameFault, lease: WpeFrameLease) -> (refusal: FrameRefusal)
    ensures
        refusal.fault == fault,
        refusal.descriptors@ == Seq::<i32>::empty(),
        refusal.lease == lease,
{
    FrameRefusal { fault, descriptors: Vec::new(), lease }
}

/// Reads a record as a dma-buf.
fn dma_buf_from_abi(frame: &WaterWpeFrame, lease: WpeFrameLease) -> (described: Result<
    DmaBufDescription,
    FrameRefusal,
>)
    ensures
        match described {
            Ok(dma_buf) => {
                &&& dma_buf_fault(frame) is None
                &&& describes_dma_buf(dma_buf, frame)
                &&& dma_buf.lease == lease
            },
            Err(refusal) => {
                &&& dma_buf_fault(frame) == Some(refusal.fault)
                &&& refusal.descriptors@ == taken_descriptors(frame, refusal.fault)
                &&& refusal.lease == lease
            },
        },
{
    if frame.modifier != DRM_FORMAT_MOD_LINEAR {
        return Err(refused(FrameFault::NonLinearModifier(frame.modifier), lease));
    }
    let n_planes: usize = frame.n_planes as usize;
    if n_planes < 1 || n_planes > MAX_PLANES {
        return Err(refused(FrameFault::PlaneCount(n_planes), lease));
    }
    if n_planes != 1 {
        return Err(refused(FrameFault::NotOnePlane(n_planes), lease));
    }
    if frame.fds[0] < 0 {
        return Err(refused(FrameFault::InvalidPlaneDescriptor, lease));
    }
    let plane = DmaBufPlane {
        fd: frame.fds[0],
        offset: frame.offsets[0],
        stride: frame.strides[0],
    };
    let rendering_fence: Option<i32> = if frame.rendering_fence_fd >= 0 {
        Some(frame.rendering_fence_fd)
    } else {
        None
    };
    match PackedFormat::from_fourcc(frame.format) {
        Some(format) => Ok(
            DmaBufDescription {
                width: frame.width,
                height: frame.height,
                format,
                modifier: frame.modifier,
                plane,
                rendering_fence,
                lease,
            },
        ),
        None => {
            let mut descriptors: Vec<i32> = Vec::new();
            if let Some(fence) = rendering_fence {
                descriptors.push(fence);
            }
            descriptors.push(plane.fd);
            Err(
                FrameRefusal {
                    fault: FrameFault::UnsupportedFourcc(frame.format),
                    descriptors,
                    lease,
                },
            )
        },
    }
}

/// Reads a record as a shared-memory mapping.
fn shm_from_abi<'a>(frame: &WaterWpeFrame<'a>, lease: WpeFrameLease) -> (described: Result<
    ShmFrame<'a>,
    FrameRefusal,
>)
    ensures
        match described {
            Ok(shm) => {
                &&& shm_record_fault(frame) is None
                &&& shm@ == (ShmFrameView { lease: lease@, ..described_shm(frame) })
                &&& shm@.wf()
            },
            Err(refusal) => {
                &&& shm_record_fault(frame) == Some(refusal.fault)
                &&& refusal.descriptors@ == Seq::<i32>::empty()
                &&& refusal.lease == lease
            },
        },
{
    let format = match shm_format_from_abi(frame.pixel_format) {
        Some(format) => format,
        None => return Err(refused(FrameFault::UnsupportedPixelFormat(frame.pixel_format), lease)),
    };
    let len: Option<usize> = match frame.data {
        Some(data) => Some(data.len()),
        None => None,
    };
    match (ShmFrame::check(frame.width, frame.height, frame.stride, len), frame.data) {
        (Some(fault), _) => Err(refused(FrameFault::Shm(fault), lease)),
        (None, Some(data)) => Ok(
            ShmFrame::new(frame.width, frame.height, frame.stride, format, data, lease),
        ),
        (None, None) => Err(refused(FrameFault::Shm(ShmFrameFault::NoPixels), lease)),
    }
}

/// A record is described exactly where it is one of two things: a linear dma-buf
/// of one packed plane with a descriptor, or a mapping in the one pixel format
/// that covers its frame.
pub proof fn a_record_is_described_exactly_where_it_is_a_packed_picture(frame: &WaterWpeFrame)
    ensures
        frame_fault(frame) is None <==> frame.width > 0 && frame.height > 0 && ({
            ||| {
                &&& frame.kind == FRAME_KIND_DMA_BUF
                &&& frame.modifier == DRM_FORMAT_MOD_LINEAR
                &&& frame.n_planes == 1
                &&& frame.fds@[0] >= 0
                &&& is_packed_fourcc(frame.format)
            }
            ||| {
                &&& frame.kind == FRAME_KIND_SHM
                &&& frame.pixel_format == WPE_PIXEL_FORMAT_ARGB8888
                &&& frame.data matches Some(data) && mapping_covers(
                    frame.width,
                    frame.height,
                    frame.stride,
                    data@.len(),
                )
            }
        }),
{
    if let Some(data) = frame.data {
        assert(data.len() == data@.len());
    }
    a_frame_is_accepted_exactly_where_its_mapping_covers_it(
        frame.width,
        frame.height,
        frame.stride,
        mapping_len(frame),
    );
}

/// A refused record still gives its buffer back: the lease that comes with the
/// refusal owes the bridge both calls of the protocol, whatever the fault.
pub proof fn a_refused_frame_still_returns_its_buffer(frame: &WaterWpeFrame, refusal: FrameRefusal)
    requires
        refuses(refusal, frame),
    ensures
        owed_calls(refusal.lease@) == seq![
            BridgeCall::FramePresented { token: frame.token },
            BridgeCall::FrameRelease { token: frame.token, fence_fd: NO_FENCE },
        ],
{
}

} // verus!
