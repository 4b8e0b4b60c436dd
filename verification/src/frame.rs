//! The two kinds of platform buffer a browser page renders into.
//!
//! WPE Platform picks the kind, not this crate. A display with a DRM render node
//! renders into a dma-buf, which imports into a texture with no copy. A display
//! without one (a container, a virtual machine, a hosted CI runner) renders into
//! shared memory, which crosses as an [`ShmFrame`] and is uploaded from its
//! mapping. Both are ordinary platform buffers, and [`BrowserFrame`] is the
//! choice between them.
//!
//! Both kinds are leased: the buffer belongs to the engine's pool and has to go
//! back once the compositor has read it.

use vstd::prelude::*;
use vstd::string::StringExecFns;

use crate::format::ShmFormat;
use crate::lease::{
    BridgeCall, LeaseStep, LeaseView, WpeFrameLease, after_step, owed_calls, step_allowed,
    step_call,
};
use crate::text::{append_decimal, decimal};

verus! {

/// Bytes per pixel in the packed 32-bit formats both buffer kinds carry.
pub const BYTES_PER_PIXEL: u32 = 4;

/// One frame of page output, in whichever buffer kind the engine rendered it
/// into.
#[derive(Debug)]
pub enum BrowserFrame<D, S> {
    /// A dma-buf, imported into a texture without a copy.
    DmaBuf(D),
    /// A shared-memory mapping, uploaded into a texture.
    Shm(S),
}

impl<D, S> BrowserFrame<D, S> {
    /// Whether the frame's contents are finished and may be read, where
    /// `dma_buf_ready` is what polling a dma-buf's rendering fence said.
    ///
    /// A dma-buf carries a rendering fence to wait on; shared-memory pixels are
    /// written by the time the bridge hands them over, so they are always ready.
    #[must_use]
    pub fn is_render_ready(&self, dma_buf_ready: bool) -> (ready: bool)
        ensures
            ready == (self is Shm || dma_buf_ready),
    {
        match self {
            BrowserFrame::DmaBuf(_) => dma_buf_ready,
            BrowserFrame::Shm(_) => true,
        }
    }
}

/// How the description of a shared-memory frame can contradict itself.
#[derive(Debug, Clone, Copy, PartialEq, Eq)]
pub enum ShmFrameFault {
    /// The frame has no pixels in one direction.
    ZeroSized,
    /// There is no mapping.
    NoPixels,
    /// One row of pixels is longer than 32 bits can say.
    RowOverflow,
    /// The rows lie closer together than they are long.
    ShortStride {
        /// Bytes between adjacent rows.
        stride: u32,
        /// Pixels in a row.
        width: u32,
    },
    /// The rows take more bytes than an address can say.
    MappingOverflow,
    /// The mapping ends before the last row does.
    ShortMapping {
        /// Bytes in the mapping.
        len: usize,
        /// Rows in the frame.
        height: u32,
        /// Bytes between adjacent rows.
        stride: u32,
    },
}

impl ShmFrameFault {
    /// What the fault says to a reader.
    pub open spec fn spec_message(self) -> Seq<char> {
        match self {
            ShmFrameFault::ZeroSized => "shared-memory frame must not be zero-sized"@,
            ShmFrameFault::NoPixels => "shared-memory frame carries no pixels"@,
            ShmFrameFault::RowOverflow => "shared-memory row length exceeds u32"@,
            ShmFrameFault::ShortStride { stride, width } => "shared-memory stride "@ + decimal(
                stride as nat,
            ) + " is shorter than a row of "@ + decimal(width as nat) + " pixels"@,
            ShmFrameFault::MappingOverflow => "shared-memory mapping exceeds usize"@,
            ShmFrameFault::ShortMapping { len, height, stride } => "shared-memory frame holds "@
                + decimal(len as nat) + " bytes for "@ + decimal(height as nat) + " rows of "@
                + decimal(stride as nat),
        }
    }

    /// The fault in words.
    #[must_use]
    pub fn message(self) -> (text: String)
        ensures
            text@ == self.spec_message(),
    {
        match self {
            ShmFrameFault::ZeroSized => String::from_str(
                "shared-memory frame must not be zero-sized",
            ),
            ShmFrameFault::NoPixels => String::from_str("shared-memory frame carries no pixels"),
            ShmFrameFault::RowOverflow => String::from_str("shared-memory row length exceeds u32"),
            ShmFrameFault::ShortStride { stride, width } => {
                let mut text = String::from_str("shared-memory stride ");
                append_decimal(&mut text, stride as u64);
                text.append(" is shorter than a row of ");
                append_decimal(&mut text, width as u64);
                text.append(" pixels");
                text
            },
            ShmFrameFault::MappingOverflow => String::from_str(
                "shared-memory mapping exceeds usize",
            ),
            ShmFrameFault::ShortMapping { len, height, stride } => {
                let mut text = String::from_str("shared-memory frame holds ");
                append_decimal(&mut text, len as u64);
                text.append(" bytes for ");
                append_decimal(&mut text, height as u64);
                text.append(" rows of ");
                append_decimal(&mut text, stride as u64);
                text
            },
        }
    }
}

/// Whether a mapping of `len` bytes holds a frame of this shape: it has pixels,
/// a row fits between two row starts, and every row lies inside.
pub open spec fn mapping_covers(width: u32, height: u32, stride: u32, len: nat) -> bool {
    &&& width > 0
    &&& height > 0
    &&& width * BYTES_PER_PIXEL <= stride
    &&& stride * height <= len
}

/// The first thing wrong with the description of a frame, where `len` is the
/// size of the mapping and `None` that there is none.
pub open spec fn shm_fault(width: u32, height: u32, stride: u32, len: Option<usize>) -> Option<
    ShmFrameFault,
> {
    if width == 0 || height == 0 {
        Some(ShmFrameFault::ZeroSized)
    } else {
        match len {
            None => Some(ShmFrameFault::NoPixels),
            Some(len) => if width * BYTES_PER_PIXEL > u32::MAX {
                Some(ShmFrameFault::RowOverflow)
            } else if stride < width * BYTES_PER_PIXEL {
                Some(ShmFrameFault::ShortStride { stride, width })
            } else if stride * height > usize::MAX {
                Some(ShmFrameFault::MappingOverflow)
            } else if len < stride * height {
                Some(ShmFrameFault::ShortMapping { len, height, stride })
            } else {
                None
            },
        }
    }
}

/// A description is free of faults exactly where the mapping is there and covers
/// the frame.
pub proof fn a_frame_is_accepted_exactly_where_its_mapping_covers_it(
    width: u32,
    height: u32,
    stride: u32,
    len: Option<usize>,
)
    ensures
        shm_fault(width, height, stride, len) is None <==> (len matches Some(len)
            && mapping_covers(width, height, stride, len as nat)),
{
}

/// One shared-memory frame: the engine's mapping, leased until it is released.
///
/// The pixels are borrowed rather than copied, so the mapping has to outlive the
/// lease this frame owns.
#[derive(Debug)]
pub struct ShmFrame<'a> {
    width: u32,
    height: u32,
    stride: u32,
    format: ShmFormat,
    data: &'a [u8],
    lease: WpeFrameLease,
}

/// What a shared-memory frame stands for.
pub struct ShmFrameView {
    /// Width in pixels.
    pub width: u32,
    /// Height in pixels.
    pub height: u32,
    /// Bytes between adjacent rows.
    pub stride: u32,
    /// The pixel format the mapping holds.
    pub format: ShmFormat,
    /// The mapping.
    pub pixels: Seq<u8>,
    /// The lease on the buffer.
    pub lease: LeaseView,
}

impl ShmFrameView {
    /// Whether the mapping covers the frame.
    pub open spec fn wf(self) -> bool {
        mapping_covers(self.width, self.height, self.stride, self.pixels.len())
    }
}

impl<'a> View for ShmFrame<'a> {
    type V = ShmFrameView;

    closed spec fn view(&self) -> ShmFrameView {
        ShmFrameView {
            width: self.width,
            height: self.height,
            stride: self.stride,
            format: self.format,
            pixels: self.data@,
            lease: self.lease@,
        }
    }
}

impl<'a> ShmFrame<'a> {
    /// Every frame has a mapping that covers it.
    #[verifier::type_invariant]
    spec fn covered(self) -> bool {
        self@.wf()
    }

    /// The first thing wrong with the description of a frame, where `len` is the
    /// size of the mapping and `None` that there is none.
    #[must_use]
    pub fn check(width: u32, height: u32, stride: u32, len: Option<usize>) -> (fault: Option<
        ShmFrameFault,
    >)
        ensures
            fault == shm_fault(width, height, stride, len),
    {
        if width == 0 || height == 0 {
            return Some(ShmFrameFault::ZeroSized);
        }
        let len: usize = match len {
            Some(len) => len,
            None => return Some(ShmFrameFault::NoPixels),
        };
        let row: u32 = match width.checked_mul(BYTES_PER_PIXEL) {
            Some(row) => row,
            None => return Some(ShmFrameFault::RowOverflow),
        };
        if stride < row {
            return Some(ShmFrameFault::ShortStride { stride, width });
        }
        let mapped: usize = match (stride as usize).checked_mul(height as usize) {
            Some(mapped) => mapped,
            None => return Some(ShmFrameFault::MappingOverflow),
        };
        if len < mapped {
            return Some(ShmFrameFault::ShortMapping { len, height, stride });
        }
        None
    }

    /// Describes a mapping the engine has finished drawing into.
    ///
    /// The description must not contradict itself, which [`Self::check`] tells.
    #[must_use]
    pub fn new(
        width: u32,
        height: u32,
        stride: u32,
        format: ShmFormat,
        data: &'a [u8],
        lease: WpeFrameLease,
    ) -> (frame: Self)
        requires
            mapping_covers(width, height, stride, data@.len()),
        ensures
            frame@ == (ShmFrameView {
                width,
                height,
                stride,
                format,
                pixels: data@,
                lease: lease@,
            }),
            frame@.wf(),
    {
        ShmFrame { width, height, stride, format, data, lease }
    }

    /// Width in pixels.
    #[must_use]
    pub fn width(&self) -> (width: u32)
        ensures
            width == self@.width,
    {
        self.width
    }

    /// Height in pixels.
    #[must_use]
    pub fn height(&self) -> (height: u32)
        ensures
            height == self@.height,
    {
        self.height
    }

    /// Bytes between adjacent rows.
    #[must_use]
    pub fn stride(&self) -> (stride: u32)
        ensures
            stride == self@.stride,
    {
        self.stride
    }

    /// The pixel format the mapping holds.
    #[must_use]
    pub fn format(&self) -> (format: ShmFormat)
        ensures
            format == self@.format,
    {
        self.format
    }

    /// The mapping itself, row-major and [`Self::stride`] bytes per row.
    #[must_use]
    pub fn pixels(&self) -> (pixels: &'a [u8])
        ensures
            pixels@ == self@.pixels,
            self@.wf(),
    {
        proof {
            use_type_invariant(self);
        }
        self.data
    }

    /// Whether the frame was already presented.
    #[must_use]
    pub fn is_presented(&self) -> (presented: bool)
        ensures
            presented == self@.lease.presented,
    {
        self.lease.is_presented()
    }

    /// Tells the engine the frame has been read, through the returned call.
    ///
    /// A frame is presented once.
    pub fn presented(&mut self) -> (call: BridgeCall)
        requires
            step_allowed(old(self)@.lease, LeaseStep::Present),
        ensures
            call == step_call(old(self)@.lease, LeaseStep::Present),
            final(self)@ == (ShmFrameView {
                lease: after_step(old(self)@.lease, LeaseStep::Present),
                ..old(self)@
            }),
    {
        proof {
            use_type_invariant(&*self);
        }
        self.lease.presented()
    }

    /// Returns the buffer to the engine, through the returned call.
    ///
    /// There is no fence to pass: the upload copies out of the mapping before
    /// this call, and a shared-memory buffer carries no GPU work to wait on. A
    /// frame is presented before it is released.
    pub fn release(self) -> (call: BridgeCall)
        requires
            step_allowed(self@.lease, LeaseStep::Release(None)),
        ensures
            call == step_call(self@.lease, LeaseStep::Release(None)),
    {
        let mut lease = self.lease;
        lease.release(None)
    }

    /// The calls to make when the frame is dropped without a release.
    #[must_use]
    pub fn drop_calls(&self) -> (calls: Vec<BridgeCall>)
        ensures
            calls@ == owed_calls(self@.lease),
    {
        self.lease.drop_calls()
    }
}

/// Every pixel of every row lies inside the mapping.
pub proof fn every_row_lies_inside_the_mapping(frame: ShmFrameView, row: nat)
    requires
        frame.wf(),
        row < frame.height,
    ensures
        row * frame.stride + frame.width * BYTES_PER_PIXEL <= frame.pixels.len(),
{
    let stride = frame.stride as int;
    let height = frame.height as int;
    assert(row * stride + stride <= stride * height) by (nonlinear_arith)
        requires
            0 <= row < height,
            0 <= stride,
    ;
}

/// No two rows share a byte: a row ends before the next one starts.
pub proof fn rows_do_not_overlap(frame: ShmFrameView, row: nat, later: nat)
    requires
        frame.wf(),
        row < later < frame.height,
    ensures
        row * frame.stride + frame.width * BYTES_PER_PIXEL <= later * frame.stride,
{
    let stride = frame.stride as int;
    assert(row * stride + stride <= later * stride) by (nonlinear_arith)
        requires
            0 <= row < later,
            0 <= stride,
    ;
}

} // verus!
