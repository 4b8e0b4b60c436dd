//! Pixel formats, leases, shared-memory frames and the bridge's records.

use vstd::prelude::*;

use crate::abi::{
    DmaBufDescription, FRAME_KIND_DMA_BUF, FRAME_KIND_SHM, FrameFault, FrameRefusal, MAX_PLANES,
    WaterWpeFrame, frame_from_abi,
};
use crate::format::{PackedFormat, ShmFormat, TexelFormat, shm_format_from_abi};
use crate::frame::{BrowserFrame, ShmFrame, ShmFrameFault};
use crate::lease::{BridgeCall, WpeFrameLease};

verus! {

/// The code that four characters spell, the first in the low byte.
pub open spec fn fourcc(first: char, second: char, third: char, fourth: char) -> int {
    first as int + 0x100 * (second as int) + 0x1_0000 * (third as int) + 0x100_0000 * (
    fourth as int)
}

/// Four codes name a packed format each, and no other code names any: `AR24` and
/// `XR24` put the blue byte first, `AB24` and `XB24` the red one, and an `X` stands
/// where the alpha would be.
pub proof fn a_code_names_its_format(value: u32, format: Option<PackedFormat>)
    requires
        call_ensures(PackedFormat::from_fourcc, (value,), format),
    ensures
        format == Some(PackedFormat::Bgra8) <==> value == fourcc('A', 'R', '2', '4'),
        format == Some(PackedFormat::Bgrx8) <==> value == fourcc('X', 'R', '2', '4'),
        format == Some(PackedFormat::Rgba8) <==> value == fourcc('A', 'B', '2', '4'),
        format == Some(PackedFormat::Rgbx8) <==> value == fourcc('X', 'B', '2', '4'),
{
}

/// No two codes name the same format.
pub proof fn different_codes_name_different_formats(
    one: u32,
    other: u32,
    format: Option<PackedFormat>,
    other_format: Option<PackedFormat>,
)
    requires
        call_ensures(PackedFormat::from_fourcc, (one,), format),
        call_ensures(PackedFormat::from_fourcc, (other,), other_format),
        one != other,
        format is Some,
    ensures
        format != other_format,
{
}

/// The order of the channels decides the texture that a format lands in.
pub proof fn the_channel_order_decides_the_texture(format: PackedFormat, texture: TexelFormat)
    requires
        call_ensures(PackedFormat::texture_format, (format,), texture),
    ensures
        texture == TexelFormat::Bgra8Unorm <==> (format == PackedFormat::Bgra8 || format
            == PackedFormat::Bgrx8),
        texture == TexelFormat::Rgba8Unorm <==> (format == PackedFormat::Rgba8 || format
            == PackedFormat::Rgbx8),
{
}

/// A frame is drawn opaque exactly where its format has no alpha of its own.
pub proof fn a_format_without_alpha_is_opaque(format: PackedFormat, opaque: bool)
    requires
        call_ensures(PackedFormat::force_opaque, (format,), opaque),
    ensures
        opaque <==> (format == PackedFormat::Bgrx8 || format == PackedFormat::Rgbx8),
{
}

/// The one pixel format of shared memory has the value zero, and no other value is
/// one.
pub proof fn only_zero_is_a_pixel_format(value: u32, format: Option<ShmFormat>)
    requires
        call_ensures(shm_format_from_abi, (value,), format),
    ensures
        format is Some <==> value == 0,
        format is Some ==> format == Some(ShmFormat::Argb8888),
{
}

/// A shared-memory format answers every question as the format that `AR24` names.
pub proof fn shared_memory_is_packed_as_ar24(
    format: ShmFormat,
    packed: PackedFormat,
    texture: TexelFormat,
    opaque: bool,
    code: u32,
    named: PackedFormat,
)
    requires
        call_ensures(ShmFormat::packed, (format,), packed),
        call_ensures(ShmFormat::texture_format, (format,), texture),
        call_ensures(ShmFormat::force_opaque, (format,), opaque),
        code == fourcc('A', 'R', '2', '4'),
        call_ensures(PackedFormat::from_fourcc, (code,), Some(named)),
    ensures
        packed == named,
        texture == TexelFormat::Bgra8Unorm,
        !opaque,
{
}

/// Only a dma-buf waits for its fence.
pub proof fn only_a_dma_buf_waits_for_its_fence<D, S>(
    frame: BrowserFrame<D, S>,
    polled: bool,
    ready: bool,
)
    requires
        call_ensures(BrowserFrame::<D, S>::is_render_ready, (&frame, polled), ready),
    ensures
        frame is DmaBuf ==> ready == polled,
        frame is Shm ==> ready,
{
}

/// A lease is what it was taken over for, and nothing was said about it yet.
pub proof fn a_new_lease_is_untouched(
    token: usize,
    lease: WpeFrameLease,
    shown: usize,
    presented: bool,
    released: bool,
    owed: Vec<BridgeCall>,
)
    requires
        call_ensures(WpeFrameLease::new, (token,), lease),
        call_ensures(WpeFrameLease::token, (&lease,), shown),
        call_ensures(WpeFrameLease::is_presented, (&lease,), presented),
        call_ensures(WpeFrameLease::is_released, (&lease,), released),
        call_ensures(WpeFrameLease::drop_calls, (&lease,), owed),
    ensures
        shown == token,
        !presented,
        !released,
        owed@.len() == 2,
        owed@[0] == (BridgeCall::FramePresented { token }),
        owed@[1] == (BridgeCall::FrameRelease { token, fence_fd: -1i32 }),
{
}

/// A lease tells its state as it is.
pub proof fn a_lease_tells_its_state(
    lease: WpeFrameLease,
    token: usize,
    presented: bool,
    released: bool,
)
    requires
        call_ensures(WpeFrameLease::token, (&lease,), token),
        call_ensures(WpeFrameLease::is_presented, (&lease,), presented),
        call_ensures(WpeFrameLease::is_released, (&lease,), released),
    ensures
        token == lease@.token,
        presented == lease@.presented,
        released == lease@.released,
        released ==> presented,
{
}

/// Presenting tells the bridge so of this buffer, and nothing else about the lease
/// changes.
pub proof fn presenting_says_so_of_this_buffer(lease: &mut WpeFrameLease, call: BridgeCall)
    requires
        call_ensures(WpeFrameLease::presented, (lease,), call),
    ensures
        call == (BridgeCall::FramePresented { token: old(lease)@.token }),
        final(lease)@.token == old(lease)@.token,
        final(lease)@.presented,
        final(lease)@.released == old(lease)@.released,
{
}

/// Releasing gives this buffer back with the fence it was given, the descriptor -1
/// where there is none, and nothing else about the lease changes.
pub proof fn releasing_gives_this_buffer_back(
    lease: &mut WpeFrameLease,
    fence: Option<i32>,
    call: BridgeCall,
)
    requires
        call_ensures(WpeFrameLease::release, (lease, fence), call),
    ensures
        call matches BridgeCall::FrameRelease { token, fence_fd } && token == old(lease)@.token
            && match fence {
            Some(fd) => fence_fd == fd,
            None => fence_fd == -1,
        },
        final(lease)@.token == old(lease)@.token,
        final(lease)@.presented == old(lease)@.presented,
        final(lease)@.released,
{
}

/// A dropped lease makes up for what the bridge has not heard: nothing once the
/// buffer went back, else the release, with the presentation before it where that is
/// missing too.
pub proof fn a_dropped_lease_makes_up_for_the_rest(lease: WpeFrameLease, calls: Vec<BridgeCall>)
    requires
        call_ensures(WpeFrameLease::drop_calls, (&lease,), calls),
    ensures
        calls@.len() == if lease@.released {
            0int
        } else if lease@.presented {
            1
        } else {
            2
        },
        !lease@.released ==> calls@.last() == (BridgeCall::FrameRelease {
            token: lease@.token,
            fence_fd: -1i32,
        }),
        !lease@.released && !lease@.presented ==> calls@[0] == (BridgeCall::FramePresented {
            token: lease@.token,
        }),
{
}

/// A description is faulty in the first of these ways that fits: no pixels in one
/// direction, no mapping, a row longer than 32 bits can say, rows closer together
/// than they are long, more bytes than an address can say, a mapping that ends too
/// soon.
pub proof fn a_description_has_the_first_fault_that_fits(
    width: u32,
    height: u32,
    stride: u32,
    len: Option<usize>,
    fault: Option<ShmFrameFault>,
)
    requires
        call_ensures(ShmFrame::check, (width, height, stride, len), fault),
    ensures
        fault == Some(ShmFrameFault::ZeroSized) <==> width == 0 || height == 0,
        fault == Some(ShmFrameFault::NoPixels) <==> width != 0 && height != 0 && len is None,
        fault == Some(ShmFrameFault::RowOverflow) <==> width != 0 && height != 0 && len is Some
            && 4 * width > 0xffff_ffff,
        fault == Some(ShmFrameFault::ShortStride { stride, width }) <==> width != 0 && height != 0
            && len is Some && stride < 4 * width <= 0xffff_ffff,
        fault == Some(ShmFrameFault::MappingOverflow) <==> width != 0 && height != 0 && len is Some
            && 4 * width <= stride && stride * height > usize::MAX,
        len matches Some(len) ==> (fault == Some(ShmFrameFault::ShortMapping { len, height, stride })
            <==> width != 0 && height != 0 && 4 * width <= stride && len < stride * height
            <= usize::MAX),
        fault is None <==> width != 0 && height != 0 && 4 * width <= stride && (len matches Some(
            len,
        ) && stride * height <= len),
{
}

/// A frame is what it was made of.
pub proof fn a_frame_is_what_it_was_made_of<'a>(
    width: u32,
    height: u32,
    stride: u32,
    format: ShmFormat,
    data: &'a [u8],
    lease: WpeFrameLease,
    frame: ShmFrame<'a>,
)
    requires
        call_ensures(ShmFrame::<'a>::new, (width, height, stride, format, data, lease), frame),
    ensures
        frame@.width == width,
        frame@.height == height,
        frame@.stride == stride,
        frame@.format == format,
        frame@.pixels == data@,
        frame@.lease == lease@,
{
}

/// A frame is made exactly where its description has no fault.
pub proof fn a_faultless_description_makes_a_frame<'a>(
    width: u32,
    height: u32,
    stride: u32,
    format: ShmFormat,
    data: &'a [u8],
    lease: WpeFrameLease,
)
    requires
        data@.len() <= usize::MAX,
        call_ensures(ShmFrame::check, (width, height, stride, Some(data@.len() as usize)), None),
    ensures
        call_requires(ShmFrame::<'a>::new, (width, height, stride, format, data, lease)),
{
}

/// A frame tells what it is as it is.
pub proof fn a_frame_tells_what_it_is<'a>(
    frame: ShmFrame<'a>,
    width: u32,
    height: u32,
    stride: u32,
    format: ShmFormat,
    pixels: &'a [u8],
    presented: bool,
)
    requires
        call_ensures(ShmFrame::<'a>::width, (&frame,), width),
        call_ensures(ShmFrame::<'a>::height, (&frame,), height),
        call_ensures(ShmFrame::<'a>::stride, (&frame,), stride),
        call_ensures(ShmFrame::<'a>::format, (&frame,), format),
        call_ensures(ShmFrame::<'a>::pixels, (&frame,), pixels),
        call_ensures(ShmFrame::<'a>::is_presented, (&frame,), presented),
    ensures
        width == frame@.width,
        height == frame@.height,
        stride == frame@.stride,
        format == frame@.format,
        pixels@ == frame@.pixels,
        presented == frame@.lease.presented,
        width > 0 && height > 0,
        4 * width <= stride,
        stride * height <= pixels@.len(),
{
}

/// Presenting a frame presents its lease, and the picture stays as it is.
pub proof fn presenting_a_frame_presents_its_lease<'a>(frame: &mut ShmFrame<'a>, call: BridgeCall)
    requires
        call_ensures(ShmFrame::<'a>::presented, (frame,), call),
    ensures
        call == (BridgeCall::FramePresented { token: old(frame)@.lease.token }),
        final(frame)@.lease.token == old(frame)@.lease.token,
        final(frame)@.lease.presented,
        final(frame)@.lease.released == old(frame)@.lease.released,
        final(frame)@.width == old(frame)@.width,
        final(frame)@.height == old(frame)@.height,
        final(frame)@.stride == old(frame)@.stride,
        final(frame)@.format == old(frame)@.format,
        final(frame)@.pixels == old(frame)@.pixels,
{
}

/// A frame goes back by its lease and without a fence, whether it is released or
/// dropped.
pub proof fn a_frame_goes_back_by_its_lease<'a>(
    frame: ShmFrame<'a>,
    call: BridgeCall,
    calls: Vec<BridgeCall>,
)
    requires
        call_ensures(ShmFrame::<'a>::release, (frame,), call),
        call_ensures(ShmFrame::<'a>::drop_calls, (&frame,), calls),
    ensures
        call == (BridgeCall::FrameRelease { token: frame@.lease.token, fence_fd: -1i32 }),
        calls@.len() == if frame@.lease.released {
            0int
        } else if frame@.lease.presented {
            1
        } else {
            2
        },
        !frame@.lease.released ==> calls@.last() == call,
        !frame@.lease.released && !frame@.lease.presented ==> calls@[0] == (
        BridgeCall::FramePresented { token: frame@.lease.token }),
{
}

/// What the bridge made of a record.
pub type Described<'a> = Result<BrowserFrame<DmaBufDescription, ShmFrame<'a>>, FrameRefusal>;

/// A record becomes a dma-buf exactly where it has pixels, is of that kind, lies
/// linearly in one plane with a descriptor and has one of the four packed codes.
pub proof fn a_record_becomes_a_dma_buf_exactly_where_it_is_one<'a>(
    frame: WaterWpeFrame<'a>,
    described: Described<'a>,
)
    requires
        call_ensures(frame_from_abi, (&frame,), described),
    ensures
        (described matches Ok(BrowserFrame::DmaBuf(_))) <==> {
            &&& frame.width != 0
            &&& frame.height != 0
            &&& frame.kind == FRAME_KIND_DMA_BUF
            &&& frame.modifier == 0
            &&& frame.n_planes == 1
            &&& frame.fds@[0] >= 0
            &&& {
                ||| frame.format == fourcc('A', 'R', '2', '4')
                ||| frame.format == fourcc('X', 'R', '2', '4')
                ||| frame.format == fourcc('A', 'B', '2', '4')
                ||| frame.format == fourcc('X', 'B', '2', '4')
            }
        },
{
}

/// A dma-buf has the size, the first plane, the modifier and the fence of its
/// record, the format that its code names, and a fresh lease on its token.
pub proof fn a_dma_buf_is_what_its_record_says<'a>(
    frame: WaterWpeFrame<'a>,
    described: Described<'a>,
    dma_buf: DmaBufDescription,
)
    requires
        call_ensures(frame_from_abi, (&frame,), described),
        described == Described::<'a>::Ok(BrowserFrame::DmaBuf(dma_buf)),
    ensures
        dma_buf.width == frame.width,
        dma_buf.height == frame.height,
        dma_buf.format == PackedFormat::Bgra8 <==> frame.format == fourcc('A', 'R', '2', '4'),
        dma_buf.format == PackedFormat::Bgrx8 <==> frame.format == fourcc('X', 'R', '2', '4'),
        dma_buf.format == PackedFormat::Rgba8 <==> frame.format == fourcc('A', 'B', '2', '4'),
        dma_buf.format == PackedFormat::Rgbx8 <==> frame.format == fourcc('X', 'B', '2', '4'),
        dma_buf.modifier == frame.modifier,
        dma_buf.plane.fd == frame.fds@[0],
        dma_buf.plane.offset == frame.offsets@[0],
        dma_buf.plane.stride == frame.strides@[0],
        dma_buf.rendering_fence is Some <==> frame.rendering_fence_fd >= 0,
        dma_buf.rendering_fence matches Some(fence) ==> fence == frame.rendering_fence_fd,
        dma_buf.lease@.token == frame.token,
        !dma_buf.lease@.presented,
        !dma_buf.lease@.released,
{
}

/// Two records with different codes are described with different formats.
pub proof fn records_with_different_codes_have_different_formats<'a>(
    one: WaterWpeFrame<'a>,
    other: WaterWpeFrame<'a>,
    dma_buf: DmaBufDescription,
    other_dma_buf: DmaBufDescription,
)
    requires
        call_ensures(
            frame_from_abi,
            (&one,),
            Described::<'a>::Ok(BrowserFrame::DmaBuf(dma_buf)),
        ),
        call_ensures(
            frame_from_abi,
            (&other,),
            Described::<'a>::Ok(BrowserFrame::DmaBuf(other_dma_buf)),
        ),
    ensures
        one.format == other.format <==> dma_buf.format == other_dma_buf.format,
{
}

/// A record becomes a shared-memory frame exactly where it has pixels, is of that
/// kind and in the one pixel format, and its mapping covers it.
pub proof fn a_record_becomes_a_mapping_exactly_where_it_is_one<'a>(
    frame: WaterWpeFrame<'a>,
    described: Described<'a>,
)
    requires
        call_ensures(frame_from_abi, (&frame,), described),
    ensures
        (described matches Ok(BrowserFrame::Shm(_))) <==> {
            &&& frame.width != 0
            &&& frame.height != 0
            &&& frame.kind == FRAME_KIND_SHM
            &&& frame.pixel_format == 0
            &&& 4 * frame.width <= frame.stride
            &&& frame.data matches Some(data) && frame.stride * frame.height <= data@.len()
        },
{
    if let Some(data) = frame.data {
        assert(data.len() == data@.len());
    }
}

/// A shared-memory frame has the size, the rows and the bytes of its record, and a
/// fresh lease on its token.
pub proof fn a_mapping_is_what_its_record_says<'a>(
    frame: WaterWpeFrame<'a>,
    described: Described<'a>,
    shm: ShmFrame<'a>,
)
    requires
        call_ensures(frame_from_abi, (&frame,), described),
        described == Described::<'a>::Ok(BrowserFrame::Shm(shm)),
    ensures
        shm@.width == frame.width,
        shm@.height == frame.height,
        shm@.stride == frame.stride,
        shm@.format == ShmFormat::Argb8888,
        frame.data matches Some(data) && shm@.pixels == data@,
        shm@.lease.token == frame.token,
        !shm@.lease.presented,
        !shm@.lease.released,
{
}

/// A refused record gives its buffer back, whatever is wrong with it: dropping its
/// lease tells the bridge both things about its token.
pub proof fn every_refusal_gives_the_buffer_back<'a>(
    frame: WaterWpeFrame<'a>,
    refusal: FrameRefusal,
    calls: Vec<BridgeCall>,
)
    requires
        call_ensures(frame_from_abi, (&frame,), Described::<'a>::Err(refusal)),
        call_ensures(WpeFrameLease::drop_calls, (&refusal.lease,), calls),
    ensures
        calls@.len() == 2,
        calls@[0] == (BridgeCall::FramePresented { token: frame.token }),
        calls@[1] == (BridgeCall::FrameRelease { token: frame.token, fence_fd: -1i32 }),
{
}

/// Which fault a record is refused for, where it is refused for its size or its
/// kind: the size comes first.
pub proof fn a_record_without_pixels_or_of_no_kind_is_refused<'a>(
    frame: WaterWpeFrame<'a>,
    described: Described<'a>,
)
    requires
        call_ensures(frame_from_abi, (&frame,), described),
    ensures
        (described matches Err(refusal) && refusal.fault is ZeroSized) <==> frame.width == 0
            || frame.height == 0,
        (described matches Err(refusal) && refusal.fault is UnknownKind) <==> frame.width != 0
            && frame.height != 0 && frame.kind != FRAME_KIND_DMA_BUF && frame.kind
            != FRAME_KIND_SHM,
        described matches Err(refusal) ==> (refusal.fault matches FrameFault::UnknownKind(kind)
            ==> kind == frame.kind),
{
}

/// Which fault a dma-buf record is refused for: its layout comes first, then the
/// count of its planes, then its descriptor, then its code. Each fault carries what
/// the record says.
pub proof fn a_faulty_dma_buf_is_refused_for_its_first_fault<'a>(
    frame: WaterWpeFrame<'a>,
    described: Described<'a>,
)
    requires
        call_ensures(frame_from_abi, (&frame,), described),
        frame.width != 0,
        frame.height != 0,
        frame.kind == FRAME_KIND_DMA_BUF,
    ensures
        (described matches Err(refusal) && refusal.fault == FrameFault::NonLinearModifier(
            frame.modifier,
        )) <==> frame.modifier != 0,
        (described matches Err(refusal) && refusal.fault == FrameFault::PlaneCount(
            frame.n_planes as usize,
        )) <==> frame.modifier == 0 && (frame.n_planes == 0 || frame.n_planes > MAX_PLANES),
        (described matches Err(refusal) && refusal.fault == FrameFault::NotOnePlane(
            frame.n_planes as usize,
        )) <==> frame.modifier == 0 && 1 < frame.n_planes <= MAX_PLANES,
        (described matches Err(refusal) && refusal.fault is InvalidPlaneDescriptor)
            <==> frame.modifier == 0 && frame.n_planes == 1 && frame.fds@[0] < 0,
        (described matches Err(refusal) && refusal.fault == FrameFault::UnsupportedFourcc(
            frame.format,
        )) <==> frame.modifier == 0 && frame.n_planes == 1 && frame.fds@[0] >= 0 && frame.format
            != fourcc('A', 'R', '2', '4') && frame.format != fourcc('X', 'R', '2', '4')
            && frame.format != fourcc('A', 'B', '2', '4') && frame.format != fourcc(
            'X',
            'B',
            '2',
            '4',
        ),
{
}

/// Which fault a shared-memory record is refused for: its pixel format comes first,
/// and then what is wrong with a frame of this description.
pub proof fn a_faulty_mapping_is_refused_for_its_first_fault<'a>(
    frame: WaterWpeFrame<'a>,
    described: Described<'a>,
    len: Option<usize>,
    fault: Option<ShmFrameFault>,
)
    requires
        call_ensures(frame_from_abi, (&frame,), described),
        frame.width != 0,
        frame.height != 0,
        frame.kind == FRAME_KIND_SHM,
        match (frame.data, len) {
            (Some(data), Some(len)) => data@.len() == len,
            (None, None) => true,
            _ => false,
        },
        call_ensures(ShmFrame::check, (frame.width, frame.height, frame.stride, len), fault),
    ensures
        (described matches Err(refusal) && refusal.fault == FrameFault::UnsupportedPixelFormat(
            frame.pixel_format,
        )) <==> frame.pixel_format != 0,
        frame.pixel_format == 0 ==> match fault {
            Some(fault) => described matches Err(refusal) && refusal.fault == FrameFault::Shm(
                fault,
            ),
            None => described is Ok,
        },
{
}

/// A refusal for the code has taken over the fence, where there is one, and the
/// plane, to be closed in this order; any other refusal has taken over no
/// descriptor.
pub proof fn only_a_refusal_for_the_code_holds_descriptors<'a>(
    frame: WaterWpeFrame<'a>,
    refusal: FrameRefusal,
)
    requires
        call_ensures(frame_from_abi, (&frame,), Described::<'a>::Err(refusal)),
    ensures
        !(refusal.fault is UnsupportedFourcc) ==> refusal.descriptors@.len() == 0,
        refusal.fault is UnsupportedFourcc ==> {
            &&& refusal.descriptors@.last() == frame.fds@[0]
            &&& refusal.descriptors@.len() == if frame.rendering_fence_fd >= 0 {
                2int
            } else {
                1
            }
            &&& frame.rendering_fence_fd >= 0 ==> refusal.descriptors@[0]
                == frame.rendering_fence_fd
        },
{
}

/// Every record is read, and every code, pixel format and description judged.
pub proof fn whatever_the_bridge_says_is_read<'a>(
    frame: WaterWpeFrame<'a>,
    value: u32,
    width: u32,
    height: u32,
    stride: u32,
    len: Option<usize>,
)
    ensures
        call_requires(frame_from_abi, (&frame,)),
        call_requires(PackedFormat::from_fourcc, (value,)),
        call_requires(shm_format_from_abi, (value,)),
        call_requires(ShmFrame::check, (width, height, stride, len)),
{
}

/// A frame is presented where it was not yet, and released where it was presented
/// and has not gone back, with any fence or none; it can be dropped at any time.
pub proof fn a_lease_takes_the_steps_of_the_protocol<'a>(
    lease: &mut WpeFrameLease,
    frame: &mut ShmFrame<'a>,
    fence: Option<i32>,
)
    ensures
        !old(lease)@.presented ==> call_requires(WpeFrameLease::presented, (lease,)),
        old(lease)@.presented && !old(lease)@.released ==> call_requires(
            WpeFrameLease::release,
            (lease, fence),
        ),
        call_requires(WpeFrameLease::drop_calls, (&*old(lease),)),
        !old(frame)@.lease.presented ==> call_requires(ShmFrame::<'a>::presented, (frame,)),
        old(frame)@.lease.presented && !old(frame)@.lease.released ==> call_requires(
            ShmFrame::<'a>::release,
            (*old(frame),),
        ),
        call_requires(ShmFrame::<'a>::drop_calls, (&*old(frame),)),
{
}

} // verus!
