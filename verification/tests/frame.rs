use std::sync::Arc;
use std::sync::atomic::{AtomicUsize, Ordering};

use browser_wpe::frame::BYTES_PER_PIXEL;
use browser_wpe::{
    BridgeCall, BrowserFrame, PackedFormat, ShmFormat, ShmFrame, ShmFrameFault, TexelFormat,
    WpeFrameLease,
};

/// The bridge's side of a lease, counting what it is told.
struct CountingBridge {
    presented: Arc<AtomicUsize>,
    released: Arc<AtomicUsize>,
}

impl CountingBridge {
    fn call(&self, call: BridgeCall) {
        match call {
            BridgeCall::FramePresented { .. } => {
                self.presented.fetch_add(1, Ordering::Relaxed);
            }
            BridgeCall::FrameRelease { fence_fd, .. } => {
                assert_eq!(fence_fd, -1, "a shared-memory frame has no fence");
                self.released.fetch_add(1, Ordering::Relaxed);
            }
        }
    }
}

fn frame(pixels: &[u8], stride: u32) -> ShmFrame<'_> {
    if let Some(fault) = ShmFrame::check(4, 2, stride, Some(pixels.len())) {
        panic!("{}", fault.message());
    }
    ShmFrame::new(
        4,
        2,
        stride,
        ShmFormat::Argb8888,
        pixels,
        WpeFrameLease::new(0x1000),
    )
}

fn wgpu_format(format: TexelFormat) -> wgpu::TextureFormat {
    match format {
        TexelFormat::Bgra8Unorm => wgpu::TextureFormat::Bgra8Unorm,
        TexelFormat::Rgba8Unorm => wgpu::TextureFormat::Rgba8Unorm,
    }
}

#[test]
fn shm_formats_map_onto_the_texture_contract_the_dma_buf_path_produces() {
    let format = ShmFormat::Argb8888;
    assert_eq!(
        wgpu_format(format.texture_format()),
        wgpu::TextureFormat::Bgra8Unorm,
        "WPE_PIXEL_FORMAT_ARGB8888 is the packing DRM_FORMAT_ARGB8888 names"
    );
    assert!(
        !format.force_opaque(),
        "an ARGB frame's alpha channel is the page's own"
    );
    assert_eq!(
        wgpu_format(format.texture_format()).block_copy_size(None),
        Some(BYTES_PER_PIXEL),
        "the mapping is packed 32-bit, which is what the stride check assumes"
    );
}

#[test]
fn a_padded_mapping_keeps_its_stride_and_its_lease() {
    let presented = Arc::new(AtomicUsize::new(0));
    let released = Arc::new(AtomicUsize::new(0));
    let bridge = CountingBridge {
        presented: Arc::clone(&presented),
        released: Arc::clone(&released),
    };
    let pixels = vec![0x7fu8; 64];
    let mut shm = frame(&pixels, 32);
    assert_eq!(shm.stride(), 32, "a padded row keeps the engine's stride");
    assert_eq!(shm.pixels().len(), pixels.len());
    bridge.call(shm.presented());
    bridge.call(shm.release());
    assert_eq!(presented.load(Ordering::Relaxed), 1);
    assert_eq!(released.load(Ordering::Relaxed), 1);
}

#[test]
#[should_panic(expected = "shared-memory frame holds 32 bytes for 2 rows of 32")]
fn a_mapping_shorter_than_its_rows_fails_fast() {
    let pixels = vec![0u8; 32];
    let _ = frame(&pixels, 32);
}

#[test]
#[should_panic(expected = "shared-memory stride 8 is shorter than a row of 4 pixels")]
fn a_stride_shorter_than_a_row_fails_fast() {
    let pixels = vec![0u8; 64];
    let _ = frame(&pixels, 8);
}

#[test]
fn every_fault_of_a_description_is_told() {
    for (description, fault, message) in [
        (
            (0, 2, 32, Some(64)),
            ShmFrameFault::ZeroSized,
            "shared-memory frame must not be zero-sized",
        ),
        (
            (4, 0, 32, None),
            ShmFrameFault::ZeroSized,
            "shared-memory frame must not be zero-sized",
        ),
        (
            (4, 2, 8, None),
            ShmFrameFault::NoPixels,
            "shared-memory frame carries no pixels",
        ),
        (
            (0x4000_0000, 2, 32, Some(64)),
            ShmFrameFault::RowOverflow,
            "shared-memory row length exceeds u32",
        ),
        (
            (4, 2, 15, Some(64)),
            ShmFrameFault::ShortStride {
                stride: 15,
                width: 4,
            },
            "shared-memory stride 15 is shorter than a row of 4 pixels",
        ),
        (
            (4, 2, 32, Some(63)),
            ShmFrameFault::ShortMapping {
                len: 63,
                height: 2,
                stride: 32,
            },
            "shared-memory frame holds 63 bytes for 2 rows of 32",
        ),
    ] {
        let (width, height, stride, len) = description;
        assert_eq!(ShmFrame::check(width, height, stride, len), Some(fault));
        assert_eq!(fault.message(), message);
    }
    assert_eq!(
        ShmFrameFault::MappingOverflow.message(),
        "shared-memory mapping exceeds usize"
    );
    assert_eq!(ShmFrame::check(4, 2, 16, Some(32)), None);
    assert_eq!(ShmFrame::check(4, 2, 32, Some(1000)), None);
}

#[test]
fn a_frame_says_what_it_was_made_of() {
    let pixels: Vec<u8> = (0..64).collect();
    let shm = frame(&pixels, 32);
    assert_eq!((shm.width(), shm.height()), (4, 2));
    assert_eq!(shm.format(), ShmFormat::Argb8888);
    assert_eq!(shm.pixels(), pixels.as_slice());
    assert!(!shm.is_presented());
}

#[test]
fn a_dropped_frame_still_owes_the_bridge() {
    let pixels = vec![0u8; 64];
    let mut shm = frame(&pixels, 32);
    let presented = BridgeCall::FramePresented { token: 0x1000 };
    let released = BridgeCall::FrameRelease {
        token: 0x1000,
        fence_fd: -1,
    };
    assert_eq!(shm.drop_calls(), [presented, released]);
    assert_eq!(shm.presented(), presented);
    assert!(shm.is_presented());
    assert_eq!(shm.drop_calls(), [released]);
}

#[test]
fn only_a_dma_buf_waits_for_its_fence() {
    let dma_buf: BrowserFrame<u8, u8> = BrowserFrame::DmaBuf(0);
    assert!(dma_buf.is_render_ready(true));
    assert!(!dma_buf.is_render_ready(false));
    let shm: BrowserFrame<u8, u8> = BrowserFrame::Shm(0);
    assert!(shm.is_render_ready(false));
}

#[test]
fn the_packed_formats_answer_for_their_codes() {
    for (code, format, texture, opaque) in [
        (b"AR24", PackedFormat::Bgra8, TexelFormat::Bgra8Unorm, false),
        (b"XR24", PackedFormat::Bgrx8, TexelFormat::Bgra8Unorm, true),
        (b"AB24", PackedFormat::Rgba8, TexelFormat::Rgba8Unorm, false),
        (b"XB24", PackedFormat::Rgbx8, TexelFormat::Rgba8Unorm, true),
    ] {
        let read = PackedFormat::from_fourcc(u32::from_le_bytes(*code));
        assert_eq!(read, Some(format));
        assert_eq!(format.texture_format(), texture);
        assert_eq!(format.force_opaque(), opaque);
    }
    assert_eq!(
        PackedFormat::from_fourcc(u32::from_le_bytes(*b"NV12")),
        None
    );
    assert_eq!(ShmFormat::Argb8888.packed(), PackedFormat::Bgra8);
}
