use browser_wpe::abi::{DRM_FORMAT_MOD_LINEAR, FRAME_KIND_DMA_BUF, FRAME_KIND_SHM};
use browser_wpe::format::{DRM_FORMAT_XBGR8888, WPE_PIXEL_FORMAT_ARGB8888};
use browser_wpe::{
    BridgeCall, BrowserFrame, DmaBufPlane, FrameFault, FrameRefusal, PackedFormat, ShmFormat,
    ShmFrameFault, WaterWpeFrame, frame_from_abi,
};

const TOKEN: usize = 0xbeef;

fn dma_buf() -> WaterWpeFrame<'static> {
    WaterWpeFrame {
        kind: FRAME_KIND_DMA_BUF,
        width: 640,
        height: 360,
        token: TOKEN,
        format: DRM_FORMAT_XBGR8888,
        modifier: DRM_FORMAT_MOD_LINEAR,
        n_planes: 1,
        fds: [11, 0, 0, 0],
        offsets: [64, 0, 0, 0],
        strides: [2560, 0, 0, 0],
        rendering_fence_fd: 12,
        stride: 0,
        pixel_format: 0,
        data: None,
    }
}

fn shm(data: &[u8]) -> WaterWpeFrame<'_> {
    WaterWpeFrame {
        kind: FRAME_KIND_SHM,
        width: 4,
        height: 2,
        stride: 32,
        pixel_format: WPE_PIXEL_FORMAT_ARGB8888,
        data: Some(data),
        ..dma_buf()
    }
}

fn refusal(frame: &WaterWpeFrame) -> FrameRefusal {
    match frame_from_abi(frame) {
        Err(refusal) => refusal,
        Ok(_) => panic!("the record has a fault"),
    }
}

fn owed(refusal: &FrameRefusal) -> Vec<BridgeCall> {
    refusal.lease.drop_calls()
}

fn returned() -> Vec<BridgeCall> {
    vec![
        BridgeCall::FramePresented { token: TOKEN },
        BridgeCall::FrameRelease {
            token: TOKEN,
            fence_fd: -1,
        },
    ]
}

#[test]
fn a_dma_buf_record_becomes_its_description() {
    let Ok(BrowserFrame::DmaBuf(frame)) = frame_from_abi(&dma_buf()) else {
        panic!("the record is a dma-buf");
    };
    assert_eq!((frame.width, frame.height), (640, 360));
    assert_eq!(frame.format, PackedFormat::Rgbx8);
    assert_eq!(frame.modifier, 0);
    assert_eq!(
        frame.plane,
        DmaBufPlane {
            fd: 11,
            offset: 64,
            stride: 2560
        }
    );
    assert_eq!(frame.rendering_fence, Some(12));
    assert_eq!(frame.lease.drop_calls(), returned());
}

#[test]
fn a_negative_fence_is_no_fence() {
    let record = WaterWpeFrame {
        rendering_fence_fd: -1,
        ..dma_buf()
    };
    let Ok(BrowserFrame::DmaBuf(frame)) = frame_from_abi(&record) else {
        panic!("the record is a dma-buf");
    };
    assert_eq!(frame.rendering_fence, None);
}

#[test]
fn a_shared_memory_record_becomes_a_frame() {
    let data: Vec<u8> = (0..64).collect();
    let Ok(BrowserFrame::Shm(frame)) = frame_from_abi(&shm(&data)) else {
        panic!("the record is a mapping");
    };
    assert_eq!((frame.width(), frame.height(), frame.stride()), (4, 2, 32));
    assert_eq!(frame.format(), ShmFormat::Argb8888);
    assert_eq!(frame.pixels(), data.as_slice());
    assert_eq!(frame.drop_calls(), returned());
}

#[test]
fn a_zero_sized_record_is_refused_and_returns_its_buffer() {
    for record in [
        WaterWpeFrame {
            width: 0,
            ..dma_buf()
        },
        WaterWpeFrame {
            height: 0,
            kind: 9,
            ..dma_buf()
        },
    ] {
        let refusal = refusal(&record);
        assert_eq!(refusal.fault, FrameFault::ZeroSized);
        assert_eq!(refusal.fault.message(), "WPE returned a zero-sized frame");
        assert!(refusal.descriptors.is_empty());
        assert_eq!(owed(&refusal), returned());
    }
}

#[test]
fn every_other_refusal_returns_the_buffer() {
    let data = [0u8; 63];
    for (record, fault, message) in [
        (
            WaterWpeFrame {
                kind: 12,
                ..dma_buf()
            },
            FrameFault::UnknownKind(12),
            "bundled WPE returned unknown frame kind 12",
        ),
        (
            WaterWpeFrame {
                modifier: 72_057_594_037_927_937,
                n_planes: 9,
                ..dma_buf()
            },
            FrameFault::NonLinearModifier(72_057_594_037_927_937),
            "assertion `left == right` failed: \
             bundled WPE must negotiate DRM_FORMAT_MOD_LINEAR\n  \
             left: 72057594037927937\n right: 0",
        ),
        (
            WaterWpeFrame {
                n_planes: 0,
                ..dma_buf()
            },
            FrameFault::PlaneCount(0),
            "WPE returned invalid DMA-BUF plane count 0",
        ),
        (
            WaterWpeFrame {
                n_planes: 5,
                ..dma_buf()
            },
            FrameFault::PlaneCount(5),
            "WPE returned invalid DMA-BUF plane count 5",
        ),
        (
            WaterWpeFrame {
                n_planes: 2,
                ..dma_buf()
            },
            FrameFault::NotOnePlane(2),
            "assertion `left == right` failed: \
             WaterUI's WPE output contract requires one packed 32-bit plane\n  \
             left: 2\n right: 1",
        ),
        (
            WaterWpeFrame {
                fds: [-1, 0, 0, 0],
                ..dma_buf()
            },
            FrameFault::InvalidPlaneDescriptor,
            "WPE DMA-BUF plane fd is invalid",
        ),
        (
            WaterWpeFrame {
                pixel_format: 41,
                ..shm(&data)
            },
            FrameFault::UnsupportedPixelFormat(41),
            "unsupported WPE shared-memory pixel format 41; \
             the bridge carries WPE_PIXEL_FORMAT_ARGB8888",
        ),
        (
            shm(&data),
            FrameFault::Shm(ShmFrameFault::ShortMapping {
                len: 63,
                height: 2,
                stride: 32,
            }),
            "shared-memory frame holds 63 bytes for 2 rows of 32",
        ),
        (
            WaterWpeFrame {
                data: None,
                ..shm(&data)
            },
            FrameFault::Shm(ShmFrameFault::NoPixels),
            "shared-memory frame carries no pixels",
        ),
    ] {
        let refusal = refusal(&record);
        assert_eq!(refusal.fault, fault);
        assert_eq!(refusal.fault.message(), message);
        assert!(refusal.descriptors.is_empty());
        assert_eq!(owed(&refusal), returned());
    }
}

#[test]
fn an_unknown_code_is_refused_with_the_descriptors_it_came_with() {
    let record = WaterWpeFrame {
        format: 0x0012_abcd,
        ..dma_buf()
    };
    let first = refusal(&record);
    assert_eq!(first.fault, FrameFault::UnsupportedFourcc(0x0012_abcd));
    assert_eq!(
        first.fault.message(),
        "unsupported DMA-BUF DRM fourcc 0x0012abcd"
    );
    assert_eq!(first.descriptors, [12, 11]);
    assert_eq!(owed(&first), returned());
    let second = refusal(&WaterWpeFrame {
        rendering_fence_fd: -1,
        ..record
    });
    assert_eq!(second.descriptors, [11]);
}
