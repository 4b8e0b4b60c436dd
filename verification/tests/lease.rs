use browser_wpe::format::WPE_PIXEL_FORMAT_ARGB8888;
use browser_wpe::{BridgeCall, FrameFault, ShmFormat, WpeFrameLease, shm_format_from_abi};

fn read_format(value: u32) -> ShmFormat {
    shm_format_from_abi(value)
        .unwrap_or_else(|| panic!("{}", FrameFault::UnsupportedPixelFormat(value).message()))
}

#[test]
fn the_only_pixel_format_wpe_defines_crosses_the_abi() {
    assert_eq!(
        read_format(WPE_PIXEL_FORMAT_ARGB8888),
        ShmFormat::Argb8888
    );
}

#[test]
#[should_panic(expected = "unsupported WPE shared-memory pixel format 1")]
fn an_unknown_pixel_format_fails_fast() {
    let _ = read_format(WPE_PIXEL_FORMAT_ARGB8888 + 1);
}

const PRESENTED: BridgeCall = BridgeCall::FramePresented { token: 7 };

fn released(fence_fd: i32) -> BridgeCall {
    BridgeCall::FrameRelease { token: 7, fence_fd }
}

#[test]
fn a_lease_that_is_used_to_the_end_owes_nothing() {
    let mut lease = WpeFrameLease::new(7);
    assert_eq!(lease.token(), 7);
    assert!(!lease.is_presented());
    assert_eq!(lease.presented(), PRESENTED);
    assert!(lease.is_presented());
    assert!(!lease.is_released());
    assert_eq!(lease.release(Some(12)), released(12));
    assert!(lease.is_released());
    assert!(lease.drop_calls().is_empty());
}

#[test]
fn a_release_without_a_fence_hands_over_none() {
    let mut lease = WpeFrameLease::new(7);
    lease.presented();
    assert_eq!(lease.release(None), released(-1));
}

#[test]
fn every_way_to_end_a_lease_tells_the_bridge_the_same_two_things() {
    for steps in 0..3 {
        let mut lease = WpeFrameLease::new(7);
        let mut calls = Vec::new();
        if steps >= 1 {
            calls.push(lease.presented());
        }
        if steps >= 2 {
            calls.push(lease.release(None));
        }
        calls.extend(lease.drop_calls());
        assert_eq!(calls, [PRESENTED, released(-1)]);
    }
}
