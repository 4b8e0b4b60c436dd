//! What this library takes on trust from other crates and from `std`.
//!
//! Everything here is a claim about code outside the library. Each item names
//! the function it stands for and says what is claimed of it.

use std::path::{Path, PathBuf};
use std::time::{Duration, Instant};

use vstd::prelude::*;

use wgpu_external_frame::dma_buf::DmaBufFormat;

use crate::blit::memory_image;
use crate::format::{
    PackedFormat, TexelFormat, is_packed_fourcc, packed_force_opaque, packed_from_fourcc,
    packed_texture_format,
};

verus! {

/// `DmaBufFormat::from_fourcc`: each of the four packed codes names its format.
///
/// The function panics for any other code, which `requires` leaves out.
#[verifier::external_body]
pub(crate) fn dma_buf_from_fourcc(value: u32) -> (format: PackedFormat)
    requires
        is_packed_fourcc(value),
    ensures
        format == packed_from_fourcc(value),
{
    match DmaBufFormat::from_fourcc(value) {
        DmaBufFormat::Bgra8 => PackedFormat::Bgra8,
        DmaBufFormat::Bgrx8 => PackedFormat::Bgrx8,
        DmaBufFormat::Rgba8 => PackedFormat::Rgba8,
        DmaBufFormat::Rgbx8 => PackedFormat::Rgbx8,
    }
}

/// `DmaBufFormat::texture_format`: the `BGR` formats import as `Bgra8Unorm`, the
/// `RGB` formats as `Rgba8Unorm`, and none as anything else.
#[verifier::external_body]
pub(crate) fn dma_buf_texture_format(format: PackedFormat) -> (texture: Option<TexelFormat>)
    ensures
        texture == Some(packed_texture_format(format)),
{
    let outside = match format {
        PackedFormat::Bgra8 => DmaBufFormat::Bgra8,
        PackedFormat::Bgrx8 => DmaBufFormat::Bgrx8,
        PackedFormat::Rgba8 => DmaBufFormat::Rgba8,
        PackedFormat::Rgbx8 => DmaBufFormat::Rgbx8,
    };
    match outside.texture_format() {
        wgpu::TextureFormat::Bgra8Unorm => Some(TexelFormat::Bgra8Unorm),
        wgpu::TextureFormat::Rgba8Unorm => Some(TexelFormat::Rgba8Unorm),
        _ => None,
    }
}

/// `DmaBufFormat::force_opaque`: the `X` formats have no alpha of their own.
#[verifier::external_body]
pub(crate) fn dma_buf_force_opaque(format: PackedFormat) -> (opaque: bool)
    ensures
        opaque == packed_force_opaque(format),
{
    let outside = match format {
        PackedFormat::Bgra8 => DmaBufFormat::Bgra8,
        PackedFormat::Bgrx8 => DmaBufFormat::Bgrx8,
        PackedFormat::Rgba8 => DmaBufFormat::Rgba8,
        PackedFormat::Rgbx8 => DmaBufFormat::Rgbx8,
    };
    outside.force_opaque()
}

/// `std::time::Instant`, a point on the host's monotonic clock.
#[verifier::external_type_specification]
#[verifier::external_body]
pub struct ExInstant(Instant);

/// The span that `Duration::from_millis` makes of a number of milliseconds.
pub uninterp spec fn duration_of_millis(ms: u64) -> Duration;

/// `Duration::from_millis`: the span is that of the number, and of no other
/// number.
pub assume_specification[ Duration::from_millis ](ms: u64) -> (duration: Duration)
    ensures
        duration == duration_of_millis(ms),
        forall|other: u64| #[trigger] duration_of_millis(other) == duration ==> other == ms,
;

/// `Instant::now`: some point in time. Nothing is claimed of which.
#[verifier::external_body]
pub(crate) fn instant_now() -> Instant {
    Instant::now()
}

/// Whether the first instant is the second or lies before it, as `<=` on `Instant`
/// says.
pub uninterp spec fn instant_le(one: Instant, other: Instant) -> bool;

/// `<=` on `Instant`: the result is a function of the two instants.
#[verifier::external_body]
pub(crate) fn instant_at_most(one: Instant, other: Instant) -> (at_most: bool)
    ensures
        at_most == instant_le(one, other),
{
    one <= other
}

/// The instant that `Instant::checked_add` makes of a start and a span, `None`
/// where the clock cannot represent it.
pub uninterp spec fn instant_plus(start: Instant, span: Duration) -> Option<Instant>;

/// Whether `end` lies to the ends of other waits of this span as `start` lies to
/// their starts.
pub open spec fn waiting_keeps_order(start: Instant, span: Duration, end: Instant) -> bool {
    forall|other: Instant|
        match #[trigger] instant_plus(other, span) {
            Some(other_end) => {
                &&& instant_le(start, other) ==> instant_le(end, other_end)
                &&& instant_le(other, start) ==> instant_le(other_end, end)
            },
            None => true,
        }
}

/// `Instant::checked_add`: the result is a function of the start and the span. It is
/// the time of the start plus the span, so two starts that the same span is added to
/// keep their order.
#[verifier::external_body]
pub(crate) fn instant_checked_add(start: Instant, span: Duration) -> (end: Option<Instant>)
    ensures
        end == instant_plus(start, span),
        end matches Some(end) ==> waiting_keeps_order(start, span, end),
{
    start.checked_add(span)
}

/// The span from `earlier` to `later` that `Instant::saturating_duration_since`
/// gives.
pub uninterp spec fn duration_since(later: Instant, earlier: Instant) -> Duration;

/// `Instant::saturating_duration_since`: the result is a function of the two
/// instants. It is the time elapsed from the earlier to the later, so the earlier
/// plus the span is the later.
#[verifier::external_body]
pub(crate) fn instant_saturating_since(later: Instant, earlier: Instant) -> (span: Duration)
    ensures
        span == duration_since(later, earlier),
        !instant_le(later, earlier) ==> instant_plus(earlier, span) == Some(later),
{
    later.saturating_duration_since(earlier)
}

/// `bytemuck::bytes_of` on four words: the bytes of the words as they stand in
/// memory, which the machine's byte order decides.
#[verifier::external_body]
pub(crate) fn words_as_bytes(words: &[u32; 4]) -> (bytes: Vec<u8>)
    ensures
        bytes@ == memory_image(words@, true) || bytes@ == memory_image(words@, false),
{
    bytemuck::bytes_of(words).to_vec()
}

/// `wgpu::TextureFormat`, the format of the surface a frame is drawn on.
#[verifier::external_type_specification]
#[verifier::external_body]
pub struct ExTextureFormat(wgpu::TextureFormat);

/// `==` on `wgpu::TextureFormat`, which the type derives: two formats compare
/// equal exactly where they are the same value.
#[verifier::external_body]
pub(crate) fn same_texture_format(
    left: wgpu::TextureFormat,
    right: wgpu::TextureFormat,
) -> (same: bool)
    ensures
        same == (left == right),
{
    left == right
}

/// The text that `Debug` for `str` makes of a text: quoted, and with what cannot be
/// printed escaped.
pub uninterp spec fn quoted(text: Seq<char>) -> Seq<char>;

/// `Debug` for `str`, through `format!`: the result is a function of the text.
#[verifier::external_body]
pub(crate) fn quoted_text(text: &str) -> (shown: String)
    ensures
        shown@ == quoted(text@),
{
    format!("{:?}", text)
}

/// `std::path::PathBuf`, a path in the host's file system.
#[verifier::external_type_specification]
#[verifier::external_body]
pub struct ExPathBuf(PathBuf);

/// `std::path::Path`, a borrowed path.
#[verifier::external_type_specification]
#[verifier::external_body]
pub struct ExPath(Path);

/// The path that a borrowed path is, as `Path::to_path_buf` gives it.
pub uninterp spec fn owned_path(path: &Path) -> PathBuf;

/// `PathBuf::as_path`: the same path, borrowed.
pub assume_specification[ PathBuf::as_path ](path: &PathBuf) -> (borrowed: &Path)
    ensures
        owned_path(borrowed) == *path,
;

/// `PathBuf::clone`: the same path.
pub assume_specification[ <PathBuf as Clone>::clone ](path: &PathBuf) -> (copy: PathBuf)
    ensures
        copy == *path,
;

/// `From::from` of a type to itself: the argument, unchanged.
pub assume_specification<T>[ <T as From<T>>::from ](value: T) -> (same: T)
    ensures
        same == value,
;

/// The path that `Path::join` makes of a base and a child.
pub uninterp spec fn path_join(base: PathBuf, child: Seq<char>) -> PathBuf;

/// `Path::join`: the result is a function of the base and the child.
#[verifier::external_body]
pub(crate) fn join_path(base: &Path, child: &str) -> (joined: PathBuf)
    ensures
        joined == path_join(owned_path(base), child@),
{
    base.join(child)
}

/// The directory that `Path::parent` gives of a path, `None` where it has none.
pub uninterp spec fn path_parent(path: PathBuf) -> Option<PathBuf>;

/// `Path::parent`: the result is a function of the path.
pub assume_specification[ Path::parent ](path: &Path) -> (parent: Option<&Path>)
    ensures
        path_parent(owned_path(path)) == (match parent {
            Some(parent) => Some(owned_path(parent)),
            None => None,
        }),
;

} // verus!
