//! The blit, the GPU work of a frame, and a render.

use vstd::prelude::*;

use crate::blit::{
    BindGroupPlan, BlitLayout, ClearColor, Dimension, FrameOptions, PassPlan, PipelinePlan,
    clear_target, encode_browser_blit,
};
use crate::format::{PackedFormat, TexelFormat};
use crate::frame::{BrowserFrame, ShmFrame, ShmFrameView};
use crate::gpu::{
    DmaBufShape, FrameOp, GpuState, SourceTexture, TexturePlan, UploadPlan, op_view, ops_view,
};
use crate::view::{BrowserGpuView, RenderAction, RenderEvent, RenderPhase};

verus! {

/// The flag of the uniform block is one exactly where an opaque frame is asked for,
/// and else zero.
pub proof fn the_flag_asks_for_an_opaque_frame(force_opaque: bool, options: FrameOptions)
    requires
        call_ensures(FrameOptions::new, (force_opaque,), options),
    ensures
        force_opaque ==> options.force_opaque == 1,
        !force_opaque ==> options.force_opaque == 0,
{
}

/// The word that four bytes hold, with the least significant byte first or last.
pub open spec fn word_at_start(bytes: Seq<u8>, little_endian: bool) -> int {
    if little_endian {
        bytes[0] + 0x100 * bytes[1] + 0x1_0000 * bytes[2] + 0x100_0000 * bytes[3]
    } else {
        bytes[3] + 0x100 * bytes[2] + 0x1_0000 * bytes[1] + 0x100_0000 * bytes[0]
    }
}

/// The uniform block is sixteen bytes: the flag, in one of the two byte orders, and
/// twelve zeros.
pub proof fn the_block_holds_the_flag_and_a_zero_tail(options: FrameOptions, bytes: Vec<u8>)
    requires
        call_ensures(FrameOptions::bytes, (options,), bytes),
    ensures
        bytes@.len() == 16,
        forall|i: int| 4 <= i < 16 ==> #[trigger] bytes@[i] == 0,
        word_at_start(bytes@, true) == options.force_opaque || word_at_start(bytes@, false)
            == options.force_opaque,
{
    let words = options.words();
    assert forall|i: int| 4 <= i < 16 implies #[trigger] bytes@[i] == 0 by {
        assert(words[i / 4] == 0);
    }
    assert(words[0] == options.force_opaque);
}

/// The layout is what the shader declares: the sampler at 0, the texture at 1 and the
/// block of sixteen bytes at 2, for the fragment stage alone.
pub proof fn the_layout_is_what_the_shader_declares(layout: BlitLayout)
    requires
        call_ensures(BlitLayout::new, (), layout),
    ensures
        layout.visibility.fragment && !layout.visibility.vertex && !layout.visibility.compute,
        layout.sampler == 0,
        layout.sampler_filters,
        layout.texture == 1,
        layout.texture_filterable,
        layout.texture_dimension == Dimension::D2,
        !layout.texture_multisampled,
        layout.options == 2,
        layout.options_size == 16,
        !layout.options_dynamic_offset,
        layout.options_use.uniform && layout.options_use.copy_destination,
{
}

/// Whether a pass starts from transparent black and keeps what it drew.
pub open spec fn starts_transparent(pass: PassPlan) -> bool {
    &&& pass.store
    &&& pass.clear matches Some(color) && color.red == 0 && color.green == 0 && color.blue == 0
        && color.alpha == 0
}

/// Both passes start from transparent black; one draws two triangles and the other
/// nothing.
pub proof fn a_pass_starts_from_transparent(color: ClearColor, blit: PassPlan, clear: PassPlan)
    requires
        call_ensures(ClearColor::transparent, (), color),
        call_ensures(encode_browser_blit, (), blit),
        call_ensures(clear_target, (), clear),
    ensures
        color.red == 0 && color.green == 0 && color.blue == 0 && color.alpha == 0,
        starts_transparent(blit),
        blit.vertices == 6,
        blit.instances == 1,
        starts_transparent(clear),
        clear.vertices == 0,
        clear.instances == 0,
{
}

/// A view that is set up draws on exactly the format that it was set up for, through
/// a pipeline of that format, and has no source texture yet.
pub proof fn a_view_is_set_up_for_one_format(
    surface: wgpu::TextureFormat,
    gpu: GpuState,
    target: wgpu::TextureFormat,
    accepted: bool,
    plan: PipelinePlan,
)
    requires
        call_ensures(GpuState::create_gpu_state, (surface,), gpu),
        call_ensures(GpuState::accepts_target, (&gpu, target), accepted),
        call_ensures(GpuState::pipeline, (&gpu,), plan),
    ensures
        gpu@.source is None,
        gpu@.target_format == surface,
        accepted <==> target == surface,
        plan.target_format == surface,
{
}

/// A state accepts exactly the targets that it draws on.
pub proof fn a_state_accepts_its_own_target(
    gpu: GpuState,
    target: wgpu::TextureFormat,
    accepted: bool,
)
    requires
        call_ensures(GpuState::accepts_target, (&gpu, target), accepted),
    ensures
        accepted <==> target == gpu@.target_format,
{
}

/// Every pipeline blends what it draws over its target, writes all of its channels
/// and interpolates, by the layout that the shader declares.
pub proof fn every_pipeline_is_the_blit(gpu: GpuState, layout: BlitLayout, plan: PipelinePlan)
    requires
        call_ensures(BlitLayout::new, (), layout),
        call_ensures(GpuState::pipeline, (&gpu,), plan),
    ensures
        plan.layout == layout,
        plan.vertex_entry@ == "vertex_main"@,
        plan.fragment_entry@ == "fragment_main"@,
        plan.target_format == gpu@.target_format,
        plan.alpha_blending,
        plan.linear_filtering,
        plan.write_mask.red && plan.write_mask.green && plan.write_mask.blue
            && plan.write_mask.alpha,
{
}

/// Whether a plan makes a texture of this size and format that a frame can be copied
/// into and drawn from.
pub open spec fn makes_source(
    plan: TexturePlan,
    width: u32,
    height: u32,
    format: TexelFormat,
) -> bool {
    &&& plan.source.width == width
    &&& plan.source.height == height
    &&& plan.source.format == format
    &&& plan.dimension == Dimension::D2
    &&& plan.layers == 1
    &&& plan.mip_levels == 1
    &&& plan.samples == 1
    &&& plan.usage.copy_destination
    &&& plan.usage.binding
}

/// Whether the source texture is of this size and format.
pub open spec fn source_is(
    source: Option<SourceTexture>,
    width: u32,
    height: u32,
    format: TexelFormat,
) -> bool {
    source matches Some(source) && source.width == width && source.height == height
        && source.format == format
}

/// A source texture is made exactly where there is none of this size and format, and
/// then it is there, whatever was there before.
pub proof fn a_source_is_made_exactly_where_it_is_missing(
    gpu: &mut GpuState,
    width: u32,
    height: u32,
    format: TexelFormat,
    created: Option<TexturePlan>,
)
    requires
        call_ensures(GpuState::ensure_source_texture, (gpu, width, height, format), created),
    ensures
        created is None <==> source_is(old(gpu)@.source, width, height, format),
        created matches Some(plan) ==> makes_source(plan, width, height, format),
        source_is(final(gpu)@.source, width, height, format),
        final(gpu)@.target_format == old(gpu)@.target_format,
{
}

/// Whether a plan binds the sampler, the texture and the block where the shader
/// declares them, with this flag at the start of the block.
pub open spec fn binds_with_flag(plan: BindGroupPlan, flag: bool) -> bool {
    &&& plan.options.force_opaque == if flag {
        1int
    } else {
        0
    }
    &&& plan.options_offset == 0
    &&& plan.sampler_at == 0
    &&& plan.texture_at == 1
    &&& plan.options_at == 2
}

/// Everything is bound where the shader declares it, with the flag that was asked
/// for.
pub proof fn everything_is_bound_at_its_place(
    gpu: GpuState,
    force_opaque: bool,
    plan: BindGroupPlan,
)
    requires
        call_ensures(GpuState::create_source_bind_group, (&gpu, force_opaque), plan),
    ensures
        binds_with_flag(plan, force_opaque),
{
}

/// Whether an operation draws the two triangles of the blit.
pub open spec fn draws_the_blit(op: FrameOp<&[u8]>) -> bool {
    op matches FrameOp::Blit(pass) && starts_transparent(pass) && pass.vertices == 6
        && pass.instances == 1
}

/// The format of the texture that a packed format lands in.
pub open spec fn lands_in(format: PackedFormat, texture: TexelFormat) -> bool {
    match format {
        PackedFormat::Bgra8 => texture == TexelFormat::Bgra8Unorm,
        PackedFormat::Bgrx8 => texture == TexelFormat::Bgra8Unorm,
        PackedFormat::Rgba8 => texture == TexelFormat::Rgba8Unorm,
        PackedFormat::Rgbx8 => texture == TexelFormat::Rgba8Unorm,
    }
}

/// Whether these are the operations on a dma-buf of this shape, where `before` is the
/// source texture there was: a texture of its size and channel order where there is
/// none, the flag one exactly where its format has no alpha of its own, the import,
/// the presentation, the blit, and the way back once the work is done.
pub open spec fn composites_dma_buf(
    ops: Seq<FrameOp<&[u8]>>,
    before: Option<SourceTexture>,
    frame: DmaBufShape,
) -> bool {
    let last = ops.len() - 1;
    &&& ops.len() == 8 || ops.len() == 9
    &&& ops.len() == 8 <==> (before matches Some(source) && source.width == frame.width
        && source.height == frame.height && lands_in(frame.format, source.format))
    &&& ops.len() == 9 ==> (ops[0] matches FrameOp::CreateSource(plan) && lands_in(
        frame.format,
        plan.source.format,
    ) && makes_source(plan, frame.width, frame.height, plan.source.format))
    &&& ops[last - 7] matches FrameOp::BindSource(plan) && match frame.format {
        PackedFormat::Bgra8 => binds_with_flag(plan, false),
        PackedFormat::Bgrx8 => binds_with_flag(plan, true),
        PackedFormat::Rgba8 => binds_with_flag(plan, false),
        PackedFormat::Rgbx8 => binds_with_flag(plan, true),
    }
    &&& ops[last - 6] is ImportDmaBuf
    &&& ops[last - 5] is Present
    &&& draws_the_blit(ops[last - 4])
    &&& ops[last - 3] is Submit
    &&& ops[last - 2] is AwaitWork
    &&& ops[last - 1] is DropImport
    &&& ops[last] is Release
}

/// Whether these are the operations on this shared-memory frame, where `before` is
/// the source texture there was: a texture of its size where there is none, its own
/// alpha, the whole of its pixels at its own row distance, the presentation, the
/// blit, and the way back without waiting.
pub open spec fn composites_mapping(
    ops: Seq<FrameOp<&[u8]>>,
    before: Option<SourceTexture>,
    frame: ShmFrameView,
) -> bool {
    let last = ops.len() - 1;
    &&& ops.len() == 7 || ops.len() == 8
    &&& ops.len() == 7 <==> source_is(before, frame.width, frame.height, TexelFormat::Bgra8Unorm)
    &&& ops.len() == 8 ==> (ops[0] matches FrameOp::CreateSource(plan) && makes_source(
        plan,
        frame.width,
        frame.height,
        TexelFormat::Bgra8Unorm,
    ))
    &&& ops[last - 6] matches FrameOp::BindSource(plan) && binds_with_flag(plan, false)
    &&& ops[last - 5] matches FrameOp::Upload(plan) && uploads(plan, frame)
    &&& ops[last - 4] is Present
    &&& ops[last - 3] is OpenEncoder
    &&& draws_the_blit(ops[last - 2])
    &&& ops[last - 1] is Submit
    &&& ops[last] is Release
}

/// Whether a plan writes the whole of a frame's pixels into the whole of a texture.
pub open spec fn uploads(plan: UploadPlan<&[u8]>, frame: ShmFrameView) -> bool {
    &&& plan.pixels@ == frame.pixels
    &&& plan.offset == 0
    &&& plan.bytes_per_row == frame.stride
    &&& plan.rows_per_image == frame.height
    &&& plan.mip_level == 0
    &&& plan.origin.x == 0
    &&& plan.origin.y == 0
    &&& plan.origin.z == 0
    &&& plan.width == frame.width
    &&& plan.height == frame.height
    &&& plan.layers == 1
}

/// Operations by their place.
proof fn lemma_ops_by_place(ops: Seq<FrameOp<&[u8]>>)
    ensures
        ops_view(ops).len() == ops.len(),
        forall|i: int| 0 <= i < ops.len() ==> #[trigger] ops_view(ops)[i] == op_view(ops[i]),
{
}

/// A dma-buf is composited as its shape says, in each of its four formats, and its
/// source texture stays for the next frame.
pub proof fn a_dma_buf_is_composited_as_its_format_says<'a>(
    gpu: &mut GpuState,
    frame: DmaBufShape,
    ops: Vec<FrameOp<&'a [u8]>>,
)
    requires
        call_ensures(GpuState::render_dma_buf_frame, (gpu, frame), ops),
    ensures
        composites_dma_buf(ops@, old(gpu)@.source, frame),
        final(gpu)@.source matches Some(source) && source.width == frame.width && source.height
            == frame.height && lands_in(frame.format, source.format),
        final(gpu)@.target_format == old(gpu)@.target_format,
{
    lemma_ops_by_place(ops@);
    let last = ops@.len() - 1;
    let shown = ops_view(ops@);
    assert(shown[last] == op_view(ops@[last]));
    assert(shown[0] == op_view(ops@[0]));
    assert(shown[last - 1] is DropImport && shown[last - 2] is AwaitWork);
    assert(shown[last - 3] is Submit && shown[last - 4] is Blit);
    assert(shown[last - 5] is Present && shown[last - 6] is ImportDmaBuf);
    assert(shown[last - 7] is BindSource);
}

/// A shared-memory frame is composited from all of its pixels, and its source texture
/// stays for the next frame.
pub proof fn a_mapping_is_composited_from_all_of_its_pixels<'a>(
    gpu: &mut GpuState,
    frame: &ShmFrame<'a>,
    ops: Vec<FrameOp<&'a [u8]>>,
)
    requires
        call_ensures(GpuState::render_shm_frame, (gpu, frame), ops),
    ensures
        composites_mapping(ops@, old(gpu)@.source, frame@),
        source_is(
            final(gpu)@.source,
            frame@.width,
            frame@.height,
            TexelFormat::Bgra8Unorm,
        ),
        final(gpu)@.target_format == old(gpu)@.target_format,
{
    lemma_ops_by_place(ops@);
    let last = ops@.len() - 1;
    let shown = ops_view(ops@);
    assert(shown[0] == op_view(ops@[0]));
    assert(shown[last] is Release && shown[last - 1] is Submit);
    assert(shown[last - 2] is Blit && shown[last - 3] is OpenEncoder);
    assert(shown[last - 4] is Present && shown[last - 5] is Upload);
    assert(shown[last - 6] is BindSource);
}

/// Whether these are the operations on a frame of either kind.
pub open spec fn composites(
    ops: Seq<FrameOp<&[u8]>>,
    before: Option<SourceTexture>,
    frame: BrowserFrame<DmaBufShape, &ShmFrame>,
) -> bool {
    match frame {
        BrowserFrame::DmaBuf(dma_buf) => composites_dma_buf(ops, before, dma_buf),
        BrowserFrame::Shm(shm) => composites_mapping(ops, before, shm@),
    }
}

/// Whether the source texture is the one that a frame of either kind lands in.
pub open spec fn holds_frame(
    source: Option<SourceTexture>,
    frame: BrowserFrame<DmaBufShape, &ShmFrame>,
) -> bool {
    match frame {
        BrowserFrame::DmaBuf(dma_buf) => source matches Some(source) && source.width
            == dma_buf.width && source.height == dma_buf.height && lands_in(
            dma_buf.format,
            source.format,
        ),
        BrowserFrame::Shm(shm) => source_is(
            source,
            shm@.width,
            shm@.height,
            TexelFormat::Bgra8Unorm,
        ),
    }
}

/// A frame is composited by its kind.
pub proof fn a_frame_is_composited_by_its_kind<'a>(
    gpu: &mut GpuState,
    target: wgpu::TextureFormat,
    frame: BrowserFrame<DmaBufShape, &ShmFrame<'a>>,
    ops: Vec<FrameOp<&'a [u8]>>,
)
    requires
        call_ensures(GpuState::render_browser_frame, (gpu, target, frame), ops),
    ensures
        composites(ops@, old(gpu)@.source, frame),
        holds_frame(final(gpu)@.source, frame),
        final(gpu)@.target_format == old(gpu)@.target_format,
{
    lemma_ops_by_place(ops@);
    let last = ops@.len() - 1;
    let shown = ops_view(ops@);
    assert(shown[0] == op_view(ops@[0]));
    assert(shown[last] == op_view(ops@[last]));
    assert(shown[last - 1] == op_view(ops@[last - 1]));
    assert(shown[last - 2] == op_view(ops@[last - 2]));
    assert(shown[last - 3] == op_view(ops@[last - 3]));
    assert(shown[last - 4] == op_view(ops@[last - 4]));
    assert(shown[last - 5] == op_view(ops@[last - 5]));
    assert(shown[last - 6] == op_view(ops@[last - 6]));
    if frame is DmaBuf {
        assert(shown[last - 7] == op_view(ops@[last - 7]));
    }
}

/// A view that is set up draws a frame as its GPU side composites it, and changes
/// nothing else.
pub proof fn a_view_draws_a_frame_by_its_kind<'a, S, F>(
    view: &mut BrowserGpuView<S, F>,
    target: wgpu::TextureFormat,
    frame: BrowserFrame<DmaBufShape, &ShmFrame<'a>>,
    ops: Vec<FrameOp<&'a [u8]>>,
)
    requires
        old(view)@.gpu is Some,
        call_ensures(BrowserGpuView::<S, F>::draw, (view, target, frame), ops),
    ensures
        composites(ops@, old(view)@.gpu->0.source, frame),
        final(view)@.gpu matches Some(gpu) && holds_frame(gpu.source, frame) && gpu.target_format
            == old(view)@.gpu->0.target_format,
        final(view)@.source == old(view)@.source,
        final(view)@.pending == old(view)@.pending,
        final(view)@.phase == old(view)@.phase,
{
    lemma_ops_by_place(ops@);
    let last = ops@.len() - 1;
    let shown = ops_view(ops@);
    assert(shown[0] == op_view(ops@[0]));
    assert(shown[last] == op_view(ops@[last]));
    assert(shown[last - 1] == op_view(ops@[last - 1]));
    assert(shown[last - 2] == op_view(ops@[last - 2]));
    assert(shown[last - 3] == op_view(ops@[last - 3]));
    assert(shown[last - 4] == op_view(ops@[last - 4]));
    assert(shown[last - 5] == op_view(ops@[last - 5]));
    assert(shown[last - 6] == op_view(ops@[last - 6]));
    if frame is DmaBuf {
        assert(shown[last - 7] == op_view(ops@[last - 7]));
    }
}

/// A new view has its source and nothing else.
pub proof fn a_new_view_has_its_source_alone<S, F>(
    source: S,
    view: BrowserGpuView<S, F>,
    shown: &S,
    pending: Option<&F>,
    gpu: Option<&GpuState>,
)
    requires
        call_ensures(BrowserGpuView::<S, F>::new, (source,), view),
        call_ensures(BrowserGpuView::<S, F>::source, (&view,), shown),
        call_ensures(BrowserGpuView::<S, F>::pending_frame, (&view,), pending),
        call_ensures(BrowserGpuView::<S, F>::gpu, (&view,), gpu),
    ensures
        *shown == source,
        pending is None,
        gpu is None,
        view@.phase == RenderPhase::Idle,
{
}

/// A view shows what it holds as it is.
pub proof fn a_view_shows_what_it_holds<S, F>(
    view: BrowserGpuView<S, F>,
    source: &S,
    pending: Option<&F>,
    gpu: Option<&GpuState>,
)
    requires
        call_ensures(BrowserGpuView::<S, F>::source, (&view,), source),
        call_ensures(BrowserGpuView::<S, F>::pending_frame, (&view,), pending),
        call_ensures(BrowserGpuView::<S, F>::gpu, (&view,), gpu),
    ensures
        *source == view@.source,
        pending is Some <==> view@.pending is Some,
        pending matches Some(frame) ==> view@.pending == Some(*frame),
        gpu is Some <==> view@.gpu is Some,
        gpu matches Some(gpu) ==> view@.gpu == Some(gpu@),
{
}

/// Setting a view up makes its GPU side anew for the format, without a source
/// texture, and keeps everything else.
pub proof fn setting_up_starts_the_gpu_side_anew<S, F>(
    view: &mut BrowserGpuView<S, F>,
    surface: wgpu::TextureFormat,
)
    requires
        call_ensures(BrowserGpuView::<S, F>::setup, (view, surface), ()),
    ensures
        final(view)@.gpu matches Some(gpu) && gpu.target_format == surface && gpu.source is None,
        final(view)@.source == old(view)@.source,
        final(view)@.pending == old(view)@.pending,
        final(view)@.phase == old(view)@.phase,
{
}

/// What a view does about each event of a render. It pumps first, whatever came
/// before, then resizes, and asks for a frame only where none is pending; it clears to
/// transparent where there is none, leaves the target alone where the frame is not
/// finished, and else draws just that frame and asks for the next. It asks for another
/// render unless it drew and there is no next frame.
pub proof fn a_view_answers_each_event<S, F>(
    view: &mut BrowserGpuView<S, F>,
    event: RenderEvent<F>,
    action: RenderAction<F>,
)
    requires
        old(view)@.wf(),
        call_requires(BrowserGpuView::<S, F>::render, (view, event)),
        call_ensures(BrowserGpuView::<S, F>::render, (view, event), action),
        match event {
            RenderEvent::Begin => true,
            RenderEvent::Pumped => old(view)@.phase == RenderPhase::Pumping,
            RenderEvent::Resized => old(view)@.phase == RenderPhase::Resizing,
            RenderEvent::Taken(_) => old(view)@.phase == RenderPhase::Taking || old(view)@.phase
                == RenderPhase::Following,
            RenderEvent::Readiness(_) => old(view)@.phase == RenderPhase::Polling,
            RenderEvent::Cleared => old(view)@.phase == RenderPhase::Clearing,
            RenderEvent::Drawn => old(view)@.phase == RenderPhase::Drawing,
        },
    ensures
        final(view)@.source == old(view)@.source,
        final(view)@.gpu == old(view)@.gpu,
        final(view)@.wf(),
        match event {
            RenderEvent::Begin => {
                &&& action is Pump
                &&& final(view)@.phase == RenderPhase::Pumping
                &&& final(view)@.pending == old(view)@.pending
            },
            RenderEvent::Pumped => {
                &&& action is Resize
                &&& final(view)@.phase == RenderPhase::Resizing
                &&& final(view)@.pending == old(view)@.pending
            },
            RenderEvent::Resized => {
                &&& action is TakeFrame <==> old(view)@.pending is None
                &&& action is PollReadiness <==> old(view)@.pending is Some
                &&& action is TakeFrame ==> final(view)@.phase == RenderPhase::Taking
                &&& action is PollReadiness ==> final(view)@.phase == RenderPhase::Polling
                &&& final(view)@.pending == old(view)@.pending
            },
            RenderEvent::Taken(taken) => {
                &&& final(view)@.pending == taken
                &&& old(view)@.phase == RenderPhase::Following ==> {
                    &&& action matches RenderAction::Finish { redraw } && redraw == (taken is Some)
                    &&& final(view)@.phase == RenderPhase::Idle
                }
                &&& old(view)@.phase == RenderPhase::Taking && taken is Some ==> {
                    &&& action is PollReadiness
                    &&& final(view)@.phase == RenderPhase::Polling
                }
                &&& old(view)@.phase == RenderPhase::Taking && taken is None ==> {
                    &&& action matches RenderAction::ClearTarget(pass) && starts_transparent(pass)
                        && pass.vertices == 0
                    &&& final(view)@.phase == RenderPhase::Clearing
                }
            },
            RenderEvent::Readiness(false) => {
                &&& action matches RenderAction::Finish { redraw } && redraw
                &&& final(view)@.phase == RenderPhase::Idle
                &&& final(view)@.pending == old(view)@.pending
            },
            RenderEvent::Readiness(true) => {
                &&& action matches RenderAction::Draw(frame) && old(view)@.pending == Some(frame)
                &&& final(view)@.phase == RenderPhase::Drawing
                &&& final(view)@.pending is None
            },
            RenderEvent::Cleared => {
                &&& action matches RenderAction::Finish { redraw } && redraw
                &&& final(view)@.phase == RenderPhase::Idle
                &&& final(view)@.pending is None
            },
            RenderEvent::Drawn => {
                &&& action is TakeFrame
                &&& final(view)@.phase == RenderPhase::Following
                &&& final(view)@.pending is None
            },
        },
{
}

/// A frame of any shape is composited, on a target of the format that the state draws
/// on, and bound once a source texture is there.
pub proof fn a_frame_of_any_shape_is_composited<'a, S, F>(
    gpu: &mut GpuState,
    view: &mut BrowserGpuView<S, F>,
    target: wgpu::TextureFormat,
    shape: DmaBufShape,
    shm: &ShmFrame<'a>,
    frame: BrowserFrame<DmaBufShape, &ShmFrame<'a>>,
    force_opaque: bool,
)
    ensures
        call_requires(GpuState::render_dma_buf_frame, (gpu, shape)),
        call_requires(GpuState::render_shm_frame, (gpu, shm)),
        target == old(gpu)@.target_format ==> call_requires(
            GpuState::render_browser_frame,
            (gpu, target, frame),
        ),
        old(gpu)@.source is Some ==> call_requires(
            GpuState::create_source_bind_group,
            (&*old(gpu), force_opaque),
        ),
        old(view)@.gpu matches Some(gpu) && gpu.target_format == target ==> call_requires(
            BrowserGpuView::<S, F>::draw,
            (view, target, frame),
        ),
        call_requires(BrowserGpuView::<S, F>::setup, (view, target)),
{
}

/// A view takes the start of a render at any time, and in each phase the event that
/// answers what it asked for, whatever the source gives and polling says.
pub proof fn a_view_takes_the_answer_to_what_it_asked_for<S, F>(
    view: &mut BrowserGpuView<S, F>,
    taken: Option<F>,
    ready: bool,
)
    requires
        old(view)@.wf(),
    ensures
        call_requires(BrowserGpuView::<S, F>::render, (view, RenderEvent::Begin)),
        old(view)@.phase == RenderPhase::Pumping ==> call_requires(
            BrowserGpuView::<S, F>::render,
            (view, RenderEvent::Pumped),
        ),
        old(view)@.phase == RenderPhase::Resizing ==> call_requires(
            BrowserGpuView::<S, F>::render,
            (view, RenderEvent::Resized),
        ),
        old(view)@.phase == RenderPhase::Taking || old(view)@.phase == RenderPhase::Following
            ==> call_requires(BrowserGpuView::<S, F>::render, (view, RenderEvent::Taken(taken))),
        old(view)@.phase == RenderPhase::Polling ==> call_requires(
            BrowserGpuView::<S, F>::render,
            (view, RenderEvent::Readiness(ready)),
        ),
        old(view)@.phase == RenderPhase::Clearing ==> call_requires(
            BrowserGpuView::<S, F>::render,
            (view, RenderEvent::Cleared),
        ),
        old(view)@.phase == RenderPhase::Drawing ==> call_requires(
            BrowserGpuView::<S, F>::render,
            (view, RenderEvent::Drawn),
        ),
{
}

} // verus!
