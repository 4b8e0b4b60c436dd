//! Compositing a stream of browser frames without reading them back.
//!
//! Both buffer kinds land in the same source texture and are blitted by the same
//! pipeline: a dma-buf is imported, a shared-memory mapping is uploaded. This
//! module decides what is done to the GPU and in which order; its caller does
//! it.

use vstd::prelude::*;

use crate::blit::{
    BindGroupPlan, BlitLayout, Dimension, FrameOptions, PassPlan, PipelinePlan, WriteMask,
    bind_group_plan, blit_layout, blit_pass, encode_browser_blit, is_blit_pipeline,
};
use crate::format::{
    PackedFormat, TexelFormat, packed_force_opaque, packed_texture_format, shm_packed,
};
use crate::frame::{
    BYTES_PER_PIXEL, BrowserFrame, ShmFrame, ShmFrameView, every_row_lies_inside_the_mapping,
};
use crate::lease::{
    BridgeCall, LeaseStep, NO_FENCE, every_lease_presents_once_and_then_releases_once, fresh_lease,
    lifetime_calls, steps_allowed,
};
use crate::outside::same_texture_format;

verus! {

/// The texture that frames land in before they are drawn.
#[derive(Debug, Clone, Copy, PartialEq, Eq, Structural)]
pub struct SourceTexture {
    /// Width in pixels.
    pub width: u32,
    /// Height in pixels.
    pub height: u32,
    /// Format of the texels.
    pub format: TexelFormat,
}

/// What compositing a dma-buf depends on.
#[derive(Debug, Clone, Copy, PartialEq, Eq, Structural)]
pub struct DmaBufShape {
    /// Width in pixels.
    pub width: u32,
    /// Height in pixels.
    pub height: u32,
    /// Pixel format.
    pub format: PackedFormat,
}

/// What a texture is used for, and nothing else.
#[derive(Debug, Clone, Copy, PartialEq, Eq, Structural)]
pub struct TextureUse {
    /// Whether it is written by copies.
    pub copy_destination: bool,
    /// Whether it is bound to a shader.
    pub binding: bool,
}

/// Everything a new source texture is created from.
#[derive(Debug, Clone, Copy, PartialEq, Eq, Structural)]
pub struct TexturePlan {
    /// Its size and format.
    pub source: SourceTexture,
    /// In how many directions it extends.
    pub dimension: Dimension,
    /// How many layers of that size it has.
    pub layers: u32,
    /// How many levels of detail it has.
    pub mip_levels: u32,
    /// How many samples a texel has.
    pub samples: u32,
    /// What it is used for.
    pub usage: TextureUse,
}

/// A place in a texture.
#[derive(Debug, Clone, Copy, PartialEq, Eq, Structural)]
pub struct Origin {
    /// The column.
    pub x: u32,
    /// The row.
    pub y: u32,
    /// The layer.
    pub z: u32,
}

/// How pixels are written into the source texture.
#[derive(Debug, PartialEq, Eq)]
pub struct UploadPlan<P> {
    /// The bytes to write from.
    pub pixels: P,
    /// The byte at which the first row starts.
    pub offset: u64,
    /// Bytes between adjacent rows.
    pub bytes_per_row: u32,
    /// Rows in an image.
    pub rows_per_image: u32,
    /// The level of detail to write.
    pub mip_level: u32,
    /// Where in the texture to write.
    pub origin: Origin,
    /// Width to write in pixels.
    pub width: u32,
    /// Height to write in pixels.
    pub height: u32,
    /// Layers to write.
    pub layers: u32,
}

/// One thing to do for a frame, with the pixels to upload held as `P`.
#[derive(Debug, PartialEq, Eq)]
pub enum FrameOp<P> {
    /// Replace the source texture by a new one.
    CreateSource(TexturePlan),
    /// Write the uniform block and bind the source texture.
    BindSource(BindGroupPlan),
    /// Record the copy of the dma-buf into the source texture.
    ImportDmaBuf,
    /// Copy the mapping into the source texture.
    Upload(UploadPlan<P>),
    /// Tell the engine that the frame has been read.
    Present,
    /// Start a command encoder, where the import has not brought one.
    OpenEncoder,
    /// Record the pass that draws the frame.
    Blit(PassPlan),
    /// Submit what was recorded.
    Submit,
    /// Leave what follows until the submitted work has completed.
    AwaitWork,
    /// Let go of what the import holds on to.
    DropImport,
    /// Give the buffer back.
    Release,
}

/// The GPU side of a view, once it is set up.
#[derive(Debug)]
pub struct GpuState {
    target_format: wgpu::TextureFormat,
    layout: BlitLayout,
    source: Option<SourceTexture>,
}

/// What the GPU side of a view stands for.
pub struct GpuStateView {
    /// The format of the surface that frames are drawn on.
    pub target_format: wgpu::TextureFormat,
    /// The layout that the pipeline was made with.
    pub layout: BlitLayout,
    /// The source texture, once there is one.
    pub source: Option<SourceTexture>,
}

impl View for GpuState {
    type V = GpuStateView;

    closed spec fn view(&self) -> GpuStateView {
        GpuStateView { target_format: self.target_format, layout: self.layout, source: self.source }
    }
}

/// What a source texture of this size and format is created from: it is
/// two-dimensional, has one layer, one level and one sample per texel, and is
/// copied into and bound.
pub open spec fn texture_plan(source: SourceTexture) -> TexturePlan {
    TexturePlan {
        source,
        dimension: Dimension::D2,
        layers: 1,
        mip_levels: 1,
        samples: 1,
        usage: TextureUse { copy_destination: true, binding: true },
    }
}

/// The source texture to create for a frame: the one that it needs, unless that
/// is the one there is.
pub open spec fn created_source(
    current: Option<SourceTexture>,
    needed: SourceTexture,
) -> Option<TexturePlan> {
    if current == Some(needed) {
        None
    } else {
        Some(texture_plan(needed))
    }
}

/// The operations that put the source texture in place.
pub open spec fn source_ops(current: Option<SourceTexture>, needed: SourceTexture) -> Seq<
    FrameOp<Seq<u8>>,
> {
    match created_source(current, needed) {
        Some(plan) => seq![FrameOp::CreateSource(plan)],
        None => seq![],
    }
}

/// The source texture that a dma-buf lands in.
pub open spec fn dma_buf_source(frame: DmaBufShape) -> SourceTexture {
    SourceTexture {
        width: frame.width,
        height: frame.height,
        format: packed_texture_format(frame.format),
    }
}

/// The source texture that a shared-memory frame lands in.
pub open spec fn shm_source(frame: ShmFrameView) -> SourceTexture {
    SourceTexture {
        width: frame.width,
        height: frame.height,
        format: packed_texture_format(shm_packed(frame.format)),
    }
}

/// The upload of a shared-memory frame: all of its pixels, from the first byte of
/// the mapping on, at the engine's own row distance, over the whole texture.
pub open spec fn upload_plan(frame: ShmFrameView) -> UploadPlan<Seq<u8>> {
    UploadPlan {
        pixels: frame.pixels,
        offset: 0,
        bytes_per_row: frame.stride,
        rows_per_image: frame.height,
        mip_level: 0,
        origin: Origin { x: 0, y: 0, z: 0 },
        width: frame.width,
        height: frame.height,
        layers: 1,
    }
}

/// An upload with its pixels taken by what they are.
pub open spec fn upload_view(plan: UploadPlan<&[u8]>) -> UploadPlan<Seq<u8>> {
    UploadPlan {
        pixels: plan.pixels@,
        offset: plan.offset,
        bytes_per_row: plan.bytes_per_row,
        rows_per_image: plan.rows_per_image,
        mip_level: plan.mip_level,
        origin: plan.origin,
        width: plan.width,
        height: plan.height,
        layers: plan.layers,
    }
}

/// An operation with the pixels to upload taken by what they are.
pub open spec fn op_view(op: FrameOp<&[u8]>) -> FrameOp<Seq<u8>> {
    match op {
        FrameOp::CreateSource(plan) => FrameOp::CreateSource(plan),
        FrameOp::BindSource(plan) => FrameOp::BindSource(plan),
        FrameOp::ImportDmaBuf => FrameOp::ImportDmaBuf,
        FrameOp::Upload(plan) => FrameOp::Upload(upload_view(plan)),
        FrameOp::Present => FrameOp::Present,
        FrameOp::OpenEncoder => FrameOp::OpenEncoder,
        FrameOp::Blit(pass) => FrameOp::Blit(pass),
        FrameOp::Submit => FrameOp::Submit,
        FrameOp::AwaitWork => FrameOp::AwaitWork,
        FrameOp::DropImport => FrameOp::DropImport,
        FrameOp::Release => FrameOp::Release,
    }
}

/// Operations with the pixels to upload taken by what they are.
pub open spec fn ops_view(ops: Seq<FrameOp<&[u8]>>) -> Seq<FrameOp<Seq<u8>>> {
    ops.map_values(|op: FrameOp<&[u8]>| op_view(op))
}

/// What is done for a dma-buf, in order.
pub open spec fn dma_buf_ops(gpu: GpuStateView, frame: DmaBufShape) -> Seq<FrameOp<Seq<u8>>> {
    source_ops(gpu.source, dma_buf_source(frame)) + seq![
        FrameOp::BindSource(bind_group_plan(blit_layout(), packed_force_opaque(frame.format))),
        FrameOp::ImportDmaBuf,
        FrameOp::Present,
        FrameOp::Blit(blit_pass()),
        FrameOp::Submit,
        FrameOp::AwaitWork,
        FrameOp::DropImport,
        FrameOp::Release,
    ]
}

/// What is done for a shared-memory frame, in order.
pub open spec fn shm_ops(gpu: GpuStateView, frame: ShmFrameView) -> Seq<FrameOp<Seq<u8>>> {
    source_ops(gpu.source, shm_source(frame)) + seq![
        FrameOp::BindSource(
            bind_group_plan(blit_layout(), packed_force_opaque(shm_packed(frame.format))),
        ),
        FrameOp::Upload(upload_plan(frame)),
        FrameOp::Present,
        FrameOp::OpenEncoder,
        FrameOp::Blit(blit_pass()),
        FrameOp::Submit,
        FrameOp::Release,
    ]
}

/// A frame as compositing sees it.
pub open spec fn frame_ops(gpu: GpuStateView, frame: BrowserFrame<DmaBufShape, ShmFrameView>) -> Seq<
    FrameOp<Seq<u8>>,
> {
    match frame {
        BrowserFrame::DmaBuf(dma_buf) => dma_buf_ops(gpu, dma_buf),
        BrowserFrame::Shm(shm) => shm_ops(gpu, shm),
    }
}

/// The source texture that a frame lands in.
pub open spec fn frame_source(frame: BrowserFrame<DmaBufShape, ShmFrameView>) -> SourceTexture {
    match frame {
        BrowserFrame::DmaBuf(dma_buf) => dma_buf_source(dma_buf),
        BrowserFrame::Shm(shm) => shm_source(shm),
    }
}

/// A frame whose mapping is taken by what it stands for.
pub open spec fn frame_view(frame: BrowserFrame<DmaBufShape, &ShmFrame>) -> BrowserFrame<
    DmaBufShape,
    ShmFrameView,
> {
    match frame {
        BrowserFrame::DmaBuf(dma_buf) => BrowserFrame::DmaBuf(dma_buf),
        BrowserFrame::Shm(shm) => BrowserFrame::Shm(shm@),
    }
}

impl GpuState {
    /// Every pipeline is made with the layout that the shader is drawn with.
    #[verifier::type_invariant]
    spec fn laid_out(self) -> bool {
        self.layout == blit_layout()
    }

    /// The state of a view that has drawn nothing yet on a surface of this
    /// format.
    #[must_use]
    pub fn create_gpu_state(surface_format: wgpu::TextureFormat) -> (gpu: Self)
        ensures
            gpu@ == (GpuStateView {
                target_format: surface_format,
                layout: blit_layout(),
                source: None,
            }),
    {
        GpuState { target_format: surface_format, layout: BlitLayout::new(), source: None }
    }

    /// What the pipeline is made from.
    #[must_use]
    pub fn pipeline(&self) -> (plan: PipelinePlan)
        ensures
            is_blit_pipeline(plan, blit_layout(), self@.target_format),
    {
        proof {
            use_type_invariant(self);
        }
        PipelinePlan {
            layout: self.layout,
            vertex_entry: "vertex_main",
            fragment_entry: "fragment_main",
            target_format: self.target_format,
            write_mask: WriteMask { red: true, green: true, blue: true, alpha: true },
            alpha_blending: true,
            linear_filtering: true,
        }
    }

    /// Whether a target of this format is the one that the pipeline was made for.
    #[must_use]
    pub fn accepts_target(&self, format: wgpu::TextureFormat) -> (accepted: bool)
        ensures
            accepted == (format == self@.target_format),
    {
        same_texture_format(format, self.target_format)
    }

    /// Puts a source texture of this size and format in place, and says what has
    /// to be created for that.
    pub fn ensure_source_texture(
        &mut self,
        width: u32,
        height: u32,
        format: TexelFormat,
    ) -> (created: Option<TexturePlan>)
        ensures
            created == created_source(old(self)@.source, SourceTexture { width, height, format }),
            final(self)@ == (GpuStateView {
                source: Some(SourceTexture { width, height, format }),
                ..old(self)@
            }),
    {
        proof {
            use_type_invariant(&*self);
        }
        let needed = SourceTexture { width, height, format };
        if let Some(source) = self.source {
            if source == needed {
                return None;
            }
        }
        self.source = Some(needed);
        Some(
            TexturePlan {
                source: needed,
                dimension: Dimension::D2,
                layers: 1,
                mip_levels: 1,
                samples: 1,
                usage: TextureUse { copy_destination: true, binding: true },
            },
        )
    }

    /// What is bound for a frame, once its source texture is in place.
    #[must_use]
    pub fn create_source_bind_group(&self, force_opaque: bool) -> (plan: BindGroupPlan)
        requires
            self@.source is Some,
        ensures
            plan == bind_group_plan(blit_layout(), force_opaque),
    {
        proof {
            use_type_invariant(self);
        }
        BindGroupPlan {
            options: FrameOptions::new(force_opaque),
            options_offset: 0,
            sampler_at: self.layout.sampler,
            texture_at: self.layout.texture,
            options_at: self.layout.options,
        }
    }

    /// What has to be done for a dma-buf, in order.
    ///
    /// The buffer is read by the submitted work, so it goes back once that work
    /// has completed, and after what the import holds on to.
    pub fn render_dma_buf_frame<'a>(&mut self, incoming: DmaBufShape) -> (ops: Vec<
        FrameOp<&'a [u8]>,
    >)
        ensures
            ops_view(ops@) == dma_buf_ops(old(self)@, incoming),
            final(self)@ == (GpuStateView { source: Some(dma_buf_source(incoming)), ..old(self)@ }),
    {
        let mut ops: Vec<FrameOp<&'a [u8]>> = Vec::new();
        let texture_format = incoming.format.texture_format();
        if let Some(plan) = self.ensure_source_texture(
            incoming.width,
            incoming.height,
            texture_format,
        ) {
            ops.push(FrameOp::CreateSource(plan));
        }
        ops.push(FrameOp::BindSource(self.create_source_bind_group(incoming.format.force_opaque())));
        ops.push(FrameOp::ImportDmaBuf);
        ops.push(FrameOp::Present);
        ops.push(FrameOp::Blit(encode_browser_blit()));
        ops.push(FrameOp::Submit);
        ops.push(FrameOp::AwaitWork);
        ops.push(FrameOp::DropImport);
        ops.push(FrameOp::Release);
        proof {
            assert(ops_view(ops@) =~= dma_buf_ops(old(self)@, incoming));
        }
        ops
    }

    /// What has to be done for a shared-memory frame, in order.
    ///
    /// The lease is returned as soon as the upload has been staged: the upload
    /// copies out of the mapping before it returns, which is the whole reason a
    /// shared-memory frame needs neither a fence nor the deferred release its
    /// dma-buf sibling takes.
    pub fn render_shm_frame<'a>(&mut self, incoming: &ShmFrame<'a>) -> (ops: Vec<
        FrameOp<&'a [u8]>,
    >)
        ensures
            ops_view(ops@) == shm_ops(old(self)@, incoming@),
            final(self)@ == (GpuStateView { source: Some(shm_source(incoming@)), ..old(self)@ }),
    {
        let mut ops: Vec<FrameOp<&'a [u8]>> = Vec::new();
        let format = incoming.format();
        if let Some(plan) = self.ensure_source_texture(
            incoming.width(),
            incoming.height(),
            format.texture_format(),
        ) {
            ops.push(FrameOp::CreateSource(plan));
        }
        ops.push(FrameOp::BindSource(self.create_source_bind_group(format.force_opaque())));
        ops.push(
            FrameOp::Upload(
                UploadPlan {
                    pixels: incoming.pixels(),
                    offset: 0,
                    bytes_per_row: incoming.stride(),
                    rows_per_image: incoming.height(),
                    mip_level: 0,
                    origin: Origin { x: 0, y: 0, z: 0 },
                    width: incoming.width(),
                    height: incoming.height(),
                    layers: 1,
                },
            ),
        );
        ops.push(FrameOp::Present);
        ops.push(FrameOp::OpenEncoder);
        ops.push(FrameOp::Blit(encode_browser_blit()));
        ops.push(FrameOp::Submit);
        ops.push(FrameOp::Release);
        proof {
            assert(ops_view(ops@) =~= shm_ops(old(self)@, incoming@));
        }
        ops
    }

    /// What has to be done for a frame, in order, on a target of the format that
    /// the pipeline was made for.
    pub fn render_browser_frame<'a>(
        &mut self,
        target: wgpu::TextureFormat,
        incoming: BrowserFrame<DmaBufShape, &ShmFrame<'a>>,
    ) -> (ops: Vec<FrameOp<&'a [u8]>>)
        requires
            target == old(self)@.target_format,
        ensures
            ops_view(ops@) == frame_ops(old(self)@, frame_view(incoming)),
            final(self)@ == (GpuStateView {
                source: Some(frame_source(frame_view(incoming))),
                ..old(self)@
            }),
    {
        match incoming {
            BrowserFrame::DmaBuf(dma_buf) => self.render_dma_buf_frame(dma_buf),
            BrowserFrame::Shm(shm) => self.render_shm_frame(shm),
        }
    }
}

/// Whether an operation reads the pixels of the frame.
pub open spec fn reads_pixels<P>(op: FrameOp<P>) -> bool {
    op is ImportDmaBuf || op is Upload
}

/// What an operation does to the lease of the frame.
pub open spec fn lease_step<P>(op: FrameOp<P>) -> Option<LeaseStep> {
    match op {
        FrameOp::Present => Some(LeaseStep::Present),
        FrameOp::Release => Some(LeaseStep::Release(None)),
        _ => None,
    }
}

/// What a run of operations does to the lease of the frame.
pub open spec fn lease_steps<P>(ops: Seq<FrameOp<P>>) -> Seq<LeaseStep>
    decreases ops.len(),
{
    if ops.len() == 0 {
        seq![]
    } else {
        match lease_step(ops[0]) {
            Some(step) => seq![step] + lease_steps(ops.drop_first()),
            None => lease_steps(ops.drop_first()),
        }
    }
}

/// The operations on a frame present it and then release it.
proof fn lemma_frame_ops_lease_steps(
    gpu: GpuStateView,
    frame: BrowserFrame<DmaBufShape, ShmFrameView>,
)
    ensures
        lease_steps(frame_ops(gpu, frame)) == seq![LeaseStep::Present, LeaseStep::Release(None)],
{
    reveal_with_fuel(lease_steps, 11);
    let ops = frame_ops(gpu, frame);
    let first = source_ops(gpu.source, frame_source(frame));
    let tail = ops.skip(first.len() as int);
    assert(lease_steps(ops) == lease_steps(tail)) by {
        if first.len() == 0 {
            assert(tail =~= ops);
        } else {
            assert(ops[0] == first[0]);
            assert(tail =~= ops.drop_first());
        }
    }
    let t1 = tail.drop_first();
    let t2 = t1.drop_first();
    let t3 = t2.drop_first();
    let t4 = t3.drop_first();
    let t5 = t4.drop_first();
    let t6 = t5.drop_first();
    let t7 = t6.drop_first();
    let t8 = t7.drop_first();
    assert(lease_steps(tail) =~= seq![LeaseStep::Present, LeaseStep::Release(None)]);
}

/// Compositing a frame, of either kind, takes its lease through the whole
/// protocol: the bridge hears that the frame was presented, and then that the
/// buffer goes back, with no fence, and nothing else.
pub proof fn compositing_a_frame_returns_its_buffer(
    gpu: GpuStateView,
    frame: BrowserFrame<DmaBufShape, ShmFrameView>,
    token: usize,
)
    ensures
        steps_allowed(fresh_lease(token), lease_steps(frame_ops(gpu, frame))),
        lifetime_calls(fresh_lease(token), lease_steps(frame_ops(gpu, frame))) == seq![
            BridgeCall::FramePresented { token },
            BridgeCall::FrameRelease { token, fence_fd: NO_FENCE },
        ],
{
    lemma_frame_ops_lease_steps(gpu, frame);
    let steps = seq![LeaseStep::Present, LeaseStep::Release(None)];
    reveal_with_fuel(steps_allowed, 3);
    assert(steps.drop_first()[0] == steps[1]);
    every_lease_presents_once_and_then_releases_once(token, steps);
}

/// Whether `ops` reads the frame's pixels at `read` alone, presents it at `present`,
/// draws it at `draw`, submits that at `submit` and releases it at `release`, in
/// this order.
pub open spec fn handled_in_order<P>(
    ops: Seq<FrameOp<P>>,
    read: int,
    present: int,
    draw: int,
    submit: int,
    release: int,
) -> bool {
    &&& 0 <= read < present < draw < submit < release < ops.len()
    &&& reads_pixels(ops[read])
    &&& forall|i: int| 0 <= i < ops.len() && reads_pixels(#[trigger] ops[i]) ==> i == read
    &&& ops[present] is Present
    &&& ops[draw] is Blit
    &&& ops[submit] is Submit
    &&& lease_step(ops[release]) == Some(LeaseStep::Release(None))
}

/// The engine hears that a frame was read only after its pixels were, and gets
/// the buffer back only after the work that draws it was submitted.
pub proof fn a_frame_is_read_presented_drawn_and_only_then_released(
    gpu: GpuStateView,
    frame: BrowserFrame<DmaBufShape, ShmFrameView>,
)
    ensures
        exists|read: int, present: int, draw: int, submit: int, release: int|
            #[trigger] handled_in_order(
                frame_ops(gpu, frame),
                read,
                present,
                draw,
                submit,
                release,
            ),
{
    let ops = frame_ops(gpu, frame);
    let at = source_ops(gpu.source, frame_source(frame)).len() as int;
    match frame {
        BrowserFrame::DmaBuf(_) => {
            assert(handled_in_order(ops, at + 1, at + 2, at + 3, at + 4, at + 7));
        },
        BrowserFrame::Shm(_) => {
            assert(handled_in_order(ops, at + 1, at + 2, at + 4, at + 5, at + 6));
        },
    }
}

/// Whether `ops` imports at `import`, submits at `submit`, waits for that work at
/// `done`, lets go of the import at `dropped` and gives the buffer back at `release`,
/// in this order and each just once.
pub open spec fn import_held_in_order<P>(
    ops: Seq<FrameOp<P>>,
    import: int,
    submit: int,
    done: int,
    dropped: int,
    release: int,
) -> bool {
    &&& 0 <= import < submit < done < dropped < release < ops.len()
    &&& forall|i: int|
        #![trigger ops[i]]
        0 <= i < ops.len() ==> {
            &&& ops[i] is ImportDmaBuf <==> i == import
            &&& ops[i] is Submit <==> i == submit
            &&& ops[i] is AwaitWork <==> i == done
            &&& ops[i] is DropImport <==> i == dropped
            &&& ops[i] is Release <==> i == release
        }
}

/// What the import of a dma-buf holds on to outlives the work that reads it, and is
/// let go of before the buffer goes back.
pub proof fn an_import_is_held_until_the_work_is_done_and_dropped_before_the_release(
    gpu: GpuStateView,
    frame: DmaBufShape,
)
    ensures
        exists|import: int, submit: int, done: int, dropped: int, release: int|
            #[trigger] import_held_in_order(
                dma_buf_ops(gpu, frame),
                import,
                submit,
                done,
                dropped,
                release,
            ),
{
    let at = source_ops(gpu.source, dma_buf_source(frame)).len() as int;
    assert(import_held_in_order(dma_buf_ops(gpu, frame), at + 1, at + 4, at + 5, at + 6, at + 7));
}

/// A shared-memory frame goes back without waiting for the GPU: its pixels were
/// copied out, and nothing was imported.
pub proof fn a_mapping_goes_back_without_waiting_for_the_gpu(
    gpu: GpuStateView,
    frame: ShmFrameView,
    index: int,
)
    requires
        0 <= index < shm_ops(gpu, frame).len(),
    ensures
        !(shm_ops(gpu, frame)[index] is AwaitWork),
        !(shm_ops(gpu, frame)[index] is ImportDmaBuf),
        !(shm_ops(gpu, frame)[index] is DropImport),
{
}

/// The source texture is created anew exactly where the shape of the frame is
/// not that of the frame before.
pub proof fn the_source_texture_is_kept_while_the_shape_stays(
    gpu: GpuStateView,
    earlier: BrowserFrame<DmaBufShape, ShmFrameView>,
    later: BrowserFrame<DmaBufShape, ShmFrameView>,
)
    ensures
        ({
            let between = GpuStateView { source: Some(frame_source(earlier)), ..gpu };
            let created = exists|i: int|
                0 <= i < frame_ops(between, later).len() && (#[trigger] frame_ops(
                    between,
                    later,
                )[i]) is CreateSource;
            created <==> frame_source(earlier) != frame_source(later)
        }),
{
    let between = GpuStateView { source: Some(frame_source(earlier)), ..gpu };
    let ops = frame_ops(between, later);
    if frame_source(earlier) != frame_source(later) {
        assert(ops[0] is CreateSource);
    }
}

/// A shared-memory frame and a dma-buf of the same size and packing land in the
/// same texture, bound the same way.
pub proof fn both_buffer_kinds_land_in_one_texture(
    gpu: GpuStateView,
    shm: ShmFrameView,
    dma_buf: DmaBufShape,
)
    requires
        shm.width == dma_buf.width,
        shm.height == dma_buf.height,
        shm_packed(shm.format) == dma_buf.format,
    ensures
        shm_source(shm) == dma_buf_source(dma_buf),
        source_ops(gpu.source, shm_source(shm)) == source_ops(
            gpu.source,
            dma_buf_source(dma_buf),
        ),
        bind_group_plan(blit_layout(), packed_force_opaque(shm_packed(shm.format)))
            == bind_group_plan(blit_layout(), packed_force_opaque(dma_buf.format)),
{
}

/// The upload of a frame reads nothing past the end of its mapping, and fills the
/// texture that it lands in exactly.
pub proof fn an_upload_stays_inside_the_mapping(frame: ShmFrameView)
    requires
        frame.wf(),
    ensures
        ({
            let plan = upload_plan(frame);
            let texture = texture_plan(shm_source(frame));
            &&& plan.offset + (plan.height - 1) * plan.bytes_per_row + plan.width * BYTES_PER_PIXEL
                <= plan.pixels.len()
            &&& plan.origin.x + plan.width == texture.source.width
            &&& plan.origin.y + plan.height == texture.source.height
            &&& plan.origin.z + plan.layers == texture.layers
            &&& plan.mip_level < texture.mip_levels
        }),
{
    every_row_lies_inside_the_mapping(frame, (frame.height - 1) as nat);
}

} // verus!
