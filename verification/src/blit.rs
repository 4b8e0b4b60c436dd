//! The blit that draws a frame: its shader, its uniform block and its bindings.

use vstd::prelude::*;

use crate::outside::words_as_bytes;

verus! {

/// The shader of the blit: two triangles over the whole target, sampling the
/// source texture, with the alpha forced to one on request.
///
/// The tail of the uniform block is three scalars rather than a `vec3<u32>`,
/// because a `vec3` is itself 16-byte aligned and would push the block to 32
/// bytes.
pub const BLIT_SHADER: &'static str =
    "struct FrameOptions {
    force_opaque: u32,
    padding_0: u32,
    padding_1: u32,
    padding_2: u32,
}

struct VertexOutput {
    @builtin(position) position: vec4<f32>,
    @location(0) uv: vec2<f32>,
}

@group(0) @binding(0) var source_sampler: sampler;
@group(0) @binding(1) var source_texture: texture_2d<f32>;
@group(0) @binding(2) var<uniform> options: FrameOptions;

@vertex
fn vertex_main(@builtin(vertex_index) index: u32) -> VertexOutput {
    var corners = array<vec2<f32>, 6>(
        vec2<f32>(0.0, 0.0),
        vec2<f32>(1.0, 0.0),
        vec2<f32>(0.0, 1.0),
        vec2<f32>(0.0, 1.0),
        vec2<f32>(1.0, 0.0),
        vec2<f32>(1.0, 1.0),
    );
    let corner = corners[index];
    var output: VertexOutput;
    output.position = vec4<f32>(corner.x * 2.0 - 1.0, 1.0 - corner.y * 2.0, 0.0, 1.0);
    output.uv = corner;
    return output;
}

@fragment
fn fragment_main(input: VertexOutput) -> @location(0) vec4<f32> {
    let color = textureSample(source_texture, source_sampler, input.uv);
    return vec4<f32>(color.rgb, select(color.a, 1.0, options.force_opaque != 0u));
}
";

/// Where the shader expects the sampler.
pub const SAMPLER_BINDING: u32 = 0;

/// Where the shader expects the source texture.
pub const TEXTURE_BINDING: u32 = 1;

/// Where the shader expects the uniform block.
pub const OPTIONS_BINDING: u32 = 2;

/// The uniform block the blit pipeline binds at [`OPTIONS_BINDING`].
///
/// It is declared twice, here and in [`BLIT_SHADER`], and nothing at run time
/// compares the two: the bound buffer is validated against the pipeline layout,
/// and the pipeline layout is written from this side.
#[derive(Debug, Clone, Copy, PartialEq, Eq, Structural)]
pub struct FrameOptions {
    /// One when the alpha channel is to be ignored, else zero.
    pub force_opaque: u32,
}

/// Byte `index` of a word, counted from the least significant.
pub open spec fn word_byte(word: u32, index: int) -> u8
    recommends
        0 <= index < 4,
{
    if index == 0 {
        (word as int % 256) as u8
    } else if index == 1 {
        (word as int / 0x100 % 256) as u8
    } else if index == 2 {
        (word as int / 0x1_0000 % 256) as u8
    } else {
        (word as int / 0x100_0000 % 256) as u8
    }
}

/// The bytes of `words` in memory, on a machine that stores the least
/// significant byte of a word first (`little_endian`) or last.
pub open spec fn memory_image(words: Seq<u32>, little_endian: bool) -> Seq<u8> {
    Seq::new(
        4 * words.len(),
        |at: int|
            word_byte(
                words[at / 4],
                if little_endian {
                    at % 4
                } else {
                    3 - at % 4
                },
            ),
    )
}

impl FrameOptions {
    /// The size the uniform buffer is allocated with and the pipeline layout
    /// declares as the binding's minimum: WGSL rounds a uniform struct up to a
    /// multiple of 16 bytes.
    pub const SIZE: u64 = 16;

    /// The words of the block: the flag, and the tail that rounds the block up.
    pub open spec fn words(self) -> Seq<u32> {
        seq![self.force_opaque, 0u32, 0u32, 0u32]
    }

    /// The block that asks for an opaque frame or leaves the alpha alone.
    #[must_use]
    pub fn new(force_opaque: bool) -> (options: Self)
        ensures
            options == frame_options(force_opaque),
    {
        FrameOptions {
            force_opaque: if force_opaque {
                1
            } else {
                0
            },
        }
    }

    /// The block as the uniform buffer holds it, in the machine's own byte order.
    #[must_use]
    pub fn bytes(self) -> (bytes: Vec<u8>)
        ensures
            bytes@.len() == Self::SIZE,
            bytes@ == memory_image(self.words(), true) || bytes@ == memory_image(
                self.words(),
                false,
            ),
    {
        let words: [u32; 4] = [self.force_opaque, 0, 0, 0];
        assert(words@ =~= self.words());
        words_as_bytes(&words)
    }
}

/// The block that asks for an opaque frame or leaves the alpha alone.
pub open spec fn frame_options(force_opaque: bool) -> FrameOptions {
    FrameOptions {
        force_opaque: if force_opaque {
            1
        } else {
            0
        },
    }
}

/// In how many directions a texture extends.
#[derive(Debug, Clone, Copy, PartialEq, Eq, Structural)]
pub enum Dimension {
    /// Along a line.
    D1,
    /// Over a plane.
    D2,
    /// Through space.
    D3,
}

/// The stages of a pipeline that see a resource.
#[derive(Debug, Clone, Copy, PartialEq, Eq, Structural)]
pub struct Visibility {
    /// Whether the vertex stage does.
    pub vertex: bool,
    /// Whether the fragment stage does.
    pub fragment: bool,
    /// Whether the compute stage does.
    pub compute: bool,
}

/// What a buffer is used for, and nothing else.
#[derive(Debug, Clone, Copy, PartialEq, Eq, Structural)]
pub struct BufferUse {
    /// Whether it is bound as a uniform block.
    pub uniform: bool,
    /// Whether it is written by copies.
    pub copy_destination: bool,
}

/// What the pipeline layout declares: a sampler, a texture and a uniform block.
#[derive(Debug, Clone, Copy, PartialEq, Eq, Structural)]
pub struct BlitLayout {
    /// The stages that see all three.
    pub visibility: Visibility,
    /// Where the sampler is bound.
    pub sampler: u32,
    /// Whether the sampler may interpolate.
    pub sampler_filters: bool,
    /// Where the source texture is bound.
    pub texture: u32,
    /// Whether the texture, of floating-point samples, may be interpolated.
    pub texture_filterable: bool,
    /// In how many directions the texture extends.
    pub texture_dimension: Dimension,
    /// Whether the texture has more than one sample per texel.
    pub texture_multisampled: bool,
    /// Where the uniform block is bound.
    pub options: u32,
    /// The size of the uniform buffer and the least size the binding accepts.
    pub options_size: u64,
    /// Whether the uniform block is bound at an offset chosen per draw.
    pub options_dynamic_offset: bool,
    /// What the uniform buffer is used for.
    pub options_use: BufferUse,
}

/// The layout that the shader is drawn with: a filtering sampler, a filterable
/// two-dimensional texture of one sample per texel and the uniform block, all for
/// the fragment stage alone.
pub open spec fn blit_layout() -> BlitLayout {
    BlitLayout {
        visibility: Visibility { vertex: false, fragment: true, compute: false },
        sampler: SAMPLER_BINDING,
        sampler_filters: true,
        texture: TEXTURE_BINDING,
        texture_filterable: true,
        texture_dimension: Dimension::D2,
        texture_multisampled: false,
        options: OPTIONS_BINDING,
        options_size: FrameOptions::SIZE,
        options_dynamic_offset: false,
        options_use: BufferUse { uniform: true, copy_destination: true },
    }
}

impl BlitLayout {
    /// The layout that the shader is drawn with.
    #[must_use]
    pub fn new() -> (layout: Self)
        ensures
            layout == blit_layout(),
    {
        BlitLayout {
            visibility: Visibility { vertex: false, fragment: true, compute: false },
            sampler: SAMPLER_BINDING,
            sampler_filters: true,
            texture: TEXTURE_BINDING,
            texture_filterable: true,
            texture_dimension: Dimension::D2,
            texture_multisampled: false,
            options: OPTIONS_BINDING,
            options_size: FrameOptions::SIZE,
            options_dynamic_offset: false,
            options_use: BufferUse { uniform: true, copy_destination: true },
        }
    }
}

/// The channels of a target that are written.
#[derive(Debug, Clone, Copy, PartialEq, Eq, Structural)]
pub struct WriteMask {
    /// Whether red is.
    pub red: bool,
    /// Whether green is.
    pub green: bool,
    /// Whether blue is.
    pub blue: bool,
    /// Whether alpha is.
    pub alpha: bool,
}

/// Everything the pipeline of the blit is made from, beside [`BLIT_SHADER`]: the
/// other settings are the API's defaults.
#[derive(Debug, Clone, Copy)]
pub struct PipelinePlan {
    /// What the pipeline layout declares.
    pub layout: BlitLayout,
    /// The vertex stage's entry point.
    pub vertex_entry: &'static str,
    /// The fragment stage's entry point.
    pub fragment_entry: &'static str,
    /// The format of the one color target.
    pub target_format: wgpu::TextureFormat,
    /// The channels of the target that are written.
    pub write_mask: WriteMask,
    /// Whether what is drawn is blended over the target by its alpha.
    pub alpha_blending: bool,
    /// Whether the sampler interpolates, up and down alike.
    pub linear_filtering: bool,
}

/// Whether `plan` is the pipeline that draws on a target of this format.
pub open spec fn is_blit_pipeline(
    plan: PipelinePlan,
    layout: BlitLayout,
    target_format: wgpu::TextureFormat,
) -> bool {
    &&& plan.layout == layout
    &&& plan.vertex_entry@ == "vertex_main"@
    &&& plan.fragment_entry@ == "fragment_main"@
    &&& plan.target_format == target_format
    &&& plan.write_mask == (WriteMask { red: true, green: true, blue: true, alpha: true })
    &&& plan.alpha_blending
    &&& plan.linear_filtering
}

/// What is bound for one frame: the block to write into the uniform buffer, and
/// where each resource goes.
#[derive(Debug, Clone, Copy, PartialEq, Eq, Structural)]
pub struct BindGroupPlan {
    /// What the uniform buffer has to hold.
    pub options: FrameOptions,
    /// The byte of the uniform buffer from which on it has to hold that.
    pub options_offset: u64,
    /// Where the sampler is bound.
    pub sampler_at: u32,
    /// Where the view of the source texture is bound.
    pub texture_at: u32,
    /// Where the whole uniform buffer is bound.
    pub options_at: u32,
}

/// What is bound for a frame under `layout`.
pub open spec fn bind_group_plan(layout: BlitLayout, force_opaque: bool) -> BindGroupPlan {
    BindGroupPlan {
        options: frame_options(force_opaque),
        options_offset: 0,
        sampler_at: layout.sampler,
        texture_at: layout.texture,
        options_at: layout.options,
    }
}

/// A color, with each channel in 255ths.
#[derive(Debug, Clone, Copy, PartialEq, Eq, Structural)]
pub struct ClearColor {
    /// Red.
    pub red: u8,
    /// Green.
    pub green: u8,
    /// Blue.
    pub blue: u8,
    /// Alpha.
    pub alpha: u8,
}

/// Transparent black.
pub open spec fn transparent() -> ClearColor {
    ClearColor { red: 0, green: 0, blue: 0, alpha: 0 }
}

impl ClearColor {
    /// Transparent black.
    #[must_use]
    pub fn transparent() -> (color: Self)
        ensures
            color == transparent(),
    {
        ClearColor { red: 0, green: 0, blue: 0, alpha: 0 }
    }
}

/// One render pass on the target.
#[derive(Debug, Clone, Copy, PartialEq, Eq, Structural)]
pub struct PassPlan {
    /// The color the target is cleared to at the start, `None` to start from what
    /// it holds.
    pub clear: Option<ClearColor>,
    /// Whether the target keeps what was drawn.
    pub store: bool,
    /// Vertices to draw from the first on, none for a pass that only clears.
    pub vertices: u32,
    /// Instances to draw from the first on.
    pub instances: u32,
}

/// The pass that draws the frame over the whole target, from transparent on.
pub open spec fn blit_pass() -> PassPlan {
    PassPlan { clear: Some(transparent()), store: true, vertices: 6, instances: 1 }
}

/// The pass that leaves the target transparent.
pub open spec fn clear_pass() -> PassPlan {
    PassPlan { clear: Some(transparent()), store: true, vertices: 0, instances: 0 }
}

/// Plans the pass that draws the frame over the whole target.
#[must_use]
pub fn encode_browser_blit() -> (pass: PassPlan)
    ensures
        pass == blit_pass(),
{
    PassPlan { clear: Some(ClearColor::transparent()), store: true, vertices: 6, instances: 1 }
}

/// Plans the pass that leaves the target transparent.
#[must_use]
pub fn clear_target() -> (pass: PassPlan)
    ensures
        pass == clear_pass(),
{
    PassPlan { clear: Some(ClearColor::transparent()), store: true, vertices: 0, instances: 0 }
}

/// The uniform block fills the buffer that the layout asks for exactly, whatever
/// the machine's byte order, and the flag is its first word.
pub proof fn the_uniform_block_fills_its_binding(options: FrameOptions, little_endian: bool)
    ensures
        memory_image(options.words(), little_endian).len() == blit_layout().options_size,
        memory_image(options.words(), little_endian).take(4) == memory_image(
            seq![options.force_opaque],
            little_endian,
        ),
{
    let image = memory_image(options.words(), little_endian);
    let flag = memory_image(seq![options.force_opaque], little_endian);
    assert(image.len() == 16);
    assert(image.take(4) =~= flag);
}

/// Whatever is bound goes where the layout declares it, and no two resources
/// share a place.
pub proof fn every_binding_answers_the_layout(force_opaque: bool)
    ensures
        ({
            let plan = bind_group_plan(blit_layout(), force_opaque);
            &&& plan.sampler_at == blit_layout().sampler
            &&& plan.texture_at == blit_layout().texture
            &&& plan.options_at == blit_layout().options
            &&& plan.sampler_at != plan.texture_at
            &&& plan.texture_at != plan.options_at
            &&& plan.options_at != plan.sampler_at
        }),
{
}

} // verus!
