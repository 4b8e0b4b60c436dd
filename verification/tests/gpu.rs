use browser_wpe::blit::{
    BLIT_SHADER, BindGroupPlan, BlitLayout, BufferUse, ClearColor, Dimension, FrameOptions,
    PassPlan, Visibility, WriteMask, clear_target, encode_browser_blit,
};
use browser_wpe::gpu::{Origin, TextureUse};
use browser_wpe::{
    BrowserFrame, DmaBufShape, FrameOp, GpuState, PackedFormat, ShmFormat, ShmFrame, SourceTexture,
    TexelFormat, TexturePlan, UploadPlan, WpeFrameLease,
};
use wgpu::naga;
use wgpu::naga::{AddressSpace, ResourceBinding, TypeInner};

/// The pipeline's uniform block, as the shader declares it.
///
/// wgpu is not an oracle for this: it checks the bound buffer against the
/// pipeline layout, which is written from [`FrameOptions`], so a shader that
/// disagrees with both is accepted and only a real draw on a real device shows
/// it. Reflecting the WGSL with the same front end wgpu parses it with asks the
/// question the run-time check cannot, and needs no adapter to answer it.
#[test]
fn shader_uniform_block_matches_the_host_struct() {
    let module = naga::front::wgsl::parse_str(BLIT_SHADER).expect("the blit shader parses");
    naga::valid::Validator::new(
        naga::valid::ValidationFlags::all(),
        naga::valid::Capabilities::empty(),
    )
    .validate(&module)
    .expect("the blit shader validates");

    let options = module
        .global_variables
        .iter()
        .map(|(_, variable)| variable)
        .find(|variable| {
            variable.space == AddressSpace::Uniform
                && variable.binding
                    == Some(ResourceBinding {
                        group: 0,
                        binding: 2,
                    })
        })
        .expect("the blit shader binds a uniform block at group 0 binding 2");
    let TypeInner::Struct { members, span } = &module.types[options.ty].inner else {
        panic!("the blit shader's uniform block is a struct");
    };

    assert_eq!(
        u64::from(*span),
        FrameOptions::SIZE,
        "the shader's uniform block and FrameOptions are different sizes"
    );
    let force_opaque = members
        .iter()
        .find(|member| member.name.as_deref() == Some("force_opaque"))
        .expect("the blit shader's uniform block has a force_opaque member");
    let flag = FrameOptions { force_opaque: 1 }
        .bytes()
        .chunks(4)
        .position(|word| word == 1u32.to_ne_bytes())
        .expect("the block holds the flag");
    assert_eq!(
        u64::from(force_opaque.offset),
        4 * flag as u64,
        "force_opaque sits at a different offset in the shader than in FrameOptions"
    );
}

#[test]
fn the_uniform_block_is_the_flag_and_a_zero_tail() {
    let mut expected = 1u32.to_ne_bytes().to_vec();
    expected.extend([0u8; 12]);
    assert_eq!(FrameOptions::new(true).bytes(), expected);
    assert_eq!(FrameOptions::new(false).bytes(), vec![0u8; 16]);
    let word = 0x0102_0304u32;
    assert_eq!(
        FrameOptions { force_opaque: word }.bytes()[..4],
        word.to_ne_bytes()
    );
}

#[test]
fn the_layout_is_the_one_the_shader_declares() {
    let mut gpu = GpuState::create_gpu_state(wgpu::TextureFormat::Rgba8Unorm);
    let pipeline = gpu.pipeline();
    assert_eq!(pipeline.target_format, wgpu::TextureFormat::Rgba8Unorm);
    assert!(pipeline.alpha_blending && pipeline.linear_filtering);
    assert_eq!(
        pipeline.write_mask,
        WriteMask {
            red: true,
            green: true,
            blue: true,
            alpha: true
        }
    );
    let module = naga::front::wgsl::parse_str(BLIT_SHADER).expect("the blit shader parses");
    for (entry, stage) in [
        (pipeline.vertex_entry, naga::ShaderStage::Vertex),
        (pipeline.fragment_entry, naga::ShaderStage::Fragment),
    ] {
        assert!(
            module
                .entry_points
                .iter()
                .any(|point| point.name == entry && point.stage == stage)
        );
    }
    assert_eq!(
        pipeline.layout,
        BlitLayout {
            visibility: Visibility {
                vertex: false,
                fragment: true,
                compute: false
            },
            sampler: 0,
            sampler_filters: true,
            texture: 1,
            texture_filterable: true,
            texture_dimension: Dimension::D2,
            texture_multisampled: false,
            options: 2,
            options_size: 16,
            options_dynamic_offset: false,
            options_use: BufferUse {
                uniform: true,
                copy_destination: true
            }
        }
    );
    gpu.ensure_source_texture(4, 2, TexelFormat::Bgra8Unorm);
    assert_eq!(
        gpu.create_source_bind_group(true),
        BindGroupPlan {
            options: FrameOptions { force_opaque: 1 },
            options_offset: 0,
            sampler_at: 0,
            texture_at: 1,
            options_at: 2
        }
    );
}

#[test]
fn a_view_draws_only_on_the_format_it_was_set_up_for() {
    let gpu = GpuState::create_gpu_state(wgpu::TextureFormat::Rgba8Unorm);
    assert!(gpu.accepts_target(wgpu::TextureFormat::Rgba8Unorm));
    assert!(!gpu.accepts_target(wgpu::TextureFormat::Bgra8Unorm));
    assert!(!gpu.accepts_target(wgpu::TextureFormat::Rgba8UnormSrgb));
}

#[test]
fn the_passes_start_from_transparent_and_draw_two_triangles_or_nothing() {
    let transparent = ClearColor {
        red: 0,
        green: 0,
        blue: 0,
        alpha: 0,
    };
    assert_eq!(
        encode_browser_blit(),
        PassPlan {
            clear: Some(transparent),
            store: true,
            vertices: 6,
            instances: 1
        }
    );
    assert_eq!(
        clear_target(),
        PassPlan {
            clear: Some(transparent),
            store: true,
            vertices: 0,
            instances: 0
        }
    );
}

/// What a source texture of this size and format is created from.
fn texture(width: u32, height: u32, format: TexelFormat) -> TexturePlan {
    TexturePlan {
        source: SourceTexture {
            width,
            height,
            format,
        },
        dimension: Dimension::D2,
        layers: 1,
        mip_levels: 1,
        samples: 1,
        usage: TextureUse {
            copy_destination: true,
            binding: true,
        },
    }
}

#[test]
fn a_source_texture_is_kept_until_the_shape_changes() {
    let mut gpu = GpuState::create_gpu_state(wgpu::TextureFormat::Rgba8Unorm);
    assert_eq!(
        gpu.ensure_source_texture(4, 2, TexelFormat::Bgra8Unorm),
        Some(texture(4, 2, TexelFormat::Bgra8Unorm))
    );
    assert_eq!(
        gpu.ensure_source_texture(4, 2, TexelFormat::Bgra8Unorm),
        None
    );
    for (width, height, format) in [
        (2, 4, TexelFormat::Bgra8Unorm),
        (2, 5, TexelFormat::Bgra8Unorm),
        (2, 5, TexelFormat::Rgba8Unorm),
    ] {
        assert_eq!(
            gpu.ensure_source_texture(width, height, format),
            Some(texture(width, height, format))
        );
    }
}

fn bound(force_opaque: u32) -> FrameOp<&'static [u8]> {
    FrameOp::BindSource(BindGroupPlan {
        options: FrameOptions { force_opaque },
        options_offset: 0,
        sampler_at: 0,
        texture_at: 1,
        options_at: 2,
    })
}

const BLIT: FrameOp<&[u8]> = FrameOp::Blit(PassPlan {
    clear: Some(ClearColor {
        red: 0,
        green: 0,
        blue: 0,
        alpha: 0,
    }),
    store: true,
    vertices: 6,
    instances: 1,
});

#[test]
fn a_dma_buf_goes_back_once_the_gpu_is_done_with_it() {
    let mut gpu = GpuState::create_gpu_state(wgpu::TextureFormat::Rgba8Unorm);
    let shape = DmaBufShape {
        width: 640,
        height: 360,
        format: PackedFormat::Rgbx8,
    };
    let steps = [
        bound(1),
        FrameOp::ImportDmaBuf,
        FrameOp::Present,
        BLIT,
        FrameOp::Submit,
        FrameOp::AwaitWork,
        FrameOp::DropImport,
        FrameOp::Release,
    ];
    let first = gpu.render_dma_buf_frame(shape);
    assert_eq!(
        first[0],
        FrameOp::CreateSource(texture(640, 360, TexelFormat::Rgba8Unorm))
    );
    assert_eq!(first[1..], steps);
    assert_eq!(gpu.render_dma_buf_frame(shape), steps);
}

#[test]
fn a_mapping_goes_back_as_soon_as_it_was_uploaded_and_drawn() {
    let mut gpu = GpuState::create_gpu_state(wgpu::TextureFormat::Rgba8Unorm);
    let pixels: Vec<u8> = (0..64).collect();
    let frame = ShmFrame::new(
        4,
        2,
        32,
        ShmFormat::Argb8888,
        &pixels,
        WpeFrameLease::new(1),
    );
    let steps = [
        bound(0),
        FrameOp::Upload(UploadPlan {
            pixels: pixels.as_slice(),
            offset: 0,
            bytes_per_row: 32,
            rows_per_image: 2,
            mip_level: 0,
            origin: Origin { x: 0, y: 0, z: 0 },
            width: 4,
            height: 2,
            layers: 1,
        }),
        FrameOp::Present,
        FrameOp::OpenEncoder,
        BLIT,
        FrameOp::Submit,
        FrameOp::Release,
    ];
    let target = wgpu::TextureFormat::Rgba8Unorm;
    let first = gpu.render_browser_frame(target, BrowserFrame::Shm(&frame));
    assert_eq!(
        first[0],
        FrameOp::CreateSource(texture(4, 2, TexelFormat::Bgra8Unorm))
    );
    assert_eq!(first[1..], steps);
    assert_eq!(gpu.render_shm_frame(&frame), steps);
}

#[test]
fn both_buffer_kinds_share_the_source_texture() {
    let mut gpu = GpuState::create_gpu_state(wgpu::TextureFormat::Rgba8Unorm);
    let target = wgpu::TextureFormat::Rgba8Unorm;
    let pixels = vec![0u8; 32];
    let frame = ShmFrame::new(
        4,
        2,
        16,
        ShmFormat::Argb8888,
        &pixels,
        WpeFrameLease::new(1),
    );
    gpu.render_browser_frame(target, BrowserFrame::Shm(&frame));
    let ops = gpu.render_browser_frame(
        target,
        BrowserFrame::DmaBuf(DmaBufShape {
            width: 4,
            height: 2,
            format: PackedFormat::Bgra8,
        }),
    );
    assert_eq!(ops[0], bound(0), "no new texture for the same shape");
}
