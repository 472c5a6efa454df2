use seurat::camera::{Camera, PerspectiveProjection, Projection};
use seurat::gpu::{
    BindGroupLayoutEntry, BindingType, BufferBindingType, CompareFunction, DepthStencilState, Device, DeviceCall, Face,
    PrimitiveTopology, ShaderSource, ShaderStages, StorageTextureAccess, TextureFormat, TextureSampleType,
    TextureViewDimension, VertexStepMode,
};
use seurat::light::SceneLighting;
use seurat::shader::{
    build_bind_group_layout_entries, ComputePipelineOptions, PipelineOptions, PipelineType, RenderPipelineOptions,
    Shader, ShaderBinding, ShaderBindingBuffer, ShaderBindingTexture,
};

fn buffer() -> ShaderBinding {
    ShaderBinding::Buffer(ShaderBindingBuffer::default())
}

fn texture() -> ShaderBinding {
    ShaderBinding::Texture(ShaderBindingTexture::default())
}

#[test]
fn default_buffer_binding() {
    let binding = ShaderBindingBuffer::default();
    assert_eq!(binding.visible_in_stages, ShaderStages { vertex: true, fragment: true, compute: false });
    assert_eq!(binding.uniform_or_storage, BufferBindingType::Uniform);
    assert!(!binding.has_dynamic_offset);
    assert_eq!(binding.min_binding_size, None);
}

#[test]
fn default_texture_binding() {
    let binding = ShaderBindingTexture::default();
    assert_eq!(binding.visible_in_stages, ShaderStages { vertex: false, fragment: true, compute: false });
    assert!(!binding.multisampled);
    assert_eq!(binding.dimensions, TextureViewDimension::D2);
    assert_eq!(binding.sampled_value_data_type, TextureSampleType::Float { filterable: true });
}

#[test]
fn layout_slots_are_numbered_sequentially() {
    let storage = ShaderBinding::StorageTexture(
        ShaderBindingTexture {
            visible_in_stages: ShaderStages::compute(),
            dimensions: TextureViewDimension::D3,
            ..ShaderBindingTexture::default()
        },
        TextureFormat::Rgba8Unorm,
    );
    let bindings = [texture(), buffer(), storage, texture()];
    let entries = build_bind_group_layout_entries(&bindings);
    assert_eq!(entries.len(), 6);
    for (slot, entry) in entries.iter().enumerate() {
        assert_eq!(entry.binding as usize, slot);
    }
    assert!(matches!(entries[0].ty, BindingType::Texture { .. }));
    assert!(matches!(entries[1].ty, BindingType::Sampler { .. }));
    assert!(matches!(entries[2].ty, BindingType::Buffer { .. }));
    assert!(matches!(entries[3].ty, BindingType::StorageTexture { .. }));
    assert!(matches!(entries[4].ty, BindingType::Texture { .. }));
    assert!(matches!(entries[5].ty, BindingType::Sampler { .. }));
}

#[test]
fn layout_entries_carry_the_declaration() {
    let bindings = [
        ShaderBinding::Buffer(ShaderBindingBuffer {
            visible_in_stages: ShaderStages::fragment(),
            uniform_or_storage: BufferBindingType::Storage { read_only: false },
            has_dynamic_offset: true,
            min_binding_size: Some(64),
        }),
        ShaderBinding::Texture(ShaderBindingTexture {
            sampled_value_data_type: TextureSampleType::Depth,
            ..ShaderBindingTexture::default()
        }),
        ShaderBinding::StorageTexture(
            ShaderBindingTexture { dimensions: TextureViewDimension::D3, ..ShaderBindingTexture::default() },
            TextureFormat::Rgba8Unorm,
        ),
    ];
    let entries = build_bind_group_layout_entries(&bindings);
    assert_eq!(
        entries,
        vec![
            BindGroupLayoutEntry {
                binding: 0,
                visibility: ShaderStages::fragment(),
                ty: BindingType::Buffer {
                    ty: BufferBindingType::Storage { read_only: false },
                    has_dynamic_offset: true,
                    min_binding_size: Some(64),
                },
            },
            BindGroupLayoutEntry {
                binding: 1,
                visibility: ShaderStages::fragment(),
                ty: BindingType::Texture {
                    sample_type: TextureSampleType::Depth,
                    view_dimension: TextureViewDimension::D2,
                    multisampled: false,
                },
            },
            BindGroupLayoutEntry {
                binding: 2,
                visibility: ShaderStages::fragment(),
                ty: BindingType::Sampler { filtering: false, comparison: false },
            },
            BindGroupLayoutEntry {
                binding: 3,
                visibility: ShaderStages::fragment(),
                ty: BindingType::StorageTexture {
                    access: StorageTextureAccess::WriteOnly,
                    format: TextureFormat::Rgba8Unorm,
                    view_dimension: TextureViewDimension::D3,
                },
            },
        ]
    );
}

#[test]
fn filterable_texture_gets_a_filtering_sampler() {
    let entries = build_bind_group_layout_entries(&[texture()]);
    assert_eq!(entries[1].ty, BindingType::Sampler { filtering: true, comparison: false });
}

#[test]
fn no_bindings_give_no_entries() {
    assert!(build_bind_group_layout_entries(&[]).is_empty());
}

#[test]
fn render_shader_records_its_four_calls() {
    let mut device = Device::new();
    let projection = Projection::Perspective(PerspectiveProjection::new(800, 600, 0x3F49_0FDB, 0x3DCC_CCCD, 0x42C8_0000));
    let camera = Camera::new(&mut device, projection);
    let lighting = SceneLighting::new(&mut device);
    let base = device.calls.len();
    assert_eq!(base, 6);
    let shader = Shader::new(
        &mut device,
        "scene_deferred.wgsl",
        vec![texture(), buffer()],
        PipelineOptions::RenderPipeline(RenderPipelineOptions {
            out_color_formats: vec![TextureFormat::Rgba16Float, TextureFormat::Bgra8Unorm],
            depth_format: Some(TextureFormat::Depth32Float),
            use_instances: true,
            scene_camera: Some(&camera),
            scene_lighting: Some(&lighting),
        }),
    );
    assert_eq!(shader.name, "scene_deferred.wgsl");
    assert_eq!(shader.bind_group_layout, base);
    assert_eq!(shader.pipeline_layout, base + 1);
    assert_eq!(shader.pipeline, PipelineType::RenderPipeline(base + 3));
    assert_eq!(shader.shader_bindings, vec![texture(), buffer()]);
    assert!(shader.includes_camera);
    assert!(shader.includes_lighting);
    assert_eq!(device.calls.len(), base + 4);
    match &device.calls[base] {
        DeviceCall::CreateBindGroupLayout { entries } => {
            assert_eq!(entries, &build_bind_group_layout_entries(&[texture(), buffer()]));
        }
        other => panic!("unexpected call {:?}", other),
    }
    assert_eq!(
        device.calls[base + 1],
        DeviceCall::CreatePipelineLayout {
            bind_group_layouts: vec![camera.camera_bind_group_layout, lighting.light_bind_group_layout, base],
        }
    );
    assert_eq!(
        device.calls[base + 2],
        DeviceCall::CreateShaderModule { source: ShaderSource::File(String::from("scene_deferred.wgsl")) }
    );
    match &device.calls[base + 3] {
        DeviceCall::CreateRenderPipeline(descriptor) => {
            assert_eq!(descriptor.layout, Some(base + 1));
            assert_eq!(descriptor.module, base + 2);
            assert_eq!(descriptor.vertex_entry_point, "main");
            assert_eq!(descriptor.fragment_entry_point, "main");
            assert_eq!(descriptor.targets, vec![TextureFormat::Rgba16Float, TextureFormat::Bgra8Unorm]);
            assert_eq!(descriptor.topology, PrimitiveTopology::TriangleList);
            assert_eq!(descriptor.cull_mode, Some(Face::Back));
            assert_eq!(
                descriptor.depth_stencil,
                Some(DepthStencilState {
                    format: TextureFormat::Depth32Float,
                    depth_compare: CompareFunction::LessEqual,
                })
            );
            assert_eq!(descriptor.buffers.len(), 2);
            assert_eq!(descriptor.buffers[0].step_mode, VertexStepMode::Vertex);
            assert_eq!(descriptor.buffers[0].array_stride, 44);
            assert_eq!(descriptor.buffers[1].step_mode, VertexStepMode::Instance);
            assert_eq!(descriptor.buffers[1].array_stride, 64);
        }
        other => panic!("unexpected call {:?}", other),
    }
}

#[test]
fn pipeline_layout_holds_only_what_is_present() {
    let mut device = Device::new();
    let lighting = SceneLighting::new(&mut device);
    let base = device.calls.len();
    let shader = Shader::new(
        &mut device,
        "calc_voxel_lightmap.wgsl",
        vec![buffer()],
        PipelineOptions::RenderPipeline(RenderPipelineOptions {
            out_color_formats: vec![TextureFormat::Rgba16Float],
            depth_format: None,
            use_instances: false,
            scene_camera: None,
            scene_lighting: Some(&lighting),
        }),
    );
    assert!(!shader.includes_camera);
    assert!(shader.includes_lighting);
    assert_eq!(
        device.calls[base + 1],
        DeviceCall::CreatePipelineLayout { bind_group_layouts: vec![lighting.light_bind_group_layout, base] }
    );
    match &device.calls[base + 3] {
        DeviceCall::CreateRenderPipeline(descriptor) => {
            assert_eq!(descriptor.depth_stencil, None);
            assert_eq!(descriptor.buffers.len(), 1);
        }
        other => panic!("unexpected call {:?}", other),
    }
}

#[test]
fn compute_shader_takes_neither_camera_nor_light() {
    let mut device = Device::new();
    let shader = Shader::new(
        &mut device,
        "compute_voxel_texture_generating.wgsl",
        vec![buffer()],
        PipelineOptions::ComputePipeline(ComputePipelineOptions {}),
    );
    assert_eq!(shader.pipeline, PipelineType::ComputePipeline(3));
    assert!(!shader.includes_camera);
    assert!(!shader.includes_lighting);
    assert_eq!(device.calls[1], DeviceCall::CreatePipelineLayout { bind_group_layouts: vec![0] });
    assert_eq!(
        device.calls[3],
        DeviceCall::CreateComputePipeline { layout: 1, module: 2, entry_point: String::from("main") }
    );
}
